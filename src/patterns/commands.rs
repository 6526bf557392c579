//! Vi-style commands: movement deltas, and the parsing of Normal-mode keys,
//! Ex-mode keys and Ex command lines.

use crate::foundation::Position;
use vstd::prelude::*;

verus! {

/// A movement direction, bound to the vi keys h, j, k and l.
#[derive(Debug, Clone, Copy, PartialEq, Eq, Structural)]
pub enum Direction {
    Left,
    Down,
    Up,
    Right,
}

/// The grid step of each direction; y grows downwards.
pub open spec fn delta(d: Direction) -> (int, int) {
    match d {
        Direction::Left => (-1, 0),
        Direction::Down => (0, 1),
        Direction::Up => (0, -1),
        Direction::Right => (1, 0),
    }
}

/// Whether a step in `d` from `pos` stays within the coordinates a position
/// can hold.
pub open spec fn can_step(d: Direction, pos: Position) -> bool {
    &&& i32::MIN <= pos.x + delta(d).0 <= i32::MAX
    &&& i32::MIN <= pos.y + delta(d).1 <= i32::MAX
}

pub open spec fn stepped(d: Direction, pos: Position) -> Position {
    Position { x: (pos.x + delta(d).0) as i32, y: (pos.y + delta(d).1) as i32 }
}

impl Direction {
    pub fn to_delta(self) -> (r: (i32, i32))
        ensures
            r.0 == delta(self).0,
            r.1 == delta(self).1,
    {
        match self {
            Direction::Left => (-1, 0),
            Direction::Down => (0, 1),
            Direction::Up => (0, -1),
            Direction::Right => (1, 0),
        }
    }

    /// The position one step from `pos` in this direction.
    pub fn apply_to(self, pos: Position) -> (r: Position)
        requires
            can_step(self, pos),
        ensures
            r == stepped(self, pos),
    {
        let (dx, dy) = self.to_delta();
        Position::new(pos.x + dx, pos.y + dy)
    }

    /// The position one step from `pos`, or none where the step would leave
    /// the coordinates a position can hold.
    pub fn checked_apply_to(self, pos: Position) -> (r: Option<Position>)
        ensures
            r is Some <==> can_step(self, pos),
            r matches Some(p) ==> p == stepped(self, pos),
    {
        let (dx, dy) = self.to_delta();
        let x: i64 = pos.x as i64 + dx as i64;
        let y: i64 = pos.y as i64 + dy as i64;
        if i32::MIN as i64 <= x && x <= i32::MAX as i64 && i32::MIN as i64 <= y && y
            <= i32::MAX as i64 {
            Some(self.apply_to(pos))
        } else {
            None
        }
    }
}

/// Movement closes: one step in each of the four directions, in any order,
/// leads back to the starting position.
pub proof fn lemma_four_steps_return(
    pos: Position,
    a: Direction,
    b: Direction,
    c: Direction,
    d: Direction,
)
    requires
        a != b && a != c && a != d && b != c && b != d && c != d,
        can_step(a, pos),
        can_step(b, stepped(a, pos)),
        can_step(c, stepped(b, stepped(a, pos))),
        can_step(d, stepped(c, stepped(b, stepped(a, pos)))),
    ensures
        stepped(d, stepped(c, stepped(b, stepped(a, pos)))) == pos,
{
}

/// Commands that the player's keys stand for.
#[derive(Debug, Clone, Copy, PartialEq, Eq, Structural)]
pub enum Command {
    /// Move the player one step.
    Move(Direction),
    /// Open the Ex command line.
    EnterExMode,
    /// Run a recognised Ex command.
    ExCommand(ExCommand),
    /// Close the command line and discard its text.
    CancelEx,
    /// Append a character to the command line.
    ExInput(char),
    /// Remove the last character of the command line.
    ExBackspace,
    /// Input that means nothing; it changes nothing.
    Unknown,
}

/// Commands of the Ex command line.
#[derive(Debug, Clone, Copy, PartialEq, Eq, Structural)]
pub enum ExCommand {
    /// Quit the game (`:q` or `:quit`).
    Quit,
}

pub open spec fn normal_command(c: char) -> Command {
    if c == 'h' {
        Command::Move(Direction::Left)
    } else if c == 'j' {
        Command::Move(Direction::Down)
    } else if c == 'k' {
        Command::Move(Direction::Up)
    } else if c == 'l' {
        Command::Move(Direction::Right)
    } else if c == ':' {
        Command::EnterExMode
    } else {
        Command::Unknown
    }
}

/// The escape character.
pub const ESCAPE: char = '\x1b';

pub open spec fn is_line_end(c: char) -> bool {
    c == '\n' || c == '\r'
}

pub open spec fn ex_input_command(c: char) -> Command {
    if is_line_end(c) {
        Command::Unknown
    } else if c == ESCAPE {
        Command::CancelEx
    } else {
        Command::ExInput(c)
    }
}

/// The command that a trimmed command line names.
pub open spec fn ex_command_of(text: Seq<char>) -> Option<ExCommand> {
    if text == "q"@ || text == "quit"@ {
        Some(ExCommand::Quit)
    } else {
        None
    }
}

/// Whether `c` has the Unicode White_Space property.
pub uninterp spec fn white_space(c: char) -> bool;

pub open spec fn trim_start(s: Seq<char>) -> Seq<char>
    decreases s.len(),
{
    if s.len() > 0 && white_space(s[0]) {
        trim_start(s.drop_first())
    } else {
        s
    }
}

pub open spec fn trim_end(s: Seq<char>) -> Seq<char>
    decreases s.len(),
{
    if s.len() > 0 && white_space(s.last()) {
        trim_end(s.drop_last())
    } else {
        s
    }
}

/// `s` without its leading and trailing whitespace.
pub open spec fn trimmed(s: Seq<char>) -> Seq<char> {
    trim_end(trim_start(s))
}

/// Relies on `str::trim`: it removes leading and trailing whitespace, as the
/// Unicode White_Space property defines it.
pub assume_specification[ str::trim ](s: &str) -> (r: &str)
    ensures
        r@ == trimmed(s@),
        r@.len() > 0 ==> !white_space(r@[0]) && !white_space(r@.last()),
;

/// Maps a key of Normal mode to its command.
pub fn parse_normal_command(c: char) -> (r: Command)
    ensures
        r == normal_command(c),
{
    match c {
        'h' => Command::Move(Direction::Left),
        'j' => Command::Move(Direction::Down),
        'k' => Command::Move(Direction::Up),
        'l' => Command::Move(Direction::Right),
        ':' => Command::EnterExMode,
        _ => Command::Unknown,
    }
}

/// Maps a key of Ex mode to its command. A line end maps to `Unknown`: the
/// caller runs the command line instead.
pub fn parse_ex_input(c: char) -> (r: Command)
    ensures
        r == ex_input_command(c),
{
    if c == '\n' || c == '\r' {
        Command::Unknown
    } else if c == ESCAPE {
        Command::CancelEx
    } else {
        Command::ExInput(c)
    }
}

fn same_text(a: &str, b: &str) -> (r: bool)
    ensures
        r == (a@ == b@),
{
    let n = a.unicode_len();
    if n != b.unicode_len() {
        return false;
    }
    let mut i: usize = 0;
    while i < n
        invariant
            n == a@.len(),
            n == b@.len(),
            i <= n,
            forall|j: int| 0 <= j < i ==> a@[j] == b@[j],
        decreases n - i,
    {
        if a.get_char(i) != b.get_char(i) {
            return false;
        }
        i = i + 1;
    }
    assert(a@ =~= b@);
    true
}

/// Recognises an Ex command line that has already been trimmed.
pub fn match_ex_command(text: &str) -> (r: Option<ExCommand>)
    ensures
        r == ex_command_of(text@),
{
    if same_text(text, "q") || same_text(text, "quit") {
        Some(ExCommand::Quit)
    } else {
        None
    }
}

/// Parses an Ex command line: after trimming, `q` and `quit` quit, and
/// nothing else is recognised.
pub fn parse_ex_command(cmd: &str) -> (r: Option<ExCommand>)
    ensures
        r == ex_command_of(trimmed(cmd@)),
{
    match_ex_command(cmd.trim())
}

} // verus!
