//! The command translator: it maps a key and the current mode to a command,
//! and applies commands to the mode and to the player's thread.
//!
//! A command line that names no known command leaves Ex mode active with its
//! text intact; Escape discards it, and Backspace removes its last
//! character.

use crate::patterns::commands::{
    Command,
    Direction,
    ExCommand,
    can_step,
    ex_command_of,
    ex_input_command,
    is_line_end,
    normal_command,
    parse_ex_command,
    parse_ex_input,
    parse_normal_command,
    stepped,
    trimmed,
};
use crate::patterns::modes::Mode;
use crate::tapestry::{Tapestry, first_with_id, holds_id};
use crate::threads::{Thread, ThreadId};
use vstd::prelude::*;

verus! {

/// A key event, as far as the input layer reads it.
#[derive(Debug, Clone, Copy, PartialEq, Eq, Structural)]
pub enum Key {
    /// A character key; a line end typed as a character counts as Enter in
    /// Ex mode.
    Char(char),
    Enter,
    Esc,
    Backspace,
    /// Any other key.
    Other,
}

/// The command that running the command line `buffer` gives.
pub open spec fn submitted(buffer: Seq<char>) -> Command {
    match ex_command_of(trimmed(buffer)) {
        Some(c) => Command::ExCommand(c),
        None => Command::Unknown,
    }
}

/// The command that `key` stands for in `mode`.
pub open spec fn key_command(mode: Mode, key: Key) -> Command {
    match key {
        Key::Char(c) => {
            if mode is Ex {
                if is_line_end(c) {
                    submitted(mode->command_buffer@)
                } else {
                    ex_input_command(c)
                }
            } else {
                normal_command(c)
            }
        },
        Key::Enter => {
            if mode is Ex {
                submitted(mode->command_buffer@)
            } else {
                Command::Unknown
            }
        },
        Key::Esc => {
            if mode is Ex {
                Command::CancelEx
            } else {
                Command::Unknown
            }
        },
        Key::Backspace => {
            if mode is Ex {
                Command::ExBackspace
            } else {
                Command::Unknown
            }
        },
        Key::Other => Command::Unknown,
    }
}

/// `after` is the mode that applying `command` in mode `before` leaves.
pub open spec fn mode_after(before: Mode, command: Command, after: Mode) -> bool {
    match command {
        Command::EnterExMode => after is Ex && after->command_buffer@.len() == 0,
        Command::ExInput(c) => if before is Ex {
            after is Ex && after->command_buffer@ == before->command_buffer@.push(c)
        } else {
            after == before
        },
        Command::ExBackspace => if before is Ex {
            after is Ex && after->command_buffer@ == if before->command_buffer@.len() > 0 {
                before->command_buffer@.drop_last()
            } else {
                before->command_buffer@
            }
        } else {
            after == before
        },
        Command::CancelEx | Command::ExCommand(_) => after is Normal
            && after->count_buffer@.len() == 0,
        Command::Move(_) | Command::Unknown => after == before,
    }
}

/// The threads after the player's thread takes a step in `d`. Nothing moves
/// where the player is missing, has no position, or would leave the grid.
pub open spec fn moved<S>(threads: Seq<Thread<S>>, player: ThreadId, d: Direction) -> Seq<
    Thread<S>,
> {
    if holds_id(threads, player) {
        let i = choose|i: int| first_with_id(threads, player, i);
        let t = threads[i];
        match t.position {
            Some(p) => if can_step(d, p) {
                threads.update(
                    i,
                    Thread {
                        id: t.id,
                        kind: t.kind,
                        properties: t.properties,
                        states: t.states,
                        position: Some(stepped(d, p)),
                    },
                )
            } else {
                threads
            },
            None => threads,
        }
    } else {
        threads
    }
}

/// The threads after `command`: only a move changes them.
pub open spec fn threads_after<S>(threads: Seq<Thread<S>>, player: ThreadId, command: Command) -> Seq<
    Thread<S>,
> {
    match command {
        Command::Move(d) => moved(threads, player, d),
        _ => threads,
    }
}

/// Maps a key event to a command, given the current mode.
pub fn translate_key(mode: &Mode, key: Key) -> (r: Command)
    ensures
        r == key_command(*mode, key),
{
    match key {
        Key::Char(c) => {
            if mode.is_ex() {
                if c == '\n' || c == '\r' {
                    submit(mode)
                } else {
                    parse_ex_input(c)
                }
            } else {
                parse_normal_command(c)
            }
        },
        Key::Enter => {
            if mode.is_ex() {
                submit(mode)
            } else {
                Command::Unknown
            }
        },
        Key::Esc => {
            if mode.is_ex() {
                Command::CancelEx
            } else {
                Command::Unknown
            }
        },
        Key::Backspace => {
            if mode.is_ex() {
                Command::ExBackspace
            } else {
                Command::Unknown
            }
        },
        Key::Other => Command::Unknown,
    }
}

fn submit(mode: &Mode) -> (r: Command)
    requires
        *mode is Ex,
    ensures
        r == submitted(mode->command_buffer@),
{
    match mode.command_buffer() {
        Some(text) => match parse_ex_command(text) {
            Some(ex_cmd) => Command::ExCommand(ex_cmd),
            None => Command::Unknown,
        },
        None => Command::Unknown,
    }
}

/// Applies `command` to the mode and to the player's thread. Returns false
/// once the game is to end, which only an Ex quit command asks for.
pub fn execute_command<S>(
    command: Command,
    tapestry: &mut Tapestry<S>,
    player_id: ThreadId,
    mode: &mut Mode,
) -> (keep_running: bool)
    ensures
        keep_running == !(command is ExCommand),
        mode_after(*old(mode), command, *final(mode)),
        final(tapestry).threads() == threads_after(old(tapestry).threads(), player_id, command),
        final(tapestry).next_raw_id() == old(tapestry).next_raw_id(),
{
    match command {
        Command::Move(direction) => {
            move_thread(tapestry, player_id, direction);
            true
        },
        Command::EnterExMode => {
            *mode = Mode::ex();
            true
        },
        Command::ExInput(c) => {
            match mode {
                Mode::Ex { command_buffer } => {
                    command_buffer.push(c);
                },
                _ => {},
            }
            true
        },
        Command::ExBackspace => {
            match mode {
                Mode::Ex { command_buffer } => {
                    let _ = command_buffer.pop();
                },
                _ => {},
            }
            true
        },
        Command::CancelEx => {
            *mode = Mode::normal();
            true
        },
        Command::ExCommand(ex_cmd) => {
            *mode = Mode::normal();
            match ex_cmd {
                ExCommand::Quit => false,
            }
        },
        Command::Unknown => true,
    }
}

fn move_thread<S>(tapestry: &mut Tapestry<S>, id: ThreadId, direction: Direction)
    ensures
        final(tapestry).threads() == moved(old(tapestry).threads(), id, direction),
        final(tapestry).next_raw_id() == old(tapestry).next_raw_id(),
{
    match tapestry.get_thread_mut(id) {
        Some(thread) => {
            match thread.position {
                Some(current) => {
                    match direction.checked_apply_to(current) {
                        Some(next) => {
                            thread.position = Some(next);
                        },
                        None => {},
                    }
                },
                None => {},
            }
        },
        None => {},
    }
}

/// One step of the session: translates `key` in the current mode and
/// applies the command. Returns false once the game is to end.
pub fn handle_key<S>(
    tapestry: &mut Tapestry<S>,
    player_id: ThreadId,
    mode: &mut Mode,
    key: Key,
) -> (keep_running: bool)
    ensures
        keep_running == !(key_command(*old(mode), key) is ExCommand),
        mode_after(*old(mode), key_command(*old(mode), key), *final(mode)),
        final(tapestry).threads() == threads_after(
            old(tapestry).threads(),
            player_id,
            key_command(*old(mode), key),
        ),
        final(tapestry).next_raw_id() == old(tapestry).next_raw_id(),
{
    let command = translate_key(mode, key);
    execute_command(command, tapestry, player_id, mode)
}

} // verus!
