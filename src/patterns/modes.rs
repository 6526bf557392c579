//! The modal state of the interface: Normal, Insert or Ex, each with the
//! text it has collected.

use vstd::prelude::*;

verus! {

/// The current input mode. Exactly one is active; the default is Normal
/// with an empty buffer.
#[derive(Debug, Clone, PartialEq, Eq)]
pub enum Mode {
    /// Movement and commands; the buffer collects a numeric count.
    Normal { count_buffer: String },
    /// Text entry; reserved, no key leads here.
    Insert,
    /// The colon command line, with the text typed so far.
    Ex { command_buffer: String },
}

/// The mode indicator of each mode.
pub open spec fn mode_label(m: Mode) -> Seq<char> {
    match m {
        Mode::Normal { .. } => "-- NORMAL --"@,
        Mode::Insert => "-- INSERT --"@,
        Mode::Ex { .. } => "-- COMMAND --"@,
    }
}

/// Keys waiting to be shown beside the indicator: the count buffer in
/// Normal mode, nothing otherwise.
pub open spec fn pending_text(m: Mode) -> Seq<char> {
    match m {
        Mode::Normal { count_buffer } => count_buffer@,
        _ => Seq::empty(),
    }
}

/// Relies on `String::push`: it appends `ch` to the end of the string.
pub assume_specification[ String::push ](s: &mut String, ch: char)
    ensures
        final(s)@ == old(s)@.push(ch),
;

/// Relies on `String::pop`: it removes the last character and returns it,
/// or returns `None` and leaves an empty string as it is.
pub assume_specification[ String::pop ](s: &mut String) -> (r: Option<char>)
    ensures
        old(s)@.len() == 0 ==> r is None && final(s)@ == old(s)@,
        old(s)@.len() > 0 ==> r == Some(old(s)@.last()) && final(s)@ == old(s)@.drop_last(),
;

impl Mode {
    /// Normal mode with an empty count buffer.
    pub fn normal() -> (r: Mode)
        ensures
            r matches Mode::Normal { count_buffer } && count_buffer@.len() == 0,
    {
        Mode::Normal { count_buffer: String::new() }
    }

    /// Ex mode with an empty command line.
    pub fn ex() -> (r: Mode)
        ensures
            r matches Mode::Ex { command_buffer } && command_buffer@.len() == 0,
    {
        Mode::Ex { command_buffer: String::new() }
    }

    /// The indicator shown for this mode.
    pub fn mode_name(&self) -> (r: &'static str)
        ensures
            r@ == mode_label(*self),
    {
        match self {
            Mode::Normal { .. } => "-- NORMAL --",
            Mode::Insert => "-- INSERT --",
            Mode::Ex { .. } => "-- COMMAND --",
        }
    }

    /// The count buffer in Normal mode, empty text otherwise.
    pub fn pending_keys(&self) -> (r: &str)
        ensures
            r@ == pending_text(*self),
    {
        match self {
            Mode::Normal { count_buffer } => count_buffer.as_str(),
            _ => {
                proof {
                    reveal_strlit("");
                }
                ""
            },
        }
    }

    /// In Ex mode, the command line as shown: a colon and the text typed.
    pub fn command_line(&self) -> (r: Option<String>)
        ensures
            r is Some <==> *self is Ex,
            r matches Some(line) ==> line@ == seq![':'] + self->command_buffer@,
    {
        match self {
            Mode::Ex { command_buffer } => {
                let mut line = String::from_str(":");
                line.append(command_buffer.as_str());
                proof {
                    reveal_strlit(":");
                }
                Some(line)
            },
            _ => None,
        }
    }

    pub fn is_ex(&self) -> (r: bool)
        ensures
            r == (*self is Ex),
    {
        match self {
            Mode::Ex { .. } => true,
            _ => false,
        }
    }

    /// The command line text, in Ex mode.
    pub fn command_buffer(&self) -> (r: Option<&str>)
        ensures
            r is Some <==> *self is Ex,
            r matches Some(text) ==> text@ == self->command_buffer@,
    {
        match self {
            Mode::Ex { command_buffer } => Some(command_buffer.as_str()),
            _ => None,
        }
    }

    /// The count buffer, in Normal mode.
    pub fn count_buffer(&self) -> (r: Option<&str>)
        ensures
            r is Some <==> *self is Normal,
            r matches Some(text) ==> text@ == self->count_buffer@,
    {
        match self {
            Mode::Normal { count_buffer } => Some(count_buffer.as_str()),
            _ => None,
        }
    }
}

impl Default for Mode {
    fn default() -> (r: Mode)
        ensures
            r matches Mode::Normal { count_buffer } && count_buffer@.len() == 0,
    {
        Mode::normal()
    }
}

} // verus!
