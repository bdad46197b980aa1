//! Key decoding: raw input bytes become a closed set of logical commands.
//! The byte `27` (ESC) opens a three-byte CSI sequence; the decoder then
//! needs exactly two more bytes before it can resolve a command.

use vstd::prelude::*;

verus! {

/// The logical commands the navigation state machine understands. The
/// state machine never sees raw bytes; every keystroke resolves to one of
/// these, with `Noop` for anything unrecognized.
#[derive(Clone, Copy, PartialEq, Eq, Structural, Debug)]
pub enum Command {
    MoveUp,
    MoveDown,
    Open,
    Back,
    Rename,
    Quit,
    Noop,
}

/// What one input byte resolves to: either a finished command, or the start
/// of an escape sequence for which two more bytes must be read.
#[derive(Clone, Copy, PartialEq, Eq, Structural, Debug)]
pub enum Decoded {
    Done(Command),
    Escape,
}

/// The meaning of a single non-escape input byte: line feed opens, `b` goes
/// back, `r` renames, `q` quits, ESC starts a sequence, all else is `Noop`.
pub open spec fn decode_byte_spec(b: u8) -> Decoded {
    if b == 27 {
        Decoded::Escape
    } else if b == 10 {
        Decoded::Done(Command::Open)
    } else if b == 98 {
        Decoded::Done(Command::Back)
    } else if b == 114 {
        Decoded::Done(Command::Rename)
    } else if b == 113 {
        Decoded::Done(Command::Quit)
    } else {
        Decoded::Done(Command::Noop)
    }
}

/// The meaning of the two bytes after ESC: the CSI codes `[A` and `[B` are
/// the Up and Down arrows; every other continuation is swallowed as `Noop`.
pub open spec fn decode_escape_spec(b1: u8, b2: u8) -> Command {
    if b1 == 91 && b2 == 65 {
        Command::MoveUp
    } else if b1 == 91 && b2 == 66 {
        Command::MoveDown
    } else {
        Command::Noop
    }
}

/// Decodes one raw input byte.
pub fn decode_byte(b: u8) -> (r: Decoded)
    ensures
        r == decode_byte_spec(b),
{
    match b {
        27 => Decoded::Escape,
        10 => Decoded::Done(Command::Open),
        98 => Decoded::Done(Command::Back),
        114 => Decoded::Done(Command::Rename),
        113 => Decoded::Done(Command::Quit),
        _ => Decoded::Done(Command::Noop),
    }
}

/// Decodes the two continuation bytes of an escape sequence.
pub fn decode_escape(b1: u8, b2: u8) -> (r: Command)
    ensures
        r == decode_escape_spec(b1, b2),
{
    match (b1, b2) {
        (91, 65) => Command::MoveUp,
        (91, 66) => Command::MoveDown,
        _ => Command::Noop,
    }
}

} // verus!
