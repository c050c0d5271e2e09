//! Decoding raw input bytes into navigation and confirmation events.
//!
//! Terminals transmit arrow keys as multi-byte escape sequences, so the
//! decoder consumes one to three bytes per event. Sequences it does not
//! recognise are absorbed as [`KeyEvent::Ignore`] rather than reported as
//! errors, so a menu stays usable on terminals that emit sequences this
//! decoder does not know.

use vstd::prelude::*;

verus! {

/// One decoded input event.
#[derive(Clone, Copy, Debug, PartialEq, Eq, Structural)]
pub enum KeyEvent {
    /// Move the selection up one row (up arrow, or `k`).
    MoveUp,
    /// Move the selection down one row (down arrow, or `j`).
    MoveDown,
    /// Accept the current selection (carriage return or line feed).
    Confirm,
    /// The input stream ended before a full event arrived.
    Abort,
    /// A byte or escape sequence with no meaning here; fully consumed.
    Ignore,
}

/// Progress of the incremental decoder between bytes of one escape
/// sequence.
#[derive(Clone, Copy, Debug, PartialEq, Eq, Structural)]
pub enum DecodeState {
    /// No partial sequence pending.
    Start,
    /// An ESC byte has been read.
    SawEsc,
    /// ESC followed by `[` has been read.
    SawEscBracket,
}

/// Result of feeding one byte (or end of stream) to the decoder.
#[derive(Clone, Copy, Debug, PartialEq, Eq, Structural)]
pub enum DecodeStep {
    /// A full event was recognised.
    Done(KeyEvent),
    /// More bytes are needed; resume from this state.
    Pending(DecodeState),
}

/// What [`feed`] returns for a decoder state and the next read: either a
/// finished event or the state to resume from. `None` stands for end of
/// the input stream.
pub open spec fn feed_spec(state: DecodeState, input: Option<u8>) -> DecodeStep {
    match input {
        None => DecodeStep::Done(KeyEvent::Abort),
        Some(b) => match state {
            DecodeState::Start => {
                if b == crate::ESC {
                    DecodeStep::Pending(DecodeState::SawEsc)
                } else if b == 0x0D || b == 0x0A {
                    DecodeStep::Done(KeyEvent::Confirm)
                } else if b == 0x6B {  // 'k'
                    DecodeStep::Done(KeyEvent::MoveUp)
                } else if b == 0x6A {  // 'j'
                    DecodeStep::Done(KeyEvent::MoveDown)
                } else {
                    DecodeStep::Done(KeyEvent::Ignore)
                }
            },
            DecodeState::SawEsc => {
                if b == 0x5B {  // '['
                    DecodeStep::Pending(DecodeState::SawEscBracket)
                } else {
                    DecodeStep::Done(KeyEvent::Ignore)
                }
            },
            DecodeState::SawEscBracket => {
                if b == 0x41 {  // 'A'
                    DecodeStep::Done(KeyEvent::MoveUp)
                } else if b == 0x42 {  // 'B'
                    DecodeStep::Done(KeyEvent::MoveDown)
                } else {
                    DecodeStep::Done(KeyEvent::Ignore)
                }
            },
        },
    }
}

/// Advance the decoder by one read. `input` is the byte just read, or
/// `None` when the stream has ended.
pub fn feed(state: DecodeState, input: Option<u8>) -> (r: DecodeStep)
    ensures
        r == feed_spec(state, input),
{
    match input {
        None => DecodeStep::Done(KeyEvent::Abort),
        Some(b) => match state {
            DecodeState::Start => {
                if b == crate::ESC {
                    DecodeStep::Pending(DecodeState::SawEsc)
                } else if b == 0x0D || b == 0x0A {
                    DecodeStep::Done(KeyEvent::Confirm)
                } else if b == 0x6B {
                    DecodeStep::Done(KeyEvent::MoveUp)
                } else if b == 0x6A {
                    DecodeStep::Done(KeyEvent::MoveDown)
                } else {
                    DecodeStep::Done(KeyEvent::Ignore)
                }
            },
            DecodeState::SawEsc => {
                if b == 0x5B {
                    DecodeStep::Pending(DecodeState::SawEscBracket)
                } else {
                    DecodeStep::Done(KeyEvent::Ignore)
                }
            },
            DecodeState::SawEscBracket => {
                if b == 0x41 {
                    DecodeStep::Done(KeyEvent::MoveUp)
                } else if b == 0x42 {
                    DecodeStep::Done(KeyEvent::MoveDown)
                } else {
                    DecodeStep::Done(KeyEvent::Ignore)
                }
            },
        },
    }
}

/// The event decoded from `s` starting at `pos`, together with the
/// position just past the bytes it consumed. Reading at or past the end
/// of `s` stands for end of the input stream and yields `Abort`.
pub open spec fn decode_spec(s: Seq<u8>, pos: int) -> (KeyEvent, int)
    recommends
        0 <= pos <= s.len(),
{
    if pos >= s.len() {
        (KeyEvent::Abort, pos)
    } else {
        match feed_spec(DecodeState::Start, Some(s[pos])) {
            DecodeStep::Done(ev) => (ev, pos + 1),
            DecodeStep::Pending(st1) => {
                if pos + 1 >= s.len() {
                    (KeyEvent::Abort, pos + 1)
                } else {
                    match feed_spec(st1, Some(s[pos + 1])) {
                        DecodeStep::Done(ev) => (ev, pos + 2),
                        DecodeStep::Pending(st2) => {
                            if pos + 2 >= s.len() {
                                (KeyEvent::Abort, pos + 2)
                            } else {
                                match feed_spec(st2, Some(s[pos + 2])) {
                                    DecodeStep::Done(ev) => (ev, pos + 3),
                                    // A third pending state never arises; keep
                                    // the event stream well defined anyway.
                                    DecodeStep::Pending(_) => (KeyEvent::Ignore, pos + 3),
                                }
                            }
                        },
                    }
                }
            },
        }
    }
}

/// Decode the next event from `input` starting at `pos`.
///
/// Returns the event and the position of the first unconsumed byte, so a
/// partial or unrecognised escape sequence never leaks bytes into the
/// next decode. The position advances whenever the stream has not ended.
pub fn decode_next(input: &[u8], pos: usize) -> (r: (KeyEvent, usize))
    requires
        pos <= input.len(),
    ensures
        (r.0, r.1 as int) == decode_spec(input@, pos as int),
        pos <= r.1 <= input.len(),
        pos < input.len() ==> pos < r.1,
{
    if pos >= input.len() {
        return (KeyEvent::Abort, pos);
    }
    match feed(DecodeState::Start, Some(input[pos])) {
        DecodeStep::Done(ev) => (ev, pos + 1),
        DecodeStep::Pending(st1) => {
            if pos + 1 >= input.len() {
                return (KeyEvent::Abort, pos + 1);
            }
            match feed(st1, Some(input[pos + 1])) {
                DecodeStep::Done(ev) => (ev, pos + 2),
                DecodeStep::Pending(st2) => {
                    if pos + 2 >= input.len() {
                        return (KeyEvent::Abort, pos + 2);
                    }
                    match feed(st2, Some(input[pos + 2])) {
                        DecodeStep::Done(ev) => (ev, pos + 3),
                        DecodeStep::Pending(_) => (KeyEvent::Ignore, pos + 3),
                    }
                }
            }
        }
    }
}

} // verus!
