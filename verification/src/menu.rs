//! The single-select menu: row rendering, the menu loop over a stream of
//! input bytes, and a session model that accounts for read failures and
//! for restoration of the terminal mode.
//!
//! The loop here is pure: it consumes bytes (or read outcomes) that the
//! caller already holds. An interactive front end reads the terminal one
//! byte at a time and drives the same decoder and selection machine.

use vstd::prelude::*;
use vstd::string::StringExecFns;
use crate::keys::{KeyEvent, DecodeState, DecodeStep, feed_spec, feed, decode_spec, decode_next};
use crate::select::{apply_spec, apply};

verus! {

/// The text used to mark menu rows as selected or not.
#[derive(Clone, Copy, Debug)]
pub struct Boxes<'a> {
    /// The marker put before the selected row.
    pub on: &'a str,
    /// The marker put before every other row.
    pub off: &'a str,
}

impl<'a> Default for Boxes<'a> {
    /// The default markers: `">"` for the selected row, `" "` otherwise.
    fn default() -> (r: Self)
        ensures
            r.on@ == ">"@,
            r.off@ == " "@,
    {
        Boxes { on: ">", off: " " }
    }
}

/// One rendered menu row: the marker for the row's state, a space, and
/// the row's text.
pub open spec fn row_spec(marker: Seq<char>, item: Seq<char>) -> Seq<char> {
    marker + " "@ + item
}

/// Render one menu row: `marker`, one space, then `item`.
pub fn render_row(marker: &str, item: &str) -> (r: String)
    ensures
        r@ == row_spec(marker@, item@),
{
    let mut out = String::from_str(marker);
    out.append(" ");
    out.append(item);
    out
}

/// Render every row of the menu: row `selected` carries `boxes.on`, every
/// other row carries `boxes.off`.
pub fn render_rows(boxes: &Boxes, items: &[String], selected: usize) -> (r: Vec<String>)
    requires
        selected < items.len(),
    ensures
        r@.len() == items@.len(),
        forall|i: int|
            0 <= i < items@.len() ==> r@[i]@ == row_spec(
                if i == selected { boxes.on@ } else { boxes.off@ },
                items@[i]@,
            ),
{
    let mut out: Vec<String> = Vec::new();
    let mut i: usize = 0;
    while i < items.len()
        invariant
            i <= items.len(),
            selected < items.len(),
            out@.len() == i,
            forall|j: int|
                0 <= j < i ==> out@[j]@ == row_spec(
                    if j == selected { boxes.on@ } else { boxes.off@ },
                    items@[j]@,
                ),
        decreases items.len() - i,
    {
        let marker = if i == selected {
            boxes.on
        } else {
            boxes.off
        };
        out.push(render_row(marker, &items[i]));
        i = i + 1;
    }
    out
}

/// The row that the menu loop ends on, starting at row `index` with the
/// bytes of `s` from `pos` still unread.
///
/// Each step decodes one event. `Confirm` ends the loop on the current
/// row; so does `Abort` (end of input), which reports the last selection
/// rather than an error. Every other event moves the selection as the
/// state machine says and the loop goes on.
pub open spec fn menu_run(len: int, s: Seq<u8>, pos: int, index: int) -> int
    recommends
        0 < len,
        0 <= pos <= s.len(),
        0 <= index < len,
    decreases s.len() - pos
        when 0 <= pos <= s.len()
{
    let (ev, next) = decode_spec(s, pos);
    match ev {
        KeyEvent::Confirm => index,
        KeyEvent::Abort => index,
        _ => menu_run(len, s, next, apply_spec(index, len, ev)),
    }
}

/// The selection invariant of the menu loop: started on a valid row, it
/// ends on a valid row, whatever bytes arrive — movement clamps at both
/// ends and never wraps.
pub proof fn lemma_menu_run_in_bounds(len: int, s: Seq<u8>, pos: int, index: int)
    requires
        0 < len,
        0 <= pos <= s.len(),
        0 <= index < len,
    ensures
        0 <= menu_run(len, s, pos, index) < len,
    decreases s.len() - pos,
{
    let (ev, next) = decode_spec(s, pos);
    match ev {
        KeyEvent::Confirm => {},
        KeyEvent::Abort => {},
        _ => {
            lemma_menu_run_in_bounds(len, s, next, apply_spec(index, len, ev));
        },
    }
}

/// The row that `choose_from` picks for a menu of `len` rows fed the
/// bytes of `s`: the menu loop run from row `0`.
pub open spec fn choose_result(len: int, s: Seq<u8>) -> int {
    menu_run(len, s, 0, 0)
}

/// Run the menu loop of a menu with `len` rows over the input bytes in
/// `input`, starting from row `0`, and return the row it ends on.
///
/// The result is always a valid row. Input beyond the confirming byte is
/// left unread, exactly as an interactive session would leave it.
pub fn choose_from(len: usize, input: &[u8]) -> (r: usize)
    requires
        0 < len,
    ensures
        r == choose_result(len as int, input@),
        r < len,
{
    let mut pos: usize = 0;
    let mut index: usize = 0;
    loop
        invariant
            0 < len,
            pos <= input.len(),
            index < len,
            menu_run(len as int, input@, pos as int, index as int) == choose_result(
                len as int,
                input@,
            ),
        decreases input.len() - pos,
    {
        let (ev, next) = decode_next(input, pos);
        match ev {
            KeyEvent::Confirm => {
                return index;
            },
            KeyEvent::Abort => {
                return index;
            },
            _ => {
                index = apply(index, len, ev);
                pos = next;
            },
        }
    }
}

/// The outcome of one attempted read from the input stream.
#[derive(Clone, Copy, Debug, PartialEq, Eq, Structural)]
pub enum ReadStep {
    /// A byte arrived.
    Byte(u8),
    /// The stream ended.
    End,
    /// The read failed with an I/O error.
    Fail,
}

/// What fetching one event from the stream produced.
#[derive(Clone, Copy, Debug, PartialEq, Eq, Structural)]
pub enum Fetched {
    /// A decoded event.
    Ev(KeyEvent),
    /// A read failed; the error is to be propagated.
    ReadError,
}

/// One observable act of a menu session on the terminal.
#[derive(Clone, Copy, Debug, PartialEq, Eq, Structural)]
pub enum TermAction {
    /// All rows were rendered, with this row marked as selected.
    Render(usize),
    /// The cursor moved up this many lines.
    CursorUp(usize),
    /// The screen was cleared from the cursor to its end.
    ClearRight,
    /// The terminal mode captured at session start was restored.
    RestoreMode,
}

/// How a menu session ended.
#[derive(Clone, Copy, Debug, PartialEq, Eq, Structural)]
pub enum MenuOutcome {
    /// The loop ended on this row (confirmed, or the input ended).
    Chosen(usize),
    /// A read failed and the error was propagated.
    Failed,
}

/// The event fetched from the read outcomes in `s` starting at `pos`,
/// together with the position just past the reads it consumed. Reading
/// past the end of `s`, or a `ReadStep::End`, stands for end of the
/// stream; a `ReadStep::Fail` anywhere inside an event aborts the fetch
/// with `Fetched::ReadError`.
pub open spec fn fetch_spec(s: Seq<ReadStep>, pos: int) -> (Fetched, int)
    recommends
        0 <= pos <= s.len(),
{
    if pos >= s.len() {
        (Fetched::Ev(KeyEvent::Abort), pos)
    } else {
        match s[pos] {
            ReadStep::Fail => (Fetched::ReadError, pos + 1),
            ReadStep::End => (Fetched::Ev(KeyEvent::Abort), pos + 1),
            ReadStep::Byte(b) => match feed_spec(DecodeState::Start, Some(b)) {
                DecodeStep::Done(ev) => (Fetched::Ev(ev), pos + 1),
                DecodeStep::Pending(st1) => {
                    if pos + 1 >= s.len() {
                        (Fetched::Ev(KeyEvent::Abort), pos + 1)
                    } else {
                        match s[pos + 1] {
                            ReadStep::Fail => (Fetched::ReadError, pos + 2),
                            ReadStep::End => (Fetched::Ev(KeyEvent::Abort), pos + 2),
                            ReadStep::Byte(b2) => match feed_spec(st1, Some(b2)) {
                                DecodeStep::Done(ev) => (Fetched::Ev(ev), pos + 2),
                                DecodeStep::Pending(st2) => {
                                    if pos + 2 >= s.len() {
                                        (Fetched::Ev(KeyEvent::Abort), pos + 2)
                                    } else {
                                        match s[pos + 2] {
                                            ReadStep::Fail => (Fetched::ReadError, pos + 3),
                                            ReadStep::End => (
                                                Fetched::Ev(KeyEvent::Abort),
                                                pos + 3,
                                            ),
                                            ReadStep::Byte(b3) => match feed_spec(
                                                st2,
                                                Some(b3),
                                            ) {
                                                DecodeStep::Done(ev) => (Fetched::Ev(ev), pos + 3),
                                                DecodeStep::Pending(_) => (
                                                    Fetched::Ev(KeyEvent::Ignore),
                                                    pos + 3,
                                                ),
                                            },
                                        }
                                    }
                                },
                            },
                        }
                    }
                },
            },
        }
    }
}

/// Fetch the next event from the read outcomes in `script` starting at
/// `pos`, consuming every read that belongs to the event.
pub fn fetch_event(script: &[ReadStep], pos: usize) -> (r: (Fetched, usize))
    requires
        pos <= script.len(),
    ensures
        (r.0, r.1 as int) == fetch_spec(script@, pos as int),
        pos <= r.1 <= script.len(),
        pos < script.len() ==> pos < r.1,
{
    if pos >= script.len() {
        return (Fetched::Ev(KeyEvent::Abort), pos);
    }
    let b = match script[pos] {
        ReadStep::Fail => {
            return (Fetched::ReadError, pos + 1);
        },
        ReadStep::End => {
            return (Fetched::Ev(KeyEvent::Abort), pos + 1);
        },
        ReadStep::Byte(b) => b,
    };
    let st1 = match feed(DecodeState::Start, Some(b)) {
        DecodeStep::Done(ev) => {
            return (Fetched::Ev(ev), pos + 1);
        },
        DecodeStep::Pending(st1) => st1,
    };
    if pos + 1 >= script.len() {
        return (Fetched::Ev(KeyEvent::Abort), pos + 1);
    }
    let b2 = match script[pos + 1] {
        ReadStep::Fail => {
            return (Fetched::ReadError, pos + 2);
        },
        ReadStep::End => {
            return (Fetched::Ev(KeyEvent::Abort), pos + 2);
        },
        ReadStep::Byte(b2) => b2,
    };
    let st2 = match feed(st1, Some(b2)) {
        DecodeStep::Done(ev) => {
            return (Fetched::Ev(ev), pos + 2);
        },
        DecodeStep::Pending(st2) => st2,
    };
    if pos + 2 >= script.len() {
        return (Fetched::Ev(KeyEvent::Abort), pos + 2);
    }
    let b3 = match script[pos + 2] {
        ReadStep::Fail => {
            return (Fetched::ReadError, pos + 3);
        },
        ReadStep::End => {
            return (Fetched::Ev(KeyEvent::Abort), pos + 3);
        },
        ReadStep::Byte(b3) => b3,
    };
    match feed(st2, Some(b3)) {
        DecodeStep::Done(ev) => (Fetched::Ev(ev), pos + 3),
        DecodeStep::Pending(_) => (Fetched::Ev(KeyEvent::Ignore), pos + 3),
    }
}

/// How a session of a menu with `len` rows ends, starting at row `index`
/// with the read outcomes of `script` from `pos` still pending. A failed
/// read ends the session in `Failed`; `Confirm` and end of input end it
/// in `Chosen` of the current row.
pub open spec fn session_result(len: int, script: Seq<ReadStep>, pos: int, index: int) -> MenuOutcome
    recommends
        0 < len <= usize::MAX,
        0 <= pos <= script.len(),
        0 <= index < len,
    decreases script.len() - pos
        when 0 <= pos <= script.len()
{
    let (f, next) = fetch_spec(script, pos);
    match f {
        Fetched::ReadError => MenuOutcome::Failed,
        Fetched::Ev(ev) => match ev {
            KeyEvent::Confirm => MenuOutcome::Chosen(index as usize),
            KeyEvent::Abort => MenuOutcome::Chosen(index as usize),
            _ => session_result(len, script, next, apply_spec(index, len, ev)),
        },
    }
}

/// Everything a session does to the terminal after its first render,
/// starting at row `index` with the read outcomes of `script` from `pos`
/// still pending: for each event that moves the selection, the cursor
/// moves up over the rendered rows, the screen is cleared to its end,
/// and the rows are rendered again; and the one `RestoreMode` comes
/// last, whatever ended the session.
pub open spec fn session_trace(len: int, script: Seq<ReadStep>, pos: int, index: int) -> Seq<
    TermAction,
>
    recommends
        0 < len <= usize::MAX,
        0 <= pos <= script.len(),
        0 <= index < len,
    decreases script.len() - pos
        when 0 <= pos <= script.len()
{
    let (f, next) = fetch_spec(script, pos);
    match f {
        Fetched::ReadError => seq![TermAction::RestoreMode],
        Fetched::Ev(ev) => match ev {
            KeyEvent::Confirm => seq![TermAction::RestoreMode],
            KeyEvent::Abort => seq![TermAction::RestoreMode],
            _ => seq![
                TermAction::CursorUp(len as usize),
                TermAction::ClearRight,
                TermAction::Render(apply_spec(index, len, ev) as usize),
            ] + session_trace(len, script, next, apply_spec(index, len, ev)),
        },
    }
}

/// The law of guaranteed restoration: every session trace ends with
/// `RestoreMode`, and holds no other `RestoreMode` — the terminal mode
/// captured at session start is restored exactly once, on every exit
/// path, a failed read included.
pub proof fn lemma_restore_exactly_once(len: int, script: Seq<ReadStep>, pos: int, index: int)
    requires
        0 < len <= usize::MAX,
        0 <= pos <= script.len(),
        0 <= index < len,
    ensures
        session_trace(len, script, pos, index).len() >= 1,
        session_trace(len, script, pos, index).last() == TermAction::RestoreMode,
        forall|i: int|
            0 <= i < session_trace(len, script, pos, index).len() - 1
                ==> session_trace(len, script, pos, index)[i] != TermAction::RestoreMode,
    decreases script.len() - pos,
{
    let (f, next) = fetch_spec(script, pos);
    match f {
        Fetched::ReadError => {},
        Fetched::Ev(ev) => match ev {
            KeyEvent::Confirm => {},
            KeyEvent::Abort => {},
            _ => {
                lemma_restore_exactly_once(len, script, next, apply_spec(index, len, ev));
            },
        },
    }
}

/// A session whose reads all deliver a byte ends exactly as the pure
/// menu loop over those bytes: it cannot fail, and it ends on the same
/// row.
pub proof fn lemma_session_matches_menu(len: int, bytes: Seq<u8>, pos: int, index: int)
    requires
        0 < len <= usize::MAX,
        0 <= pos <= bytes.len(),
        0 <= index < len,
    ensures
        session_result(len, bytes.map_values(|b: u8| ReadStep::Byte(b)), pos, index)
            == MenuOutcome::Chosen(menu_run(len, bytes, pos, index) as usize),
    decreases bytes.len() - pos,
{
    let script = bytes.map_values(|b: u8| ReadStep::Byte(b));
    assert(script.len() == bytes.len());
    if pos < bytes.len() {
        assert(script[pos] == ReadStep::Byte(bytes[pos]));
        if pos + 1 < bytes.len() {
            assert(script[pos + 1] == ReadStep::Byte(bytes[pos + 1]));
        }
        if pos + 2 < bytes.len() {
            assert(script[pos + 2] == ReadStep::Byte(bytes[pos + 2]));
        }
    }
    let (ev, next) = decode_spec(bytes, pos);
    assert(fetch_spec(script, pos) == (Fetched::Ev(ev), next));
    match ev {
        KeyEvent::Confirm => {},
        KeyEvent::Abort => {},
        _ => {
            lemma_session_matches_menu(len, bytes, next, apply_spec(index, len, ev));
        },
    }
}

/// Run one whole menu session over the read outcomes in `script`,
/// starting from row `0`, and return how it ended together with the
/// trace of everything it did to the terminal.
///
/// The trace ends with exactly one `RestoreMode`, on every path: whether
/// the session confirmed a row, ran out of input, or hit a failed read,
/// the terminal mode captured at session start is restored exactly once,
/// and before the outcome (in particular an error) reaches the caller.
pub fn run_session(len: usize, script: &[ReadStep]) -> (r: (MenuOutcome, Vec<TermAction>))
    requires
        0 < len,
    ensures
        r.0 == session_result(len as int, script@, 0, 0),
        r.0 matches MenuOutcome::Chosen(ix) ==> ix < len,
        r.1@ == seq![TermAction::Render(0usize)] + session_trace(len as int, script@, 0, 0),
        r.1@.last() == TermAction::RestoreMode,
        forall|i: int| 0 <= i < r.1@.len() - 1 ==> r.1@[i] != TermAction::RestoreMode,
{
    let mut pos: usize = 0;
    let mut index: usize = 0;
    let mut trace: Vec<TermAction> = Vec::new();
    trace.push(TermAction::Render(0));
    proof {
        lemma_restore_exactly_once(len as int, script@, 0, 0);
        assert(trace@ + session_trace(len as int, script@, 0, 0) =~= seq![
            TermAction::Render(0usize),
        ] + session_trace(len as int, script@, 0, 0));
    }
    loop
        invariant
            0 < len,
            pos <= script.len(),
            index < len,
            session_result(len as int, script@, pos as int, index as int) == session_result(
                len as int,
                script@,
                0,
                0,
            ),
            trace@ + session_trace(len as int, script@, pos as int, index as int) == seq![
                TermAction::Render(0usize),
            ] + session_trace(len as int, script@, 0, 0),
            forall|i: int| 0 <= i < trace@.len() ==> trace@[i] != TermAction::RestoreMode,
        decreases script.len() - pos,
    {
        let ghost trace_rest = session_trace(len as int, script@, pos as int, index as int);
        let ghost trace_before = trace@;
        let (f, next) = fetch_event(script, pos);
        match f {
            Fetched::ReadError => {
                trace.push(TermAction::RestoreMode);
                proof {
                    lemma_restore_exactly_once(len as int, script@, 0, 0);
                    assert(trace_rest =~= seq![TermAction::RestoreMode]);
                    assert(trace@ =~= trace_before + trace_rest);
                }
                return (MenuOutcome::Failed, trace);
            },
            Fetched::Ev(ev) => match ev {
                KeyEvent::Confirm => {
                    trace.push(TermAction::RestoreMode);
                    proof {
                        lemma_restore_exactly_once(len as int, script@, 0, 0);
                        assert(trace_rest =~= seq![TermAction::RestoreMode]);
                        assert(trace@ =~= trace_before + trace_rest);
                    }
                    return (MenuOutcome::Chosen(index), trace);
                },
                KeyEvent::Abort => {
                    trace.push(TermAction::RestoreMode);
                    proof {
                        lemma_restore_exactly_once(len as int, script@, 0, 0);
                        assert(trace_rest =~= seq![TermAction::RestoreMode]);
                        assert(trace@ =~= trace_before + trace_rest);
                    }
                    return (MenuOutcome::Chosen(index), trace);
                },
                _ => {
                    index = apply(index, len, ev);
                    pos = next;
                    trace.push(TermAction::CursorUp(len));
                    trace.push(TermAction::ClearRight);
                    trace.push(TermAction::Render(index));
                    proof {
                        assert(trace_rest =~= seq![
                            TermAction::CursorUp(len),
                            TermAction::ClearRight,
                            TermAction::Render(index),
                        ] + session_trace(len as int, script@, pos as int, index as int));
                        assert(trace@ =~= trace_before + seq![
                            TermAction::CursorUp(len),
                            TermAction::ClearRight,
                            TermAction::Render(index),
                        ]);
                        assert(trace@ + session_trace(len as int, script@, pos as int, index as int)
                            =~= trace_before + trace_rest);
                    }
                },
            },
        }
    }
}

} // verus!
