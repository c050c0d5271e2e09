//! The selection state machine: how a decoded event moves the selection
//! index of a menu with a fixed number of rows.
//!
//! Movement saturates at both ends: the index clamps at `0` and at
//! `len - 1` and never wraps.

use vstd::prelude::*;
use crate::keys::KeyEvent;

verus! {

/// The index that one event moves the selection to, for a menu of `len`
/// rows. `MoveUp` clamps at `0`, `MoveDown` clamps at `len - 1`, and
/// every other event leaves the index unchanged.
pub open spec fn apply_spec(index: int, len: int, event: KeyEvent) -> int
    recommends
        0 < len,
        0 <= index < len,
{
    match event {
        KeyEvent::MoveUp => if index > 0 { index - 1 } else { 0 },
        KeyEvent::MoveDown => if index + 1 < len { index + 1 } else { len - 1 },
        KeyEvent::Confirm => index,
        KeyEvent::Abort => index,
        KeyEvent::Ignore => index,
    }
}

/// Apply one event to the selection index of a menu with `len` rows.
///
/// The result always stays within `[0, len)`: `MoveUp` never takes the
/// index below `0` and `MoveDown` never takes it past `len - 1`.
pub fn apply(index: usize, len: usize, event: KeyEvent) -> (r: usize)
    requires
        0 < len,
        index < len,
    ensures
        r == apply_spec(index as int, len as int, event),
        r < len,
{
    match event {
        KeyEvent::MoveUp => if index > 0 { index - 1 } else { 0 },
        KeyEvent::MoveDown => if index + 1 < len { index + 1 } else { len - 1 },
        KeyEvent::Confirm => index,
        KeyEvent::Abort => index,
        KeyEvent::Ignore => index,
    }
}

/// The index after the same event has been applied `n` times.
pub open spec fn apply_n(index: int, len: int, event: KeyEvent, n: nat) -> int
    decreases n,
{
    if n == 0 {
        index
    } else {
        apply_spec(apply_n(index, len, event, (n - 1) as nat), len, event)
    }
}

/// `n` repetitions of `MoveUp` take the selection exactly `n` rows up,
/// stopping at row `0`.
pub proof fn lemma_apply_n_move_up(index: int, len: int, n: nat)
    requires
        0 < len,
        0 <= index < len,
    ensures
        apply_n(index, len, KeyEvent::MoveUp, n) == (if n >= index {
            0int
        } else {
            index - n
        }),
    decreases n,
{
    if n > 0 {
        lemma_apply_n_move_up(index, len, (n - 1) as nat);
    }
}

/// `n` repetitions of `MoveDown` take the selection exactly `n` rows
/// down, stopping at the last row.
pub proof fn lemma_apply_n_move_down(index: int, len: int, n: nat)
    requires
        0 < len,
        0 <= index < len,
    ensures
        apply_n(index, len, KeyEvent::MoveDown, n) == (if index + n >= len - 1 {
            len - 1
        } else {
            index + n
        }),
    decreases n,
{
    if n > 0 {
        lemma_apply_n_move_down(index, len, (n - 1) as nat);
    }
}

/// Repeated `MoveUp` converges on row `0` and stays there: once at least
/// `index` steps have been taken, the selection is exactly `0`.
pub proof fn lemma_move_up_converges(index: int, len: int, n: nat)
    requires
        0 < len,
        0 <= index < len,
        n >= index,
    ensures
        apply_n(index, len, KeyEvent::MoveUp, n) == 0,
{
    lemma_apply_n_move_up(index, len, n);
}

/// Repeated `MoveDown` converges on the last row and stays there: once at
/// least `len - 1 - index` steps have been taken, the selection is
/// exactly `len - 1`.
pub proof fn lemma_move_down_converges(index: int, len: int, n: nat)
    requires
        0 < len,
        0 <= index < len,
        n >= len - 1 - index,
    ensures
        apply_n(index, len, KeyEvent::MoveDown, n) == len - 1,
{
    lemma_apply_n_move_down(index, len, n);
}

} // verus!
