//! Interactive command-line input primitives: the key decoder, selection
//! state machine and menu loop behind a single-select terminal menu, plus
//! line trimming, yes/no classification and styled-text construction.
//!
//! Everything here is pure: the functions consume bytes or strings that
//! the caller already read, and produce values or text for the caller to
//! write. An interactive front end owns the terminal, keeps raw mode for
//! the duration of a menu, and drives these functions.

use vstd::prelude::*;

pub mod keys;
pub mod line;
pub mod menu;
pub mod select;
pub mod style;
pub mod util;

pub use line::yesno;
pub use menu::Boxes;
pub use util::or2ro;

verus! {

/// The ASCII escape character, the first byte of every terminal escape
/// sequence this library decodes or emits.
pub const ESC: u8 = 0x1B;

} // verus!
