//! Construction of the styled text that the printing helpers emit: the
//! message wrapped in the ANSI sequences for bold, bold bright green, or
//! bold bright red, closed by the reset sequence.

use vstd::prelude::*;
use vstd::string::StringExecFns;

verus! {

/// `text` wrapped between a style-opening escape sequence and the reset
/// sequence.
pub open spec fn styled_spec(opening: Seq<char>, text: Seq<char>) -> Seq<char> {
    opening + text + "\u{1B}[0m"@
}

/// Wrap `text` between the escape sequence in `opening` and the reset
/// sequence.
fn wrap_style(opening: &str, text: &str) -> (r: String)
    ensures
        r@ == styled_spec(opening@, text@),
{
    let mut out = String::from_str(opening);
    out.append(text);
    out.append("\u{1B}[0m");
    out
}

/// The text of a question: `q` in bold. No line terminator is added, so
/// an answer can be typed on the same line.
pub fn ask_text(q: &str) -> (r: String)
    ensures
        r@ == styled_spec("\u{1B}[1m"@, q@),
{
    wrap_style("\u{1B}[1m", q)
}

/// The text of a message of success: `s` in bold bright green.
pub fn success_text(s: &str) -> (r: String)
    ensures
        r@ == styled_spec("\u{1B}[1;92m"@, s@),
{
    wrap_style("\u{1B}[1;92m", s)
}

/// The text of an error message: `s` in bold bright red.
pub fn error_text(s: &str) -> (r: String)
    ensures
        r@ == styled_spec("\u{1B}[1;91m"@, s@),
{
    wrap_style("\u{1B}[1;91m", s)
}

} // verus!
