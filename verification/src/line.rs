//! Line-input helpers: trimming the line terminator off a raw line, and
//! classifying a yes-or-no answer.

use vstd::prelude::*;
use vstd::string::{StringExecFns, StrSliceExecFns};

verus! {

/// The index of the first line feed in `s`, or `s.len()` when there is
/// none.
pub open spec fn first_newline(s: Seq<char>) -> int
    decreases s.len(),
{
    if s.len() == 0 {
        0
    } else if s[0] == '\n' {
        0
    } else {
        1 + first_newline(s.drop_first())
    }
}

/// What characterises [`first_newline`]: it is in bounds, it sits on a
/// line feed unless there is none, and nothing before it is a line feed.
pub proof fn lemma_first_newline(s: Seq<char>)
    ensures
        0 <= first_newline(s) <= s.len(),
        first_newline(s) < s.len() ==> s[first_newline(s)] == '\n',
        forall|j: int| 0 <= j < first_newline(s) ==> s[j] != '\n',
    decreases s.len(),
{
    if s.len() > 0 && s[0] != '\n' {
        lemma_first_newline(s.drop_first());
        assert forall|j: int| 0 <= j < first_newline(s) implies s[j] != '\n' by {
            if j > 0 {
                assert(s.drop_first()[j - 1] == s[j]);
            }
        }
    }
}

/// A raw line up to its first line feed, with a carriage return directly
/// before that line feed stripped as well. A line without a line feed is
/// kept whole.
pub open spec fn trimmed_line(s: Seq<char>) -> Seq<char> {
    let cut = first_newline(s);
    if cut == s.len() {
        s
    } else if cut > 0 && s[cut - 1] == '\r' {
        s.take(cut - 1)
    } else {
        s.take(cut)
    }
}

/// Trim a raw input line: keep everything before the first line feed,
/// and drop a carriage return that sits directly before it.
pub fn trim_line(s: &str) -> (r: String)
    ensures
        r@ == trimmed_line(s@),
{
    let n = s.unicode_len();
    let mut i: usize = 0;
    while i < n && s.get_char(i) != '\n'
        invariant
            n == s@.len(),
            i <= n,
            forall|j: int| 0 <= j < i ==> s@[j] != '\n',
        decreases n - i,
    {
        i = i + 1;
    }
    proof {
        lemma_first_newline(s@);
        assert(i == first_newline(s@));
    }
    if i == n {
        String::from_str(s)
    } else if i > 0 && s.get_char(i - 1) == '\r' {
        String::from_str(s.substring_char(0, i - 1))
    } else {
        String::from_str(s.substring_char(0, i))
    }
}

/// Whether `s` is a non-empty prefix of `"yes"`, compared without regard
/// to ASCII case.
pub open spec fn yes_prefix(s: Seq<char>) -> bool {
    &&& 1 <= s.len() <= 3
    &&& (s[0] == 'y' || s[0] == 'Y')
    &&& (s.len() >= 2 ==> s[1] == 'e' || s[1] == 'E')
    &&& (s.len() >= 3 ==> s[2] == 's' || s[2] == 'S')
}

/// Whether `s` is a non-empty prefix of `"no"`, compared without regard
/// to ASCII case.
pub open spec fn no_prefix(s: Seq<char>) -> bool {
    &&& 1 <= s.len() <= 2
    &&& (s[0] == 'n' || s[0] == 'N')
    &&& (s.len() >= 2 ==> s[1] == 'o' || s[1] == 'O')
}

/// How a yes-or-no answer is read: an empty answer means the default, a
/// prefix of `"yes"` means yes, a prefix of `"no"` means no, and anything
/// else is indeterminate.
pub open spec fn yesno_spec(default: bool, s: Seq<char>) -> Option<bool> {
    if s.len() == 0 {
        Some(default)
    } else if yes_prefix(s) {
        Some(true)
    } else if no_prefix(s) {
        Some(false)
    } else {
        None
    }
}

/// Classify a yes-or-no answer, already read and trimmed.
///
/// An empty answer yields the default. An answer that is a prefix of
/// `"yes"` or of `"no"`, compared without regard to ASCII case, yields
/// `Some(true)` or `Some(false)`. Any other answer yields `None`.
pub fn yesno(default: bool, answer: &str) -> (r: Option<bool>)
    ensures
        r == yesno_spec(default, answer@),
{
    let n = answer.unicode_len();
    if n == 0 {
        return Some(default);
    }
    let c0 = answer.get_char(0);
    if n <= 3 && (c0 == 'y' || c0 == 'Y') {
        let ok1 = if n >= 2 {
            let c1 = answer.get_char(1);
            c1 == 'e' || c1 == 'E'
        } else {
            true
        };
        let ok2 = if n >= 3 {
            let c2 = answer.get_char(2);
            c2 == 's' || c2 == 'S'
        } else {
            true
        };
        if ok1 && ok2 {
            return Some(true);
        }
        return None;
    }
    if n <= 2 && (c0 == 'n' || c0 == 'N') {
        let ok1 = if n >= 2 {
            let c1 = answer.get_char(1);
            c1 == 'o' || c1 == 'O'
        } else {
            true
        };
        if ok1 {
            return Some(false);
        }
        return None;
    }
    None
}

} // verus!
