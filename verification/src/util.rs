//! A small plumbing helper shared by the input loops.

use vstd::prelude::*;

verus! {

/// Turn the result of a fallible, possibly exhausted read inside out:
/// `Some(Ok(t))` becomes `Ok(Some(t))`, an error is kept as an error,
/// and `None` (an exhausted stream) becomes `Ok(None)`.
pub fn or2ro<T, E>(x: Option<Result<T, E>>) -> (r: Result<Option<T>, E>)
    ensures
        match x {
            Some(Ok(t)) => r == Ok::<Option<T>, E>(Some(t)),
            Some(Err(e)) => r == Err::<Option<T>, E>(e),
            None => r == Ok::<Option<T>, E>(None),
        },
{
    match x {
        Some(Ok(t)) => Ok(Some(t)),
        Some(Err(e)) => Err(e),
        None => Ok(None),
    }
}

} // verus!
