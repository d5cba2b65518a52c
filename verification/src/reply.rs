//! How the engine's return codes are read.

use vstd::prelude::*;

verus! {

/// What a predicate's return code means: `1` is yes, `0` is no, and any other
/// code is no answer at all.
pub open spec fn predicate_meaning(code: i32) -> Option<bool> {
    if code == 1 {
        Some(true)
    } else if code == 0 {
        Some(false)
    } else {
        None
    }
}

/// Reads the return code of a predicate of the engine, unary or binary, on a
/// geometry or on a prepared geometry.
///
/// `None` stands for a code that is neither yes nor no: the engine failed,
/// and the code is not to be taken for a "no".
pub fn predicate(code: i32) -> (answer: Option<bool>)
    ensures
        answer == predicate_meaning(code),
{
    if code == 1 {
        Some(true)
    } else if code == 0 {
        Some(false)
    } else {
        None
    }
}

/// Reads the answer of an engine call that writes a number through a pointer
/// and returns a code: the code `0` says that nothing was written, so there
/// is no number then. This is how the engine gives an area and an ordinate of
/// a coordinate sequence.
pub fn measured<T>(code: i32, value: T) -> (r: Option<T>)
    ensures
        r == if code == 0 {
            None
        } else {
            Some(value)
        },
{
    if code == 0 {
        None
    } else {
        Some(value)
    }
}

} // verus!
