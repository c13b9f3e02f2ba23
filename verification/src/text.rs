//! Small verified helpers on strings.

use vstd::prelude::*;

verus! {

/// Whether two strings hold the same characters.
pub(crate) fn same(a: &str, b: &str) -> (r: bool)
    ensures
        r == (a@ == b@),
{
    let left: String = a.to_owned();
    let right: String = b.to_owned();
    left == right
}

/// The two strings, one after the other.
pub(crate) fn join(head: &str, tail: &str) -> (r: String)
    ensures
        r@ == head@ + tail@,
{
    let mut joined: String = head.to_owned();
    joined.append(tail);
    joined
}

} // verus!
