//! Small verified copying helpers for owned byte buffers and strings.

use vstd::prelude::*;

verus! {

/// A copy of a byte buffer, equal to the original element for element.
pub fn copy_bytes(v: &Vec<u8>) -> (r: Vec<u8>)
    ensures
        r@ == v@,
{
    let r = v.clone();
    proof {
        assert forall|i: int| 0 <= i < v@.len() implies r@[i] == v@[i] by {
            assert(cloned::<u8>(v@[i], r@[i]));
        }
        assert(v@ =~= r@);
    }
    r
}

/// A copy of an optional string, equal to the original.
pub fn copy_opt_string(s: &Option<String>) -> (r: Option<String>)
    ensures
        r == *s,
        r.deep_view() == s.deep_view(),
{
    match s {
        Some(inner) => Some(inner.clone()),
        None => None,
    }
}

/// A copy of an optional byte buffer, carrying the same bytes.
pub fn copy_opt_bytes(v: &Option<Vec<u8>>) -> (r: Option<Vec<u8>>)
    ensures
        r.deep_view() == v.deep_view(),
{
    match v {
        Some(inner) => Some(copy_bytes(inner)),
        None => None,
    }
}

/// The decimal representation of a 128-bit value.
pub uninterp spec fn decimal_of(n: u128) -> Seq<char>;

/// Relies on u128's Display implementation: the decimal representation
/// depends on the value alone.
#[verifier::external_body]
pub fn u128_to_string(n: u128) -> (r: String)
    ensures
        r@ == decimal_of(n),
{
    n.to_string()
}

} // verus!
