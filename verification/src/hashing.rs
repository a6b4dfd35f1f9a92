use vstd::prelude::*;

verus! {

/// The hash40 value of a string: a CRC32 of the ASCII-lower-cased bytes with
/// the byte length modulo 256 in the bits above them, as the `hash40` crate
/// computes it.
pub uninterp spec fn hash40_of(s: Seq<char>) -> u64;

/// Calls `hash40::hash40` on `s` and returns the raw value.
/// Claimed: the result depends on the string alone (named `hash40_of`).
#[verifier::external_body]
pub(crate) fn hash40_str(s: &str) -> (h: u64)
    ensures
        h == hash40_of(s@),
{
    hash40::hash40(s).0
}

} // verus!
