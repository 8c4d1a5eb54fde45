//! The digest that fingerprints a block's preimage.

use vstd::prelude::*;

verus! {

/// The lowercase hexadecimal rendering of the MD5 digest of a string.
/// The digest is a fixed function of the input alone; the library never
/// states which string it is for a given input.
pub uninterp spec fn digest_of(s: Seq<char>) -> Seq<char>;

/// Relies on `md5::compute` and the `LowerHex` rendering of `md5::Digest`:
/// the digest depends on the input bytes alone, and the rendering writes
/// each of the sixteen digest bytes as two lowercase hexadecimal digits.
#[verifier::external_body]
pub(crate) fn md5_hex(s: &str) -> (r: String)
    ensures
        r@ == digest_of(s@),
        r@.len() == 32,
{
    format!("{:x}", md5::compute(s))
}

} // verus!
