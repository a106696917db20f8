use vstd::prelude::*;

verus! {

/// A 32-byte digest identifying a section, a header or an authorization.
pub type Digest = [u8; 32];

/// The SHA-256 digest of a byte sequence.
pub uninterp spec fn sha256_of(b: Seq<u8>) -> [u8; 32];

/// Relies on sha2's `Sha256::digest`: the digest depends on the input bytes alone.
#[verifier::external_body]
pub(crate) fn sha256(b: &Vec<u8>) -> (r: Digest)
    ensures
        r == sha256_of(b@),
{
    <sha2::Sha256 as sha2::Digest>::digest(b.as_slice()).into()
}

} // verus!
