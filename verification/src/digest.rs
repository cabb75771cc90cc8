//! The SHA-1 digest that keys an object in the retry store and names objects fetched by URL.

use vstd::prelude::*;

verus! {

/// The SHA-1 digest of `data`, written as 40 lower-case hexadecimal digits.
pub uninterp spec fn sha1_hex(data: Seq<u8>) -> Seq<char>;

/// Calls `sha1_smol::Sha1::from(data).digest()` and renders the digest with its `Display`
/// impl, which writes the five state words as eight lower-case hexadecimal digits each.
/// Trusted: the result is a function of the bytes.
#[verifier::external_body]
pub(crate) fn sha1_hex_digest(data: &[u8]) -> (r: String)
    ensures
        r@ == sha1_hex(data@),
{
    sha1_smol::Sha1::from(data).digest().to_string()
}

} // verus!
