//! Content-hash comparison for files found on disk.
use vstd::prelude::*;

verus! {

/// The lower-case hex MD5 digest of a byte string.
pub uninterp spec fn md5_hex_of(data: Seq<u8>) -> Seq<char>;

/// Relies on `md5::compute` and the lower-hex format of its `Digest`: the text depends on
/// the bytes alone.
#[verifier::external_body]
pub(crate) fn md5_hex(data: &[u8]) -> (r: String)
    ensures
        r@ == md5_hex_of(data@),
{
    format!("{:x}", md5::compute(data))
}

/// Whether a computed digest is the declared one.
pub fn digest_matches(digest: &String, declared: &String) -> (r: bool)
    ensures
        r == (digest@ == declared@),
{
    *digest == *declared
}

/// Whether bytes read from disk hash to the declared digest.
pub fn content_matches(data: &Vec<u8>, declared: &String) -> (r: bool)
    ensures
        r == (md5_hex_of(data@) == declared@),
{
    let digest = md5_hex(data.as_slice());
    digest_matches(&digest, declared)
}

} // verus!
