//! Operation identifiers: every remote operation is routed by the first
//! 8 bytes of the SHA-256 digest of `"global:" + name`.

use sha2::Digest;
use vstd::prelude::*;
use vstd::string::*;

verus! {

/// The SHA-256 digest of a string's UTF-8 bytes. Uninterpreted: the digest
/// is a function of the characters alone, pinned only by the trusted
/// wrapper below.
pub uninterp spec fn sha256_str_of(s: Seq<char>) -> Seq<u8>;

/// Relies on sha2::Sha256: the digest of a string's UTF-8 bytes is 32 bytes
/// long and depends on the string's characters alone.
#[verifier::external_body]
fn sha256_str(s: &str) -> (r: Vec<u8>)
    ensures
        r@ == sha256_str_of(s@),
        r@.len() == 32,
{
    let mut hasher = sha2::Sha256::new();
    hasher.update(s.as_bytes());
    hasher.finalize().to_vec()
}

/// The 8-byte identifier of a named operation.
pub open spec fn spec_op_id(name: Seq<char>) -> Seq<u8> {
    sha256_str_of("global:"@ + name).take(8)
}

/// Computes the 8-byte identifier routing a remote operation: the first
/// 8 bytes of SHA-256 of `"global:" + name`. Deterministic: the result is a
/// function of the name alone.
pub fn sighash_global(name: &str) -> (r: Vec<u8>)
    ensures
        r@ == spec_op_id(name@),
        r@.len() == 8,
{
    let mut tagged = String::from_str("global:");
    tagged.append(name);
    let mut digest = sha256_str(tagged.as_str());
    digest.truncate(8);
    proof {
        assert(digest@ =~= spec_op_id(name@));
    }
    digest
}

} // verus!
