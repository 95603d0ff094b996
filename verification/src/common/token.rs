//! The token that opens a relay: its digest, and how digests are
//! compared.

use vstd::prelude::*;
use vstd::string::StringSliceAdditionalSpecFns;
use vstd::utf8::encode_utf8;

verus! {

/// The BLAKE3 digest of a run of bytes: 32 bytes.
pub uninterp spec fn blake3(input: Seq<u8>) -> Seq<u8>;

/// `blake3::hash`: the BLAKE3 digest of `input`.
#[verifier::external_body]
fn blake3_hash(input: &[u8]) -> (digest: [u8; 32])
    ensures
        digest@ == blake3(input@),
{
    *blake3::hash(input).as_bytes()
}

/// The digest that authenticates the holder of `token`: the BLAKE3 digest
/// of the token's UTF-8 bytes.
pub fn token_digest(token: &str) -> (digest: [u8; 32])
    ensures
        digest@ == blake3(encode_utf8(token@)),
{
    blake3_hash(token.as_bytes())
}

/// Whether two tokens are the same. Every byte is looked at, whatever the
/// earlier ones were.
pub fn tokens_match(a: &[u8; 32], b: &[u8; 32]) -> (same: bool)
    ensures
        same == (a@ == b@),
{
    let mut diff: u8 = 0;
    let mut i: usize = 0;
    while i < 32
        invariant
            i <= 32,
            diff == 0 <==> forall|j: int| 0 <= j < i ==> a@[j] == b@[j],
        decreases 32 - i,
    {
        let x = a[i];
        let y = b[i];
        let before = diff;
        diff = diff | (x ^ y);
        assert(diff == 0 <==> (before == 0 && x == y)) by (bit_vector)
            requires
                diff == before | (x ^ y),
        ;
        i += 1;
    }
    proof {
        if diff == 0 {
            assert(a@ =~= b@);
        }
    }
    diff == 0
}

} // verus!
