//! The cache key of an image.

use crate::text;
use sha2::{Digest, Sha256};
use vstd::prelude::*;

verus! {

/// The SHA-256 digest of some bytes.
pub uninterp spec fn sha256(data: Seq<u8>) -> Seq<u8>;

/// The number of digest bytes that a cache key shows.
pub const KEY_BYTES: usize = 16;

/// The cache key that a digest gives: its first bytes, in hexadecimal.
pub open spec fn key_of_digest(digest: Seq<u8>) -> Seq<char> {
    text::hex(digest.take(KEY_BYTES as int))
}

/// The cache key of a base64 payload.
pub open spec fn image_key(base64: Seq<char>) -> Seq<char> {
    key_of_digest(sha256(vstd::utf8::encode_utf8(base64)))
}

/// Two digests give one cache key exactly where their first sixteen bytes agree.
pub proof fn law_keys_agree_iff_digest_prefixes_agree(a: Seq<u8>, b: Seq<u8>)
    requires
        a.len() == 32,
        b.len() == 32,
    ensures
        key_of_digest(a) == key_of_digest(b) <==> a.take(16) == b.take(16),
{
    text::law_hex_is_injective(a.take(16), b.take(16));
}

/// The cache key of a payload shows the first sixteen bytes of the SHA-256 of the whole payload, in
/// UTF-8: two lower-case hexadecimal digits for each byte, its upper half first.
pub proof fn law_key_shows_the_digest_of_the_whole_payload(base64: Seq<char>)
    requires
        sha256(vstd::utf8::encode_utf8(base64)).len() == 32,
    ensures
        image_key(base64).len() == 32,
        forall|i: int|
            0 <= i < 16 ==> image_key(base64)[2 * i] == "0123456789abcdef"@[#[trigger] sha256(
                vstd::utf8::encode_utf8(base64),
            )[i] as int / 16] && image_key(base64)[2 * i + 1] == "0123456789abcdef"@[sha256(
                vstd::utf8::encode_utf8(base64),
            )[i] as int % 16],
{
    let digest = sha256(vstd::utf8::encode_utf8(base64));
    text::law_hex_shows_every_byte(digest.take(16));
    assert forall|i: int| 0 <= i < 16 implies image_key(base64)[2 * i]
        == "0123456789abcdef"@[#[trigger] digest[i] as int / 16] && image_key(base64)[2 * i + 1]
        == "0123456789abcdef"@[digest[i] as int % 16] by {
        assert(digest.take(16)[i] == digest[i]);
    }
}

/// Two payloads have one cache key exactly where the digests of the whole payloads agree in their
/// first sixteen bytes.
pub proof fn law_payloads_share_a_key_iff_their_digests_agree(a: Seq<char>, b: Seq<char>)
    requires
        sha256(vstd::utf8::encode_utf8(a)).len() == 32,
        sha256(vstd::utf8::encode_utf8(b)).len() == 32,
    ensures
        image_key(a) == image_key(b) <==> sha256(vstd::utf8::encode_utf8(a)).take(16) == sha256(
            vstd::utf8::encode_utf8(b),
        ).take(16),
{
    law_keys_agree_iff_digest_prefixes_agree(
        sha256(vstd::utf8::encode_utf8(a)),
        sha256(vstd::utf8::encode_utf8(b)),
    );
}

/// Calls `sha2`'s `Sha256::digest`. The digest has 32 bytes and depends on the data alone; the
/// algorithm itself is left to that function.
#[verifier::external_body]
fn sha256_digest(data: &[u8]) -> (r: [u8; 32])
    ensures
        r@ == sha256(data@),
{
    Sha256::digest(data).into()
}

/// The cache key that a digest gives.
pub fn digest_key(digest: &[u8; 32]) -> (r: String)
    ensures
        r@ == key_of_digest(digest@),
        r@.len() == 32,
        forall|i: int|
            0 <= i < 16 ==> r@[2 * i] == "0123456789abcdef"@[#[trigger] digest@[i] as int / 16] && r@[2
                * i + 1] == "0123456789abcdef"@[digest@[i] as int % 16],
        forall|i: int|
            0 <= i < r@.len() ==> '0' <= #[trigger] r@[i] <= '9' || 'a' <= r@[i] <= 'f',
{
    let first = vstd::slice::slice_subrange(digest.as_slice(), 0, KEY_BYTES);
    assert(first@ =~= digest@.take(KEY_BYTES as int));
    proof {
        text::law_hex_shows_every_byte(first@);
        assert forall|i: int| 0 <= i < 16 implies #[trigger] digest@[i] == first@[i] by {}
    }
    text::hex_text(first)
}

/// Stable per-image cache key: the SHA-256 of the base64 payload, first 16 bytes, in hexadecimal.
pub fn image_hash(base64: &str) -> (r: String)
    ensures
        r@ == image_key(base64@),
        r@ == text::hex(sha256(vstd::utf8::encode_utf8(base64@)).take(16)),
        r@.len() == 32,
        forall|i: int|
            0 <= i < 16 ==> r@[2 * i] == "0123456789abcdef"@[#[trigger] sha256(
                vstd::utf8::encode_utf8(base64@),
            )[i] as int / 16] && r@[2 * i + 1] == "0123456789abcdef"@[sha256(
                vstd::utf8::encode_utf8(base64@),
            )[i] as int % 16],
        forall|i: int|
            0 <= i < r@.len() ==> '0' <= #[trigger] r@[i] <= '9' || 'a' <= r@[i] <= 'f',
{
    let digest = sha256_digest(base64.as_bytes());
    digest_key(&digest)
}

} // verus!
