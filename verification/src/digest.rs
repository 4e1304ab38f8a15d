//! Content digests: the SHA-256 of a file's raw bytes, written in lowercase
//! hexadecimal.

use vstd::prelude::*;
use sha2::Digest;

verus! {

/// The SHA-256 digest of a byte sequence, as `sha2` computes it.
pub uninterp spec fn sha256(data: Seq<u8>) -> Seq<u8>;

/// The sixteen lowercase hexadecimal digits, in order of value.
pub open spec fn hex_digits() -> Seq<char> {
    "0123456789abcdef"@
}

/// The text that writes each byte as two lowercase hexadecimal digits, the
/// high half first.
pub open spec fn hex_text(data: Seq<u8>) -> Seq<char> {
    Seq::new(
        2 * data.len(),
        |i: int|
            if i % 2 == 0 {
                hex_digits()[data[i / 2] as int / 16]
            } else {
                hex_digits()[data[i / 2] as int % 16]
            },
    )
}

/// The fingerprint of a file's raw bytes.
pub open spec fn content_digest(data: Seq<u8>) -> Seq<char> {
    hex_text(sha256(data))
}

/// `sha2::Sha256::digest`: hashes `data` in one call. The digest is a function
/// of the bytes alone and is 32 bytes long.
#[verifier::external_body]
fn sha256_digest(data: &[u8]) -> (digest: Vec<u8>)
    ensures
        digest@ == sha256(data@),
        digest@.len() == 32,
{
    sha2::Sha256::digest(data).to_vec()
}

/// `hex::encode`: two lowercase hexadecimal digits for each byte, in order.
#[verifier::external_body]
fn hex_encode(data: &Vec<u8>) -> (text: String)
    ensures
        text@ == hex_text(data@),
{
    hex::encode(data)
}

/// Computes the fingerprint of `data`: 64 hexadecimal digits.
pub fn hash_bytes(data: &[u8]) -> (hash: String)
    ensures
        hash@ == content_digest(data@),
        hash@.len() == 64,
{
    let digest = sha256_digest(data);
    hex_encode(&digest)
}

/// Computes the fingerprint of a text: that of its UTF-8 bytes.
pub fn hash_text(content: &str) -> (hash: String)
    ensures
        hash@ == content_digest(vstd::utf8::encode_utf8(content@)),
        hash@.len() == 64,
{
    hash_bytes(content.as_bytes())
}

/// The fingerprint is a function of the bytes alone: identical bytes have
/// identical fingerprints.
pub proof fn lemma_digest_deterministic(a: Seq<u8>, b: Seq<u8>)
    requires
        a == b,
    ensures
        content_digest(a) == content_digest(b),
{
}

/// Two texts of hexadecimal digits are equal only if they write the same bytes:
/// distinct digests never share a fingerprint.
pub proof fn lemma_hex_text_injective(a: Seq<u8>, b: Seq<u8>)
    requires
        hex_text(a) == hex_text(b),
    ensures
        a == b,
{
    reveal_strlit("0123456789abcdef");
    assert(a.len() == b.len()) by {
        assert(hex_text(a).len() == 2 * a.len());
    }
    assert forall|i: int| 0 <= i < a.len() implies a[i] == b[i] by {
        let x = a[i] as int;
        assert(hex_text(a)[2 * i] == hex_digits()[x / 16]);
        assert(hex_text(a)[2 * i + 1] == hex_digits()[x % 16]);
    }
}

} // verus!
