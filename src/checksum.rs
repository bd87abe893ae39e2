use vstd::prelude::*;

use sha2::{Digest, Sha256};

verus! {

/// The SHA-256 digest of a byte sequence.
pub uninterp spec fn sha256_of(data: Seq<u8>) -> Seq<u8>;

/// Lower-case hexadecimal digit for a value below sixteen.
pub open spec fn hex_digit(n: u8) -> char {
    seq!['0', '1', '2', '3', '4', '5', '6', '7', '8', '9', 'a', 'b', 'c', 'd', 'e', 'f'][n as int]
}

/// Two lower-case hexadecimal digits per byte, high nibble first.
pub open spec fn hex_text(bytes: Seq<u8>) -> Seq<char>
    decreases bytes.len(),
{
    if bytes.len() == 0 {
        Seq::empty()
    } else {
        let b = bytes.last();
        hex_text(bytes.drop_last()) + seq![hex_digit(b / 16), hex_digit(b % 16)]
    }
}

/// Digits and lower-case letters `a` to `f`.
pub open spec fn is_lower_hex(c: char) -> bool {
    ('0' <= c && c <= '9') || ('a' <= c && c <= 'f')
}

/// Hex text has two digits per byte, each a digit or a letter `a` to `f`.
pub proof fn lemma_hex_text_shape(bytes: Seq<u8>)
    ensures
        hex_text(bytes).len() == 2 * bytes.len(),
        forall|i: int| 0 <= i < hex_text(bytes).len() ==> is_lower_hex(#[trigger] hex_text(bytes)[i]),
    decreases bytes.len(),
{
    if bytes.len() > 0 {
        lemma_hex_text_shape(bytes.drop_last());
        let b = bytes.last();
        lemma_hex_digit(b / 16);
        lemma_hex_digit(b % 16);
        let rest = hex_text(bytes.drop_last());
        let tail = seq![hex_digit(b / 16), hex_digit(b % 16)];
        assert forall|i: int| 0 <= i < hex_text(bytes).len() implies is_lower_hex(
            #[trigger] hex_text(bytes)[i],
        ) by {
            assert(hex_text(bytes) == rest + tail);
            if i < rest.len() {
                assert(hex_text(bytes)[i] == rest[i]);
            } else {
                assert(hex_text(bytes)[i] == tail[i - rest.len()]);
            }
        }
    }
}

/// Every value below sixteen has a hex digit.
pub proof fn lemma_hex_digit(n: u8)
    requires
        n < 16,
    ensures
        is_lower_hex(hex_digit(n)),
{
    let digits = seq!['0', '1', '2', '3', '4', '5', '6', '7', '8', '9', 'a', 'b', 'c', 'd', 'e', 'f'];
    assert(forall|k: int| 0 <= k < 16 ==> is_lower_hex(#[trigger] digits[k]));
}

/// The checksum of a canvas document: hex of the SHA-256 of its UTF-8 text.
pub open spec fn checksum_of(canvas: Seq<char>) -> Seq<char> {
    hex_text(sha256_of(vstd::utf8::encode_utf8(canvas)))
}

/// Relies on sha2's `Sha256::digest`: the 32-byte SHA-256 digest of the input.
#[verifier::external_body]
fn sha256(data: &[u8]) -> (r: Vec<u8>)
    ensures
        r@ == sha256_of(data@),
        r@.len() == 32,
{
    Sha256::digest(data).to_vec()
}

/// Relies on `hex::encode`: each byte becomes two lower-case hex digits,
/// high nibble first.
#[verifier::external_body]
fn hex_encode(bytes: &Vec<u8>) -> (r: String)
    ensures
        r@ == hex_text(bytes@),
{
    hex::encode(bytes)
}

/// Content checksum of a canvas document given as its canonical JSON text.
pub fn compute_checksum(canvas: &String) -> (r: String)
    ensures
        r@ == checksum_of(canvas@),
        r@.len() == 64,
        forall|i: int| 0 <= i < r@.len() ==> is_lower_hex(#[trigger] r@[i]),
{
    let digest = sha256(canvas.as_str().as_bytes());
    proof {
        lemma_hex_text_shape(digest@);
    }
    hex_encode(&digest)
}

} // verus!
