//! SHA-256 digests and their lower-case hexadecimal rendering.
use vstd::prelude::*;
use sha2::{Digest, Sha256};
use crate::text::push_char;

verus! {

/// The SHA-256 digest of `data`.
pub uninterp spec fn sha256_digest(data: Seq<u8>) -> Seq<u8>;

/// sha2: `Sha256::new`, `update`, `finalize`. Claimed: the 32-byte digest of the data.
#[verifier::external_body]
fn sha256(data: &[u8]) -> (r: Vec<u8>)
    ensures
        r@ == sha256_digest(data@),
        r@.len() == 32,
{
    let mut hasher = Sha256::new();
    hasher.update(data);
    hasher.finalize().to_vec()
}

/// The lower-case hexadecimal digit for a value below sixteen.
pub open spec fn hex_digit(d: int) -> char {
    if d < 10 { (('0' as int) + d) as char } else { (('a' as int) + d - 10) as char }
}

/// Two lower-case hexadecimal digits per byte, high nibble first.
pub open spec fn hex_lower(b: Seq<u8>) -> Seq<char>
    decreases b.len(),
{
    if b.len() == 0 {
        Seq::empty()
    } else {
        hex_lower(b.drop_last()) + seq![hex_digit(b.last() as int / 16), hex_digit(b.last() as int % 16)]
    }
}

/// An ASCII hexadecimal digit, either case.
pub open spec fn is_hex_char(c: char) -> bool {
    ('0' <= c && c <= '9') || ('a' <= c && c <= 'f') || ('A' <= c && c <= 'F')
}

pub proof fn lemma_hex_lower_shape(b: Seq<u8>)
    ensures
        hex_lower(b).len() == 2 * b.len(),
        forall|i: int| 0 <= i < hex_lower(b).len() ==> is_hex_char(#[trigger] hex_lower(b)[i]),
        forall|i: int| 0 <= i < hex_lower(b).len() ==> (#[trigger] hex_lower(b)[i] as u32) < 128,
    decreases b.len(),
{
    if b.len() > 0 {
        lemma_hex_lower_shape(b.drop_last());
        let h = hex_lower(b.drop_last());
        let hi = b.last() as int / 16;
        let lo = b.last() as int % 16;
        assert(0 <= hi < 16 && 0 <= lo < 16);
        assert forall|i: int| 0 <= i < hex_lower(b).len() implies is_hex_char(#[trigger] hex_lower(b)[i])
            && (hex_lower(b)[i] as u32) < 128 by {
            if i < h.len() {
                assert(hex_lower(b)[i] == h[i]);
            }
        }
    }
}

fn hex_char(d: u8) -> (c: char)
    requires
        d < 16,
    ensures
        c == hex_digit(d as int),
{
    if d < 10 {
        (d + 48) as char
    } else {
        (d + 87) as char
    }
}

/// Renders bytes as lower-case hexadecimal.
pub fn to_hex_lower(b: &[u8]) -> (r: String)
    ensures
        r@ == hex_lower(b@),
{
    let mut s = String::new();
    let mut i: usize = 0;
    while i < b.len()
        invariant
            i <= b@.len(),
            s@ == hex_lower(b@.subrange(0, i as int)),
        decreases b@.len() - i,
    {
        let byte = b[i];
        push_char(&mut s, hex_char(byte / 16));
        push_char(&mut s, hex_char(byte % 16));
        assert(b@.subrange(0, i as int + 1).drop_last() =~= b@.subrange(0, i as int));
        i = i + 1;
        assert(s@ =~= hex_lower(b@.subrange(0, i as int)));
    }
    assert(b@.subrange(0, i as int) =~= b@);
    s
}

/// The checksum of a text: the lower-case hexadecimal SHA-256 digest of its UTF-8 bytes.
pub open spec fn text_checksum(content: Seq<char>) -> Seq<char> {
    hex_lower(sha256_digest(vstd::utf8::encode_utf8(content)))
}

/// The checksum of bytes: the lower-case hexadecimal SHA-256 digest.
pub open spec fn bytes_checksum(data: Seq<u8>) -> Seq<char> {
    hex_lower(sha256_digest(data))
}

/// The checksum of a text: 64 lower-case hexadecimal digits.
pub fn calculate_text_checksum(content: &str) -> (r: String)
    ensures
        r@ == text_checksum(content@),
        r@.len() == 64,
        forall|i: int| 0 <= i < r@.len() ==> is_hex_char(#[trigger] r@[i]),
{
    let d = sha256(content.as_bytes());
    proof { lemma_hex_lower_shape(d@); }
    to_hex_lower(d.as_slice())
}

/// The checksum of bytes: 64 lower-case hexadecimal digits.
pub fn calculate_bytes_checksum(data: &[u8]) -> (r: String)
    ensures
        r@ == bytes_checksum(data@),
        r@.len() == 64,
        forall|i: int| 0 <= i < r@.len() ==> is_hex_char(#[trigger] r@[i]),
{
    let d = sha256(data);
    proof { lemma_hex_lower_shape(d@); }
    to_hex_lower(d.as_slice())
}

} // verus!
