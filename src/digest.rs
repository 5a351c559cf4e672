//! The outside computations that requests are signed and stamped with: digests, hex, random
//! numbers and time-based identifiers.
use vstd::prelude::*;

use sha2::Digest;

verus! {

/// The MD5 digest of the UTF-8 bytes of a text.
pub uninterp spec fn md5_of(s: Seq<char>) -> Seq<u8>;

/// The SHA-256 digest of the UTF-8 bytes of a text.
pub uninterp spec fn sha256_of(s: Seq<char>) -> Seq<u8>;

/// Relies on md5::compute: the 16-byte digest of the text's bytes.
#[verifier::external_body]
pub(crate) fn md5_digest(s: &str) -> (r: [u8; 16])
    ensures
        r@ == md5_of(s@),
{
    md5::compute(s.as_bytes()).0
}

/// Relies on sha2's `Sha256::digest`: the 32-byte digest of the text's bytes.
#[verifier::external_body]
pub(crate) fn sha256_digest(s: &str) -> (r: Vec<u8>)
    ensures
        r@ == sha256_of(s@),
        r@.len() == 32,
{
    sha2::Sha256::digest(s.as_bytes()).to_vec()
}

/// A lower-case hexadecimal digit.
pub open spec fn hex_digit(n: int) -> char {
    seq!['0', '1', '2', '3', '4', '5', '6', '7', '8', '9', 'a', 'b', 'c', 'd', 'e', 'f'][n]
}

/// Two lower-case hexadecimal digits for each byte, high nibble first.
pub open spec fn hex_of(b: Seq<u8>) -> Seq<char>
    decreases b.len(),
{
    if b.len() == 0 {
        Seq::empty()
    } else {
        hex_of(b.drop_last()) + seq![hex_digit(b.last() as int / 16), hex_digit(b.last() as int % 16)]
    }
}

/// A lower-case hexadecimal digit: `0`-`9` or `a`-`f`.
pub open spec fn is_lower_hex_digit(c: char) -> bool {
    (48 <= c as u32 && c as u32 <= 57) || (97 <= c as u32 && c as u32 <= 102)
}

proof fn lemma_hex_digit(n: int)
    requires
        0 <= n < 16,
    ensures
        is_lower_hex_digit(hex_digit(n)),
{
    let t = seq!['0', '1', '2', '3', '4', '5', '6', '7', '8', '9', 'a', 'b', 'c', 'd', 'e', 'f'];
    assert(forall|k: int| 0 <= k < 16 ==> is_lower_hex_digit(#[trigger] t[k]));
}

/// The hex form of `b` has two digits per byte, each a lower-case hexadecimal digit.
pub proof fn lemma_hex_of(b: Seq<u8>)
    ensures
        hex_of(b).len() == 2 * b.len(),
        forall|i: int| 0 <= i < hex_of(b).len() ==> is_lower_hex_digit(#[trigger] hex_of(b)[i]),
    decreases b.len(),
{
    if b.len() > 0 {
        lemma_hex_of(b.drop_last());
        lemma_hex_digit(b.last() as int / 16);
        lemma_hex_digit(b.last() as int % 16);
        let h = hex_of(b.drop_last());
        let t = seq![hex_digit(b.last() as int / 16), hex_digit(b.last() as int % 16)];
        assert forall|i: int| 0 <= i < hex_of(b).len() implies is_lower_hex_digit(
            #[trigger] hex_of(b)[i],
        ) by {
            if i < h.len() {
                assert(hex_of(b)[i] == h[i]);
            } else {
                assert(hex_of(b)[i] == t[i - h.len()]);
            }
        }
    }
}

/// Relies on hex::encode: two lower-case digits for each byte, in order.
#[verifier::external_body]
pub(crate) fn hex_encode(b: &[u8]) -> (r: String)
    ensures
        r@ == hex_of(b@),
{
    hex::encode(b)
}

/// Relies on rand's thread-local generator for a random `u16`.
#[verifier::external_body]
pub(crate) fn random_u16() -> u16 {
    rand::random::<u16>()
}

/// Relies on rand's thread-local generator to fill six random bytes.
#[verifier::external_body]
pub(crate) fn random_six_bytes() -> [u8; 6] {
    rand::random::<[u8; 6]>()
}

#[verifier::external_type_specification]
#[verifier::external_body]
pub struct ExClockContext(uuid::ContextV1);

#[verifier::external_type_specification]
#[verifier::external_body]
pub struct ExTimestamp(uuid::Timestamp);

/// Relies on uuid's `ContextV1::new`: a clock sequence that starts from `seed`.
#[verifier::external_body]
pub(crate) fn clock_context(seed: u16) -> uuid::ContextV1 {
    uuid::ContextV1::new(seed)
}

/// Relies on uuid's `Timestamp::from_unix`, which also advances the context's counter.
#[verifier::external_body]
pub(crate) fn unix_timestamp(context: &uuid::ContextV1, secs: u64, nanos: u32) -> uuid::Timestamp {
    uuid::Timestamp::from_unix(context, secs, nanos)
}

/// Relies on uuid's `Uuid::new_v1` and its `Display`: the hyphenated form of a version 1
/// identifier, whose version digit is `1` and which ends in the node id in hex.
#[verifier::external_body]
pub(crate) fn uuid_v1_text(ts: uuid::Timestamp, node: &[u8; 6]) -> (r: String)
    ensures
        r@.len() == 36,
        r@[8] == '-' && r@[13] == '-' && r@[18] == '-' && r@[23] == '-',
        r@[14] == '1',
        r@.subrange(24, 36) == hex_of(node@),
{
    uuid::Uuid::new_v1(ts, node).to_string()
}

} // verus!
