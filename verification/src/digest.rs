//! Content identities: `sha256:`-prefixed digests.

use vstd::prelude::*;
use vstd::utf8::encode_utf8;

verus! {

broadcast use vstd::string::group_string_axioms;

/// The SHA-256 digest of a byte string.
pub uninterp spec fn sha256(content: Seq<u8>) -> Seq<u8>;

/// `sha2::Sha256::digest` hashes a byte string into the thirty-two bytes of its SHA-256 digest.
#[verifier::external_body]
fn sha256_bytes(content: &[u8]) -> (hash: Vec<u8>)
    ensures
        hash@ == sha256(content@),
        hash@.len() == 32,
{
    <sha2::Sha256 as sha2::Digest>::digest(content).to_vec()
}

/// The lowercase hexadecimal digit of a value below sixteen.
pub open spec fn hex_digit(value: int) -> char {
    if value < 10 {
        (48 + value) as char
    } else {
        (87 + value) as char
    }
}

/// The two lowercase hexadecimal digits of every byte, in order.
pub open spec fn hex(bytes: Seq<u8>) -> Seq<char> {
    Seq::new(
        2 * bytes.len(),
        |i: int| if i % 2 == 0 {
            hex_digit(bytes[i / 2] as int / 16)
        } else {
            hex_digit(bytes[i / 2] as int % 16)
        },
    )
}

/// The identity of a byte string: its SHA-256 digest in hexadecimal behind the prefix `sha256:`.
pub open spec fn bytes_identity(content: Seq<u8>) -> Seq<char> {
    "sha256:"@ + hex(sha256(content))
}

/// The identity of a text: that of its UTF-8 bytes.
pub open spec fn text_identity(content: Seq<char>) -> Seq<char> {
    bytes_identity(encode_utf8(content))
}

/// One lowercase hexadecimal digit.
fn hex_char(value: u8) -> (c: char)
    requires
        value < 16,
    ensures
        c == hex_digit(value as int),
{
    if value < 10 {
        (48u8 + value) as char
    } else {
        (87u8 + value) as char
    }
}

/// Renders bytes in lowercase hexadecimal.
pub fn hex_text(bytes: &Vec<u8>) -> (text: String)
    ensures
        text@ == hex(bytes@),
{
    let mut text: String = String::new();
    let mut i: usize = 0;
    while i < bytes.len()
        invariant
            i <= bytes@.len(),
            text@ == hex(bytes@.take(i as int)),
        decreases bytes@.len() - i,
    {
        let b: u8 = bytes[i];
        text.push(hex_char(b / 16));
        text.push(hex_char(b % 16));
        i += 1;
        proof {
            assert(hex(bytes@.take(i as int)) =~= hex(bytes@.take(i - 1)).push(hex_digit(b as int / 16)).push(
                hex_digit(b as int % 16),
            ));
        }
    }
    proof {
        assert(bytes@.take(i as int) =~= bytes@);
    }
    text
}

/// Digests a byte string into its identity.
pub fn digest_bytes(content: &[u8]) -> (identity: String)
    ensures
        identity@ == bytes_identity(content@),
{
    let hash: Vec<u8> = sha256_bytes(content);
    let digits: String = hex_text(&hash);
    "sha256:".to_owned().concat(digits.as_str())
}

/// Digests a text into its identity.
pub fn digest_content(content: &str) -> (identity: String)
    ensures
        identity@ == text_identity(content@),
{
    digest_bytes(content.as_bytes())
}

/// The hexadecimal text of bytes has two lowercase digits per byte.
pub proof fn law_hex_is_two_digits_per_byte(bytes: Seq<u8>)
    ensures
        hex(bytes).len() == 2 * bytes.len(),
        forall|i: int| 0 <= i < hex(bytes).len() ==> {
            let c = #[trigger] hex(bytes)[i];
            ('0' <= c && c <= '9') || ('a' <= c && c <= 'f')
        },
{
    assert forall|i: int| 0 <= i < hex(bytes).len() implies {
        let c = #[trigger] hex(bytes)[i];
        ('0' <= c && c <= '9') || ('a' <= c && c <= 'f')
    } by {
        let b = bytes[i / 2];
        assert(0 <= b / 16 < 16);
        assert(0 <= b % 16 < 16);
    }
}

/// The value of a lowercase hexadecimal digit.
pub open spec fn hex_value(c: char) -> int {
    if '0' <= c <= '9' {
        c as int - '0' as int
    } else {
        c as int - 'a' as int + 10
    }
}

/// The hexadecimal text of bytes reads as the bytes again: two digits, the high one first, are one byte. Identities tell
/// apart what their digests tell apart.
pub proof fn law_hex_reads_as_its_bytes(bytes: Seq<u8>, at: int)
    requires
        0 <= at < bytes.len(),
    ensures
        16 * hex_value(hex(bytes)[2 * at]) + hex_value(hex(bytes)[2 * at + 1]) == bytes[at],
{
    let b = bytes[at];
    assert((2 * at) % 2 == 0 && (2 * at) / 2 == at && (2 * at + 1) % 2 == 1 && (2 * at + 1) / 2 == at);
    assert(0 <= b / 16 < 16 && 0 <= b % 16 < 16);
}

} // verus!
