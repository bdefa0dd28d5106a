use vstd::prelude::*;
use sha1::Digest;

verus! {

/// The SHA-1 digest of a byte sequence.
pub uninterp spec fn sha1_of(data: Seq<u8>) -> Seq<u8>;

/// Relies on `sha1::Sha1::digest` (through `digest::Digest`): it returns the
/// SHA-1 digest of the bytes, a function of the bytes alone.
#[verifier::external_body]
fn sha1_digest(data: &[u8]) -> (r: Vec<u8>)
    ensures
        r@ == sha1_of(data@),
{
    sha1::Sha1::digest(data).to_vec()
}

/// `hex::FromHexError`, the error of `hex::decode`; only carried, never read.
#[verifier::external_type_specification]
#[verifier::external_body]
pub struct ExFromHexError(hex::FromHexError);

pub open spec fn is_hex_digit(c: char) -> bool {
    ('0' <= c && c <= '9') || ('a' <= c && c <= 'f') || ('A' <= c && c <= 'F')
}

pub open spec fn hex_digit_value(c: char) -> int {
    if '0' <= c && c <= '9' {
        c as int - '0' as int
    } else if 'a' <= c && c <= 'f' {
        c as int - 'a' as int + 10
    } else {
        c as int - 'A' as int + 10
    }
}

/// Text that decodes as hexadecimal: an even number of hex digits.
pub open spec fn valid_hex(s: Seq<char>) -> bool {
    s.len() % 2 == 0 && forall|i: int| 0 <= i < s.len() ==> #[trigger] is_hex_digit(s[i])
}

/// The bytes that hexadecimal text stands for, two digits per byte, high first.
pub open spec fn hex_bytes(s: Seq<char>) -> Seq<u8> {
    Seq::new(
        s.len() / 2,
        |i: int| (hex_digit_value(s[2 * i]) * 16 + hex_digit_value(s[2 * i + 1])) as u8,
    )
}

/// Relies on `hex::decode`: it accepts exactly an even number of digits
/// `0-9a-fA-F` and gives one byte for each pair, the first digit high.
#[verifier::external_body]
fn decode_hex(s: &str) -> (r: Result<Vec<u8>, hex::FromHexError>)
    ensures
        r is Ok <==> valid_hex(s@),
        r matches Ok(v) ==> v@ == hex_bytes(s@),
{
    hex::decode(s)
}

/// The digest that hexadecimal text announces, if it is valid hexadecimal.
pub open spec fn declared_digest(expected: Seq<char>) -> Option<Seq<u8>> {
    if valid_hex(expected) {
        Some(hex_bytes(expected))
    } else {
        None
    }
}

/// A digest matches the text that declares it.
pub open spec fn digest_matches_spec(digest: Seq<u8>, expected: Seq<char>) -> bool {
    declared_digest(expected) == Some(digest)
}

/// A well-formed SHA-1 text: forty hexadecimal digits.
pub open spec fn valid_sha1_text(s: Seq<char>) -> bool {
    valid_hex(s) && s.len() == 40
}

/// The bytes declared by hexadecimal text, or `None` where it is not valid.
pub fn decode_digest(expected: &str) -> (r: Option<Vec<u8>>)
    ensures
        r matches Some(v) ==> declared_digest(expected@) == Some(v@),
        r is None ==> declared_digest(expected@) is None,
{
    match decode_hex(expected) {
        Ok(v) => Some(v),
        Err(_) => None,
    }
}

/// Whether `expected` is forty hexadecimal digits.
pub fn is_valid_sha1_text(expected: &str) -> (r: bool)
    ensures
        r == valid_sha1_text(expected@),
{
    match decode_hex(expected) {
        Ok(v) => v.len() == 20,
        Err(_) => false,
    }
}

/// Whether two byte slices hold the same bytes.
pub fn same_bytes(a: &[u8], b: &[u8]) -> (r: bool)
    ensures
        r == (a@ == b@),
{
    if a.len() != b.len() {
        return false;
    }
    let mut i: usize = 0;
    while i < a.len()
        invariant
            a@.len() == b@.len(),
            i <= a@.len(),
            forall|k: int| 0 <= k < i ==> a@[k] == b@[k],
        decreases a@.len() - i,
    {
        if a[i] != b[i] {
            return false;
        }
        i = i + 1;
    }
    assert(a@ =~= b@);
    true
}

/// Whether a computed digest equals the one that `expected` declares in
/// hexadecimal. Text that is not valid hexadecimal matches nothing.
pub fn digest_matches(digest: &[u8], expected: &str) -> (r: bool)
    ensures
        r == digest_matches_spec(digest@, expected@),
{
    match decode_hex(expected) {
        Ok(v) => same_bytes(v.as_slice(), digest),
        Err(_) => false,
    }
}

/// The SHA-1 digest of `contents`.
pub fn file_sha1(contents: &[u8]) -> (r: Vec<u8>)
    ensures
        r@ == sha1_of(contents@),
{
    sha1_digest(contents)
}

/// Whether `contents` has the SHA-1 digest that `expected` declares.
pub fn check_file_hash(contents: &[u8], expected: &str) -> (r: bool)
    ensures
        r == digest_matches_spec(sha1_of(contents@), expected@),
{
    let d = sha1_digest(contents);
    digest_matches(d.as_slice(), expected)
}

} // verus!
