use vstd::prelude::*;
use vstd::string::StringSliceAdditionalSpecFns;
use vstd::utf8::{encode_utf8, is_ascii_chars, is_ascii_chars_encode_utf8};

verus! {

/// Number of bytes in a digest.
pub const HASH_SIZE: usize = 32;

/// The ASCII code of the lowercase hexadecimal digit for `n` (`n < 16`).
pub open spec fn hex_code(n: u8) -> u8 {
    if n < 10 { (48 + n) as u8 } else { (87 + n) as u8 }
}

/// Whether the byte `c` is a hexadecimal digit, in either case.
pub open spec fn is_hex_byte(c: u8) -> bool {
    (48 <= c <= 57) || (65 <= c <= 70) || (97 <= c <= 102)
}

/// The value of the hexadecimal digit `c`.
pub open spec fn hex_value(c: u8) -> u8 {
    if 48 <= c <= 57 {
        (c - 48) as u8
    } else if 65 <= c <= 70 {
        (c - 55) as u8
    } else {
        (c - 87) as u8
    }
}

/// Lowercase hexadecimal text of `d`: two digits per byte, high nibble first.
pub open spec fn hex_text(d: Seq<u8>) -> Seq<char> {
    Seq::new(
        2 * d.len(),
        |i: int|
            if i % 2 == 0 {
                hex_code(d[i / 2] / 16) as char
            } else {
                hex_code(d[i / 2] % 16) as char
            },
    )
}

/// Whether every byte of `b` is a hexadecimal digit and there is an even number of them.
pub open spec fn hex_valid(b: Seq<u8>) -> bool {
    b.len() % 2 == 0 && forall|i: int| 0 <= i < b.len() ==> is_hex_byte(#[trigger] b[i])
}

/// The bytes that the hexadecimal text `b` stands for, two digits per byte.
pub open spec fn hex_decode(b: Seq<u8>) -> Seq<u8> {
    Seq::new(
        b.len() / 2,
        |i: int| (hex_value(b[2 * i]) * 16 + hex_value(b[2 * i + 1])) as u8,
    )
}

/// `index` is the first position of `b` that holds no hexadecimal digit.
pub open spec fn first_bad_digit(b: Seq<u8>, index: int) -> bool {
    &&& 0 <= index < b.len()
    &&& !is_hex_byte(b[index])
    &&& forall|j: int| 0 <= j < index ==> is_hex_byte(#[trigger] b[j])
}

/// Why a hexadecimal text could not be decoded.
#[derive(Debug, Clone, Copy, PartialEq, Eq)]
pub enum DecodeError {
    /// The text holds an odd number of bytes.
    OddLength,
    /// The byte at `index` is no hexadecimal digit.
    InvalidCharacter { c: char, index: usize },
    /// The text does not fit a container of fixed size.
    InvalidStringLength,
}

/// Which operand of a comparison of two hexadecimal digests was malformed.
#[derive(Debug, Clone, Copy, PartialEq, Eq)]
pub enum VerifyError {
    First(DecodeError),
    Second(DecodeError),
}

/// What decoding the hexadecimal text `b` yields: its bytes when `b` is
/// well formed, else the error for the odd length or the first bad digit.
pub open spec fn decode_outcome(b: Seq<u8>, r: Result<Vec<u8>, DecodeError>) -> bool {
    match r {
        Ok(v) => hex_valid(b) && v@ == hex_decode(b),
        Err(DecodeError::OddLength) => b.len() % 2 == 1,
        Err(DecodeError::InvalidCharacter { c, index }) => {
            &&& b.len() % 2 == 0
            &&& first_bad_digit(b, index as int)
            &&& c == b[index as int] as char
        },
        Err(DecodeError::InvalidStringLength) => false,
    }
}

/// Relies on hex::encode: two lowercase digits for each byte, high nibble first.
#[verifier::external_body]
fn encode_hex(data: &[u8]) -> (r: String)
    ensures
        r@ == hex_text(data@),
{
    hex::encode(data)
}

/// Relies on hex::decode: an odd length is refused first; otherwise the digits
/// are read pair by pair from the left, failing at the first that is no
/// hexadecimal digit.
#[verifier::external_body]
fn decode_hex(text: &[u8]) -> (r: Result<Vec<u8>, DecodeError>)
    ensures
        decode_outcome(text@, r),
{
    match hex::decode(text) {
        Ok(v) => Ok(v),
        Err(hex::FromHexError::OddLength) => Err(DecodeError::OddLength),
        Err(hex::FromHexError::InvalidHexCharacter { c, index }) => Err(
            DecodeError::InvalidCharacter { c, index },
        ),
        Err(hex::FromHexError::InvalidStringLength) => Err(DecodeError::InvalidStringLength),
    }
}

/// Lowercase hexadecimal text of `data`.
pub fn bytes_to_hex(data: &[u8]) -> (r: String)
    ensures
        r@ == hex_text(data@),
        r@.len() == 2 * data@.len(),
{
    encode_hex(data)
}

/// The bytes that the hexadecimal text `hex_string` stands for; either case
/// of digit is read.
pub fn hex_to_bytes(hex_string: &str) -> (r: Result<Vec<u8>, DecodeError>)
    ensures
        r is Ok <==> hex_valid(hex_string.spec_bytes()),
        decode_outcome(hex_string.spec_bytes(), r),
{
    decode_hex(hex_string.as_bytes())
}

/// Whether `a` and `b` hold the same bytes.
fn same_bytes(a: &Vec<u8>, b: &Vec<u8>) -> (r: bool)
    ensures
        r == (a@ == b@),
{
    if a.len() != b.len() {
        return false;
    }
    let mut i: usize = 0;
    while i < a.len()
        invariant
            a@.len() == b@.len(),
            0 <= i <= a@.len(),
            forall|j: int| 0 <= j < i ==> a@[j] == b@[j],
        decreases a@.len() - i,
    {
        if a[i] != b[i] {
            return false;
        }
        i = i + 1;
    }
    assert(a@ =~= b@);
    true
}

/// Whether two hexadecimal digests stand for the same bytes.
pub open spec fn same_digest(a: Seq<u8>, b: Seq<u8>) -> bool {
    hex_decode(a) == hex_decode(b)
}

/// Decodes both hexadecimal texts and tells whether they stand for the same
/// bytes (not whether the texts are equal: case of digits does not matter).
pub fn verify_hash(hex_hash1: &str, hex_hash2: &str) -> (r: Result<bool, VerifyError>)
    ensures
        r is Ok <==> hex_valid(hex_hash1.spec_bytes()) && hex_valid(hex_hash2.spec_bytes()),
        r is Ok ==> r->Ok_0 == same_digest(hex_hash1.spec_bytes(), hex_hash2.spec_bytes()),
        !hex_valid(hex_hash1.spec_bytes()) ==> (r matches Err(VerifyError::First(e))
            && decode_outcome(hex_hash1.spec_bytes(), Err(e))),
        hex_valid(hex_hash1.spec_bytes()) && !hex_valid(hex_hash2.spec_bytes()) ==> (r matches Err(
            VerifyError::Second(e),
        ) && decode_outcome(hex_hash2.spec_bytes(), Err(e))),
{
    let bytes1 = match hex_to_bytes(hex_hash1) {
        Ok(v) => v,
        Err(e) => {
            return Err(VerifyError::First(e));
        },
    };
    let bytes2 = match hex_to_bytes(hex_hash2) {
        Ok(v) => v,
        Err(e) => {
            return Err(VerifyError::Second(e));
        },
    };
    Ok(same_bytes(&bytes1, &bytes2))
}

/// The hexadecimal text of a digest consists of ASCII characters, so its
/// bytes are its characters.
proof fn lemma_hex_text_bytes(d: Seq<u8>)
    ensures
        encode_utf8(hex_text(d)).len() == 2 * d.len(),
        forall|i: int|
            0 <= i < 2 * d.len() ==> #[trigger] encode_utf8(hex_text(d))[i] == if i % 2 == 0 {
                hex_code(d[i / 2] / 16)
            } else {
                hex_code(d[i / 2] % 16)
            },
{
    let t = hex_text(d);
    assert forall|i: int| 0 <= i < t.len() implies '\0' <= #[trigger] t[i] <= '\u{7f}' by {
        assert(hex_code(d[i / 2] / 16) < 128);
        assert(hex_code(d[i / 2] % 16) < 128);
    }
    assert(is_ascii_chars(t));
    is_ascii_chars_encode_utf8(t);
}

/// Decoding the hexadecimal text of any bytes gives those bytes back.
pub proof fn lemma_hex_round_trip(d: Seq<u8>)
    ensures
        hex_valid(encode_utf8(hex_text(d))),
        hex_decode(encode_utf8(hex_text(d))) == d,
{
    lemma_hex_text_bytes(d);
    let b = encode_utf8(hex_text(d));
    assert forall|i: int| 0 <= i < b.len() implies is_hex_byte(#[trigger] b[i]) by {
        if i % 2 == 0 {
            assert(d[i / 2] / 16 < 16);
        }
    }
    assert forall|i: int| 0 <= i < d.len() implies #[trigger] hex_decode(b)[i] == d[i] by {
        let x = d[i];
        assert(b[2 * i] == hex_code(x / 16));
        assert(b[2 * i + 1] == hex_code(x % 16));
        assert(hex_value(hex_code(x / 16)) == x / 16);
        assert(hex_value(hex_code(x % 16)) == x % 16);
        assert((x / 16) * 16 + x % 16 == x);
    }
    assert(hex_decode(b) =~= d);
}

/// Two well-formed hexadecimal digests compare equal to themselves, and
/// unequal when they stand for different bytes.
pub proof fn lemma_verify_reflexive(a: Seq<u8>, b: Seq<u8>)
    requires
        hex_valid(a),
        hex_valid(b),
    ensures
        same_digest(a, a),
        hex_decode(a) != hex_decode(b) ==> !same_digest(a, b),
{
}

pub fn get_hash_size() -> (r: usize)
    ensures
        r == 32,
{
    HASH_SIZE
}

} // verus!
