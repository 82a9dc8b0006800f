//! Hexadecimal notation.

use hex::FromHexError;
use vstd::prelude::*;

verus! {

/// Why a text is not the hexadecimal notation of an array of bytes.
#[derive(Debug, Clone, Copy)]
pub enum HexError {
    /// The byte at `index`, read as the character `c`, is no hexadecimal digit.
    InvalidHexCharacter { c: char, index: usize },
    /// The number of digits is odd.
    OddLength,
    /// There are too many or too few digits for the array.
    InvalidStringLength,
}

/// The value of the hexadecimal digit `b`.
pub open spec fn hex_digit(b: u8) -> Option<u8> {
    if 0x30 <= b <= 0x39 {
        Some((b - 0x30) as u8)
    } else if 0x41 <= b <= 0x46 {
        Some((b - 0x41 + 10) as u8)
    } else if 0x61 <= b <= 0x66 {
        Some((b - 0x61 + 10) as u8)
    } else {
        None
    }
}

/// The index of the first byte of `text`, from `i` on, that is no hexadecimal digit,
/// or the length of `text` if there is none.
pub open spec fn first_non_digit(text: Seq<u8>, i: nat) -> nat
    decreases text.len() - i,
{
    if i >= text.len() || hex_digit(text[i as int]) is None {
        i
    } else {
        first_non_digit(text, i + 1)
    }
}

/// The array of `n` bytes that `text` writes with two digits each.
pub open spec fn hex_array(text: Seq<u8>, n: nat) -> Result<Seq<u8>, HexError> {
    let bad = first_non_digit(text, 0);
    if text.len() % 2 != 0 {
        Err(HexError::OddLength)
    } else if text.len() / 2 != n {
        Err(HexError::InvalidStringLength)
    } else if bad < text.len() {
        Err(HexError::InvalidHexCharacter { c: text[bad as int] as char, index: bad as usize })
    } else {
        Ok(
            Seq::new(
                n,
                |i: int|
                    (hex_digit(text[2 * i])->0 * 16 + hex_digit(text[2 * i + 1])->0) as u8,
            ),
        )
    }
}

/// How `e` reads.
pub uninterp spec fn hex_error_message(e: HexError) -> Seq<char>;

/// Decodes an array of 33 bytes with `hex::FromHex::from_hex`. It is believed that it
/// checks that the number of digits is even, then that it fits the array, then the
/// digits from the first to the last, of which upper and lower case are the same,
/// and that it reports the first of these checks that fails.
#[verifier::external_body]
pub(crate) fn decode_hex(text: &[u8]) -> (r: Result<[u8; 33], HexError>)
    ensures
        match r {
            Ok(bytes) => hex_array(text@, 33) == Ok::<Seq<u8>, HexError>(bytes@),
            Err(e) => hex_array(text@, 33) == Err::<Seq<u8>, HexError>(e),
        },
{
    match hex::FromHex::from_hex(text) {
        Ok(bytes) => Ok(bytes),
        Err(FromHexError::InvalidHexCharacter { c, index }) => Err(
            HexError::InvalidHexCharacter { c, index },
        ),
        Err(FromHexError::OddLength) => Err(HexError::OddLength),
        Err(FromHexError::InvalidStringLength) => Err(HexError::InvalidStringLength),
    }
}

/// Puts an error into words with the `Display` of `hex::FromHexError`. It is believed
/// that the text depends on the error alone, and how the two errors without fields
/// read.
#[verifier::external_body]
pub(crate) fn hex_error_text(e: &HexError) -> (r: String)
    ensures
        r@ == hex_error_message(*e),
        e is OddLength ==> r@ == "Odd number of digits"@,
        e is InvalidStringLength ==> r@ == "Invalid string length"@,
{
    match *e {
        HexError::InvalidHexCharacter { c, index } => FromHexError::InvalidHexCharacter { c, index },
        HexError::OddLength => FromHexError::OddLength,
        HexError::InvalidStringLength => FromHexError::InvalidStringLength,
    }.to_string()
}

/// The character that stands for the hexadecimal digit `d`, in lower case.
pub open spec fn hex_char(d: nat) -> char
    recommends
        d < 16,
{
    if d < 10 {
        (0x30 + d) as u8 as char
    } else {
        (0x61 + d - 10) as u8 as char
    }
}

/// The hexadecimal notation of `bytes`, in lower case.
pub open spec fn hex_notation(bytes: Seq<u8>) -> Seq<char> {
    Seq::new(
        2 * bytes.len(),
        |i: int|
            if i % 2 == 0 {
                hex_char((bytes[i / 2] / 16) as nat)
            } else {
                hex_char((bytes[i / 2] % 16) as nat)
            },
    )
}

/// Writes bytes down with `hex::encode`. It is believed that it writes two digits for each
/// byte, the higher one first, in lower case.
#[verifier::external_body]
pub(crate) fn encode_hex(bytes: &[u8]) -> (r: String)
    ensures
        r@ == hex_notation(bytes@),
{
    hex::encode(bytes)
}

/// In a text of digits the first byte that is no digit would stand behind the last.
pub proof fn digits_to_the_end(text: Seq<u8>, i: nat)
    requires
        i <= text.len(),
        forall|j: int| 0 <= j < text.len() ==> hex_digit(#[trigger] text[j]) is Some,
    ensures
        first_non_digit(text, i) == text.len(),
    decreases text.len() - i,
{
    if i < text.len() {
        digits_to_the_end(text, i + 1);
    }
}

/// An array of bytes is read back from its hexadecimal notation.
pub proof fn hex_reads_back(bytes: Seq<u8>)
    ensures
        hex_array(vstd::utf8::encode_utf8(hex_notation(bytes)), bytes.len()) == Ok::<
            Seq<u8>,
            HexError,
        >(bytes),
{
    let chars = hex_notation(bytes);
    let text = vstd::utf8::encode_utf8(chars);
    assert forall|i: int| 0 <= i < chars.len() implies (#[trigger] chars[i]) as u32 <= 127 by {
        assert(0 <= i / 2 < bytes.len());
    }
    vstd::utf8::is_ascii_chars_encode_utf8(chars);
    assert forall|i: int| 0 <= i < bytes.len() implies {
        &&& hex_digit(text[2 * i]) == Some((#[trigger] bytes[i] / 16) as u8)
        &&& hex_digit(text[2 * i + 1]) == Some((bytes[i] % 16) as u8)
    } by {
        assert((2 * i) / 2 == i && (2 * i) % 2 == 0);
        assert((2 * i + 1) / 2 == i && (2 * i + 1) % 2 == 1);
        assert(text[2 * i] == chars[2 * i] as u8);
        assert(text[2 * i + 1] == chars[2 * i + 1] as u8);
    }
    assert forall|j: int| 0 <= j < text.len() implies hex_digit(#[trigger] text[j]) is Some by {
        let b = bytes[j / 2];
        assert(j == 2 * (j / 2) || j == 2 * (j / 2) + 1);
    }
    digits_to_the_end(text, 0);
    assert(hex_array(text, bytes.len())->Ok_0 =~= bytes);
}

/// The first byte that is no digit stands at `j`, if all before it are digits and it is none.
pub proof fn first_non_digit_stands_there(text: Seq<u8>, i: nat, j: nat)
    requires
        i <= j < text.len(),
        forall|k: int| i <= k < j ==> hex_digit(#[trigger] text[k]) is Some,
        hex_digit(text[j as int]) is None,
    ensures
        first_non_digit(text, i) == j,
    decreases j - i,
{
    if i < j {
        first_non_digit_stands_there(text, i + 1, j);
    }
}

} // verus!
