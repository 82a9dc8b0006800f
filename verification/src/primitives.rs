//! Keys, amounts and channel identifiers.

use crate::error::{Error, ErrorModel};
use crate::hex_text;
use crate::json;
use bitcoin::secp256k1;
use serde_json::Value;
use vstd::prelude::*;

verus! {

/// An amount of money in millisatoshi.
#[derive(Debug, Clone, Copy, PartialEq, Eq, Structural)]
pub struct Amount {
    pub msat: u64,
}

impl Amount {
    /// An amount of `msat` millisatoshi.
    pub fn from_msat(msat: u64) -> (r: Amount)
        ensures
            r.msat == msat,
    {
        Amount { msat }
    }
}

/// Where a channel's funding output stands in the chain, packed into one number.
#[derive(Debug, Clone, Copy, PartialEq, Eq, Structural)]
pub struct ShortChannelId(pub u64);

/// One of the two directions of a channel.
#[derive(Debug, Clone, Copy, PartialEq, Eq, Structural)]
pub struct ShortChannelIdDir {
    pub short_channel_id: ShortChannelId,
    pub direction: u32,
}

/// The number that `bytes` stand for, most significant byte first.
pub open spec fn big_endian(bytes: Seq<u8>) -> nat
    decreases bytes.len(),
{
    if bytes.len() == 0 {
        0
    } else {
        big_endian(bytes.drop_last()) * 256 + bytes.last() as nat
    }
}

/// The order of the field over which the curve secp256k1 is defined.
pub open spec fn field_order() -> nat {
    0xFFFFFFFFFFFFFFFFFFFFFFFFFFFFFFFFFFFFFFFFFFFFFFFFFFFFFFFEFFFFFC2Fnat
}

/// The number of points of the curve secp256k1.
pub open spec fn group_order() -> nat {
    0xFFFFFFFFFFFFFFFFFFFFFFFFFFFFFFFEBAAEDCE6AF48A03BBFD25E8CD0364141nat
}

/// The curve goes through the point with the coordinates `x` and `y`.
pub open spec fn on_curve(x: nat, y: nat) -> bool {
    y < field_order() && (y * y) % field_order() == (x * x * x + 7) % field_order()
}

/// Some point of the curve has the abscissa `x`.
pub open spec fn is_abscissa(x: nat) -> bool {
    x < field_order() && exists|y: nat| on_curve(x, y)
}

/// `bytes` are the compressed form of a point: its parity, then its abscissa.
pub open spec fn is_point(bytes: Seq<u8>) -> bool {
    &&& bytes.len() == 33
    &&& bytes[0] == 2 || bytes[0] == 3
    &&& is_abscissa(big_endian(bytes.skip(1)))
}

/// `bytes` are a scalar that may serve as a secret key.
pub open spec fn is_scalar(bytes: Seq<u8>) -> bool {
    &&& bytes.len() == 32
    &&& 0 < big_endian(bytes) < group_order()
}

/// The compressed form of the point that belongs to the secret key `scalar`.
pub uninterp spec fn point_of_scalar(scalar: Seq<u8>) -> Seq<u8>;

/// Reads a point with `secp256k1::PublicKey::from_slice` and writes it again
/// with `serialize`. It is believed that the former accepts, among the inputs of
/// 33 bytes, exactly the compressed points, that the latter gives the same bytes
/// back, and how the error reads.
#[verifier::external_body]
fn parse_point(bytes: &[u8; 33]) -> (r: Result<[u8; 33], String>)
    ensures
        match r {
            Ok(point) => is_point(bytes@) && point@ == bytes@,
            Err(e) => !is_point(bytes@) && e@ == "malformed public key"@,
        },
{
    match secp256k1::PublicKey::from_slice(bytes) {
        Ok(key) => Ok(key.serialize()),
        Err(e) => Err(e.to_string()),
    }
}

/// Reads a scalar with `secp256k1::SecretKey::from_slice`. It is believed that,
/// of 32 bytes, it accepts exactly the numbers between zero and the order of the
/// group and keeps them as they are, and how the error reads.
#[verifier::external_body]
fn parse_scalar(bytes: &[u8; 32]) -> (r: Result<[u8; 32], String>)
    ensures
        match r {
            Ok(scalar) => is_scalar(bytes@) && scalar@ == bytes@,
            Err(e) => !is_scalar(bytes@) && e@ == "malformed or out-of-range secret key"@,
        },
{
    match secp256k1::SecretKey::from_slice(bytes) {
        Ok(key) => Ok(key.secret_bytes()),
        Err(e) => Err(e.to_string()),
    }
}

/// Multiplies the generator by a scalar with
/// `secp256k1::PublicKey::from_secret_key`. It is believed that the outcome
/// depends on the scalar alone and is a point.
#[verifier::external_body]
fn multiply_generator(scalar: &[u8; 32]) -> (r: [u8; 33])
    requires
        is_scalar(scalar@),
    ensures
        r@ == point_of_scalar(scalar@),
        is_point(r@),
{
    let key = secp256k1::SecretKey::from_slice(scalar).unwrap();
    secp256k1::PublicKey::from_secret_key(&secp256k1::Secp256k1::new(), &key).serialize()
}

/// A node's public key: a point of the curve secp256k1.
#[derive(Debug, Clone, Copy)]
pub struct PublicKey {
    bytes: [u8; 33],
}

/// A secret key: a scalar of the curve secp256k1.
#[derive(Debug, Clone, Copy)]
pub struct SecretKey {
    bytes: [u8; 32],
}

impl View for PublicKey {
    type V = Seq<u8>;

    closed spec fn view(&self) -> Seq<u8> {
        self.bytes@
    }
}

impl View for SecretKey {
    type V = Seq<u8>;

    closed spec fn view(&self) -> Seq<u8> {
        self.bytes@
    }
}

/// The key that `text` writes in hexadecimal notation, or why there is none.
pub open spec fn parsed_key(text: Option<Seq<char>>) -> Result<Seq<u8>, Seq<char>> {
    match text {
        None => Err("failed to read field as str"@),
        Some(t) => match hex_text::hex_array(vstd::utf8::encode_utf8(t), 33) {
            Err(e) => Err("failed converting string to hex: "@ + hex_text::hex_error_message(e)),
            Ok(bytes) => if is_point(bytes) {
                Ok(bytes)
            } else {
                Err("failed converting hex to PublicKey: "@ + "malformed public key"@)
            },
        },
    }
}

/// `r` is the key that `text` writes in hexadecimal notation, or says why there is none.
pub open spec fn is_parsed(r: Result<PublicKey, Error>, text: Option<Seq<char>>) -> bool {
    match parsed_key(text) {
        Ok(bytes) => r matches Ok(key) && key@ == bytes,
        Err(why) => r matches Err(e) && e@ == ErrorModel::Other(why),
    }
}

impl PublicKey {
    #[verifier::type_invariant]
    closed spec fn inv(self) -> bool {
        is_point(self.bytes@)
    }

    /// The public key that belongs to the secret key `privk`.
    pub fn from_secret_key(privk: &SecretKey) -> (r: PublicKey)
        ensures
            r@ == point_of_scalar(privk@),
    {
        proof {
            use_type_invariant(privk);
        }
        PublicKey { bytes: multiply_generator(&privk.bytes) }
    }

    /// Reads a key from its compressed form.
    pub fn from_byte_array(s: [u8; 33]) -> (r: Result<PublicKey, Error>)
        ensures
            match r {
                Ok(key) => is_point(s@) && key@ == s@,
                Err(e) => !is_point(s@) && e@ == ErrorModel::Other("malformed public key"@),
            },
    {
        match parse_point(&s) {
            Ok(bytes) => Ok(PublicKey { bytes }),
            Err(e) => Err(Error::Other(e)),
        }
    }

    /// Reads a key from a text in hexadecimal notation, if there is a text.
    pub fn from_text(text: Option<&str>) -> (r: Result<PublicKey, Error>)
        ensures
            is_parsed(
                r,
                match text {
                    Some(t) => Some(t@),
                    None => None,
                },
            ),
    {
        let text = match text {
            Some(text) => text,
            None => {
                return Err(Error::other("failed to read field as str"));
            },
        };
        let bytes = match hex_text::decode_hex(text.as_bytes()) {
            Ok(bytes) => bytes,
            Err(e) => {
                let cause = hex_text::hex_error_text(&e);
                return Err(Error::caused("failed converting string to hex: ", cause.as_str()));
            },
        };
        match PublicKey::from_byte_array(bytes) {
            Ok(key) => Ok(key),
            Err(e) => Err(
                Error::caused("failed converting hex to PublicKey: ", e.to_string().as_str()),
            ),
        }
    }

    /// The key in hexadecimal notation.
    pub fn to_hex(&self) -> (r: String)
        ensures
            r@ == hex_text::hex_notation(self@),
    {
        hex_text::encode_hex(&self.bytes)
    }

    /// The compressed form of the key.
    pub fn to_byte_array(&self) -> (r: [u8; 33])
        ensures
            r@ == self@,
            is_point(r@),
    {
        proof {
            use_type_invariant(self);
        }
        self.bytes
    }
}

impl SecretKey {
    #[verifier::type_invariant]
    closed spec fn inv(self) -> bool {
        is_scalar(self.bytes@)
    }

    /// Reads a key from the number that it is, most significant byte first.
    pub fn from_byte_array(s: [u8; 32]) -> (r: Result<SecretKey, Error>)
        ensures
            match r {
                Ok(key) => is_scalar(s@) && key@ == s@,
                Err(e) => !is_scalar(s@) && e@ == ErrorModel::Other(
                    "malformed or out-of-range secret key"@,
                ),
            },
    {
        match parse_scalar(&s) {
            Ok(bytes) => Ok(SecretKey { bytes }),
            Err(e) => Err(Error::Other(e)),
        }
    }

    /// The number that the key is, most significant byte first.
    pub fn to_byte_array(&self) -> (r: [u8; 32])
        ensures
            r@ == self@,
            is_scalar(r@),
    {
        proof {
            use_type_invariant(self);
        }
        self.bytes
    }
}

/// `n` bytes that are all `b`.
pub open spec fn repeated(b: u8, n: nat) -> Seq<u8> {
    Seq::new(n, |i: int| b)
}

/// A key is read back from its hexadecimal notation.
pub proof fn key_reads_back(key: PublicKey, r: Result<PublicKey, Error>)
    requires
        is_point(key@),
        is_parsed(r, Some(hex_text::hex_notation(key@))),
    ensures
        r matches Ok(read) && read@ == key@,
{
    hex_text::hex_reads_back(key@);
}

proof fn big_endian_of_repeated(b: u8, n: nat)
    ensures
        255 * big_endian(repeated(b, n)) == b * (vstd::arithmetic::power::pow(
            256,
            n,
        ) - 1),
    decreases n,
{
    let s = repeated(b, n);
    vstd::arithmetic::power::lemma_pow0(256);
    if n > 0 {
        let shorter = repeated(b, (n - 1) as nat);
        assert(s.drop_last() =~= shorter);
        big_endian_of_repeated(b, (n - 1) as nat);
        let p = vstd::arithmetic::power::pow(256, (n - 1) as nat);
        reveal(vstd::arithmetic::power::pow);
        assert(vstd::arithmetic::power::pow(256, n) == 256 * p);
        let v = big_endian(shorter);
        assert(255 * (v * 256 + b) == b * (256 * p - 1)) by (nonlinear_arith)
            requires
                255 * v == b * (p - 1),
        ;
        assert(big_endian(s) == v * 256 + b);
    } else {
        assert(s =~= Seq::<u8>::empty());
        assert(b * (vstd::arithmetic::power::pow(256, n) - 1) == 0) by (nonlinear_arith)
            requires
                vstd::arithmetic::power::pow(256, n) == 1,
        ;
    }
}

/// The key behind every destination that is probed. It is well known, so that the node
/// before it can read what is meant for it.
pub fn well_known_key() -> (r: SecretKey)
    ensures
        r@ == repeated(0xaa, 32),
{
    let bytes = [0xaau8; 32];
    proof {
        assert(bytes@ =~= repeated(0xaa, 32));
        big_endian_of_repeated(0xaa, 32);
        assert(vstd::arithmetic::power::pow(256, 32)
            == 0x1_0000000000000000_0000000000000000_0000000000000000_0000000000000000int) by {
            reveal_with_fuel(vstd::arithmetic::power::pow, 33);
        }
        assert(is_scalar(bytes@));
    }
    match SecretKey::from_byte_array(bytes) {
        Ok(key) => key,
        Err(_) => {
            assert(false);
            SecretKey { bytes }
        },
    }
}

/// What can be read from a JSON value.
pub trait FromJson: Sized {
    /// Reads `value`, or says why it cannot be read.
    fn from_value(value: &Value) -> Result<Self, Error>;
}

impl FromJson for PublicKey {
    fn from_value(value: &Value) -> (r: Result<PublicKey, Error>)
        ensures
            is_parsed(r, json::json_as_str(*value)),
    {
        PublicKey::from_text(json::as_str(value))
    }
}

/// An amount is the number of millisatoshi that it was made of.
pub proof fn amount_keeps_its_number(msat: u64, r: Amount)
    requires
        call_ensures(Amount::from_msat, (msat,), r),
    ensures
        r.msat == msat,
{
}

/// The number that bytes stand for is read from left to right, in base 256.
pub proof fn bytes_are_read_from_left_to_right(front: Seq<u8>, last: u8)
    ensures
        big_endian(Seq::<u8>::empty()) == 0,
        big_endian(front.push(last)) == 256 * big_endian(front) + last,
{
    assert(front.push(last).drop_last() =~= front);
}

/// A secret key is any number from one to below the order of the group, and stays as it is.
pub proof fn secret_keys_are_numbers(s: [u8; 32], r: Result<SecretKey, Error>)
    requires
        call_ensures(SecretKey::from_byte_array, (s,), r),
    ensures
        r is Ok <==> 1 <= big_endian(s@)
            < 0xFFFFFFFFFFFFFFFFFFFFFFFFFFFFFFFEBAAEDCE6AF48A03BBFD25E8CD0364141nat,
        r matches Ok(key) ==> key@ == s@,
        r matches Err(e) ==> (e matches Error::Other(words) && words@
            == "malformed or out-of-range secret key"@),
{
}

/// A public key that is read stays as it is, and every point is read.
pub proof fn points_are_read_as_they_are(s: [u8; 33], r: Result<PublicKey, Error>)
    requires
        call_ensures(PublicKey::from_byte_array, (s,), r),
    ensures
        r is Ok <==> is_point(s@),
        r matches Ok(key) ==> key@ == s@,
        r matches Err(e) ==> (e matches Error::Other(words) && words@ == "malformed public key"@),
{
}

/// For each point there is one with the other parity, and nothing else is a point.
pub proof fn points_come_in_pairs(bytes: Seq<u8>)
    requires
        is_point(bytes),
    ensures
        bytes.len() == 33,
        bytes[0] == 2 || bytes[0] == 3,
        big_endian(bytes.skip(1))
            < 0xFFFFFFFFFFFFFFFFFFFFFFFFFFFFFFFFFFFFFFFFFFFFFFFFFFFFFFFEFFFFFC2Fnat,
        is_point(bytes.update(0, (5 - bytes[0]) as u8)),
{
    assert(bytes.update(0, (5 - bytes[0]) as u8).skip(1) =~= bytes.skip(1));
}

/// Keys give back the bytes that they were read from.
pub proof fn keys_give_their_bytes(
    s: [u8; 33],
    key: PublicKey,
    bytes: [u8; 33],
    k: [u8; 32],
    secret: SecretKey,
    secret_bytes: [u8; 32],
)
    requires
        call_ensures(PublicKey::from_byte_array, (s,), Ok(key)),
        call_ensures(PublicKey::to_byte_array, (&key,), bytes),
        call_ensures(SecretKey::from_byte_array, (k,), Ok(secret)),
        call_ensures(SecretKey::to_byte_array, (&secret,), secret_bytes),
    ensures
        bytes@ == s@,
        secret_bytes@ == k@,
{
}

/// The key behind every destination is 0xaa in every byte, and the public key of a secret key
/// depends on that alone.
pub proof fn well_known_key_is_known(r: SecretKey, secret: SecretKey, key: PublicKey)
    requires
        call_ensures(well_known_key, (), r),
        call_ensures(PublicKey::from_secret_key, (&secret,), key),
    ensures
        r@.len() == 32,
        forall|i: int| 0 <= i < 32 ==> #[trigger] r@[i] == 0xaa,
        key@ == point_of_scalar(secret@),
{
}

/// A key is written with two digits for each byte, the higher one first, from '0' to '9' and
/// from 'a' to 'f'.
pub proof fn keys_are_written_in_lower_case(key: PublicKey, r: String, i: int)
    requires
        call_ensures(PublicKey::to_hex, (&key,), r),
        0 <= i < key@.len(),
    ensures
        r@.len() == 2 * key@.len(),
        ({
            let high = key@[i] / 16;
            let low = key@[i] % 16;
            &&& r@[2 * i] as int == high + if high < 10 {
                48int
            } else {
                87
            }
            &&& r@[2 * i + 1] as int == low + if low < 10 {
                48int
            } else {
                87
            }
        }),
{
    assert((2 * i) / 2 == i && (2 * i) % 2 == 0);
    assert((2 * i + 1) / 2 == i && (2 * i + 1) % 2 == 1);
}

/// A key is read from any text of 66 hexadecimal digits, in upper or lower case, that writes
/// a point, and is that point. `digits` are the values of the characters.
pub proof fn keys_are_read_from_their_digits(
    text: &str,
    digits: Seq<int>,
    bytes: Seq<u8>,
    r: Result<PublicKey, Error>,
)
    requires
        call_ensures(PublicKey::from_text, (Some(text),), r),
        text@.len() == 66,
        digits.len() == 66,
        forall|i: int|
            0 <= i < 66 ==> {
                ||| 0 <= #[trigger] digits[i] < 10 && text@[i] as int == 48 + digits[i]
                ||| 10 <= digits[i] < 16 && text@[i] as int == 55 + digits[i]
                ||| 10 <= digits[i] < 16 && text@[i] as int == 87 + digits[i]
            },
        bytes.len() == 33,
        forall|i: int|
            0 <= i < 33 ==> #[trigger] bytes[i] == 16 * digits[2 * i] + digits[2 * i + 1],
    ensures
        is_point(bytes) ==> (r matches Ok(key) && key@ == bytes),
        !is_point(bytes) ==> (r matches Err(Error::Other(words)) && words@
            == "failed converting hex to PublicKey: "@ + "malformed public key"@),
{
    let chars = text@;
    let encoded = vstd::utf8::encode_utf8(chars);
    assert forall|i: int| 0 <= i < chars.len() implies '\0' <= #[trigger] chars[i] <= '\u{7f}' by {
        assert(digits[i] < 16);
    }
    vstd::utf8::is_ascii_chars_encode_utf8(chars);
    assert forall|i: int| 0 <= i < 66 implies hex_text::hex_digit(#[trigger] encoded[i]) == Some(
        digits[i] as u8,
    ) by {
        assert(encoded[i] == chars[i] as u8);
        assert(digits[i] < 16);
    }
    hex_text::digits_to_the_end(encoded, 0);
    let read = hex_text::hex_array(encoded, 33)->Ok_0;
    assert forall|i: int| 0 <= i < 33 implies read[i] == #[trigger] bytes[i] by {
        assert(hex_text::hex_digit(encoded[2 * i]) == Some(digits[2 * i] as u8));
        assert(hex_text::hex_digit(encoded[2 * i + 1]) == Some(digits[2 * i + 1] as u8));
        assert(0 <= digits[2 * i] < 16 && 0 <= digits[2 * i + 1] < 16);
    }
    assert(read =~= bytes);
}

/// Without a text no key is read. From a text of another length than 66 digits none is read
/// either, and the message tells an odd number of digits from a wrong one.
pub proof fn keys_need_their_digits(
    none: Result<PublicKey, Error>,
    text: &str,
    r: Result<PublicKey, Error>,
)
    requires
        call_ensures(PublicKey::from_text, (None,), none),
        call_ensures(PublicKey::from_text, (Some(text),), r),
    ensures
        none matches Err(Error::Other(words)) && words@ == "failed to read field as str"@,
        ({
            let n = vstd::utf8::encode_utf8(text@).len();
            &&& n != 66 ==> r is Err
            &&& r matches Ok(key) ==> is_point(key@) && n == 66
            &&& n % 2 != 0 ==> (r matches Err(Error::Other(words)) && words@
                == "failed converting string to hex: "@ + hex_text::hex_error_message(
                hex_text::HexError::OddLength,
            ))
            &&& n % 2 == 0 && n != 66 ==> (r matches Err(Error::Other(words)) && words@
                == "failed converting string to hex: "@ + hex_text::hex_error_message(
                hex_text::HexError::InvalidStringLength,
            ))
        }),
{
}

/// What is read from a JSON value is what is read from the text that it is.
pub proof fn keys_are_read_from_json_texts(
    value: Value,
    text: Option<&str>,
    alone: Result<PublicKey, Error>,
    r: Result<PublicKey, Error>,
)
    requires
        json::json_as_str(value) == (match text {
            Some(t) => Some(t@),
            None => None,
        }),
        call_ensures(PublicKey::from_text, (text,), alone),
        call_ensures(PublicKey::from_value, (&value,), r),
    ensures
        alone matches Ok(a) ==> (r matches Ok(b) && a@ == b@),
        alone matches Err(Error::Other(a)) ==> (r matches Err(Error::Other(b)) && a@ == b@),
        alone is Err ==> r is Err,
{
}

/// A key is read back from the text that it is written as.
pub proof fn written_keys_are_read(
    s: [u8; 33],
    key: PublicKey,
    written: String,
    text: &str,
    r: Result<PublicKey, Error>,
)
    requires
        call_ensures(PublicKey::from_byte_array, (s,), Ok(key)),
        call_ensures(PublicKey::to_hex, (&key,), written),
        text@ == written@,
        call_ensures(PublicKey::from_text, (Some(text),), r),
    ensures
        r matches Ok(read) && read@ == key@,
{
    key_reads_back(key, r);
}

/// From a text of 66 bytes of which one is no hexadecimal digit no key is read, and the
/// message is about the first that is none. The digits are those from '0' to '9', from 'A' to
/// 'F' and from 'a' to 'f'.
pub proof fn keys_are_read_from_digits_only(text: &str, j: nat, r: Result<PublicKey, Error>)
    requires
        call_ensures(PublicKey::from_text, (Some(text),), r),
        vstd::utf8::encode_utf8(text@).len() == 66,
        j < 66,
        forall|k: int|
            0 <= k < j ==> {
                ||| 48 <= #[trigger] vstd::utf8::encode_utf8(text@)[k] <= 57
                ||| 65 <= vstd::utf8::encode_utf8(text@)[k] <= 70
                ||| 97 <= vstd::utf8::encode_utf8(text@)[k] <= 102
            },
        ({
            let b = vstd::utf8::encode_utf8(text@)[j as int];
            !(48 <= b <= 57) && !(65 <= b <= 70) && !(97 <= b <= 102)
        }),
    ensures
        r matches Err(Error::Other(words)) && words@ == "failed converting string to hex: "@
            + hex_text::hex_error_message(
            hex_text::HexError::InvalidHexCharacter {
                c: vstd::utf8::encode_utf8(text@)[j as int] as char,
                index: j as usize,
            },
        ),
{
    hex_text::first_non_digit_stands_there(vstd::utf8::encode_utf8(text@), 0, j);
}

} // verus!
