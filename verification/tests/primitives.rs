use lnradar::error::Error;
use lnradar::primitives::{well_known_key, Amount, FromJson, PublicKey, SecretKey};
use serde_json::Value;

const KEY: &str = "026a04ab98d9e4774ad806e302dddeb63bea16b5cb5f223ee77478e861bb583eb3";

fn read(text: &str) -> Result<PublicKey, Error> {
    PublicKey::from_value(&Value::String(text.to_string()))
}

fn why(r: Result<PublicKey, Error>) -> String {
    match r {
        Ok(key) => panic!("read {}", key.to_hex()),
        Err(e) => e.to_string(),
    }
}

#[test]
fn key_of_the_well_known_secret() {
    let secret = well_known_key();
    assert_eq!(secret.to_byte_array(), [0xaa; 32]);
    assert_eq!(PublicKey::from_secret_key(&secret).to_hex(), KEY);
}

#[test]
fn key_of_the_secret_one_is_the_generator() {
    let mut one = [0u8; 32];
    one[31] = 1;
    let secret = SecretKey::from_byte_array(one).unwrap();
    assert_eq!(
        PublicKey::from_secret_key(&secret).to_hex(),
        "0279be667ef9dcbbac55a06295ce870b07029bfcdb2dce28d959f2815b16f81798"
    );
}

#[test]
fn secret_keys_lie_between_zero_and_the_order() {
    let mut order: [u8; 32] = [
        0xff, 0xff, 0xff, 0xff, 0xff, 0xff, 0xff, 0xff, 0xff, 0xff, 0xff, 0xff, 0xff, 0xff, 0xff,
        0xfe, 0xba, 0xae, 0xdc, 0xe6, 0xaf, 0x48, 0xa0, 0x3b, 0xbf, 0xd2, 0x5e, 0x8c, 0xd0, 0x36,
        0x41, 0x41,
    ];
    let e = SecretKey::from_byte_array(order).unwrap_err();
    assert_eq!(e.to_string(), "malformed or out-of-range secret key");
    order[31] = 0x40;
    assert_eq!(
        SecretKey::from_byte_array(order).unwrap().to_byte_array(),
        order
    );
    let e = SecretKey::from_byte_array([0; 32]).unwrap_err();
    assert_eq!(e.to_string(), "malformed or out-of-range secret key");
}

#[test]
fn public_keys_are_points() {
    let generator = [
        0x02, 0x79, 0xbe, 0x66, 0x7e, 0xf9, 0xdc, 0xbb, 0xac, 0x55, 0xa0, 0x62, 0x95, 0xce, 0x87,
        0x0b, 0x07, 0x02, 0x9b, 0xfc, 0xdb, 0x2d, 0xce, 0x28, 0xd9, 0x59, 0xf2, 0x81, 0x5b, 0x16,
        0xf8, 0x17, 0x98,
    ];
    let key = PublicKey::from_byte_array(generator).unwrap();
    assert_eq!(key.to_byte_array(), generator);
    let mut other = generator;
    other[0] = 3;
    assert_eq!(
        PublicKey::from_byte_array(other).unwrap().to_byte_array(),
        other
    );
    other[0] = 4;
    let e = PublicKey::from_byte_array(other).unwrap_err();
    assert_eq!(e.to_string(), "malformed public key");
    // No point of the curve has the abscissa 5.
    let mut five = [0u8; 33];
    five[0] = 2;
    five[32] = 5;
    assert!(PublicKey::from_byte_array(five).is_err());
    // The abscissa is less than the order of the field.
    let mut large = [0xffu8; 33];
    large[0] = 2;
    assert!(PublicKey::from_byte_array(large).is_err());
}

#[test]
fn key_is_read_from_json() {
    let key = read(KEY).unwrap();
    assert_eq!(key.to_hex(), KEY);
    assert_eq!(read(&KEY.to_uppercase()).unwrap().to_hex(), KEY);
}

#[test]
fn key_is_not_read_from_other_json() {
    let numeral: Value = serde_json::from_str("7").unwrap();
    assert_eq!(
        why(PublicKey::from_value(&numeral)),
        "failed to read field as str"
    );
    assert_eq!(
        why(PublicKey::from_value(&Value::Null)),
        "failed to read field as str"
    );
    assert_eq!(
        why(PublicKey::from_text(None)),
        "failed to read field as str"
    );
}

#[test]
fn key_is_not_read_from_bad_hex() {
    assert_eq!(
        why(read(&KEY[1..])),
        "failed converting string to hex: Odd number of digits"
    );
    assert_eq!(
        why(read(&KEY[2..])),
        "failed converting string to hex: Invalid string length"
    );
    assert_eq!(
        why(read("")),
        "failed converting string to hex: Invalid string length"
    );
    let bad = KEY.replacen("04ab", "0zzb", 1);
    assert_eq!(
        why(read(&bad)),
        "failed converting string to hex: Invalid character 'z' at position 5"
    );
    // Two bytes that are one character.
    let bad = KEY.replacen("04ab", "04\u{e9}", 1);
    assert_eq!(
        why(read(&bad)),
        "failed converting string to hex: Invalid character '\u{c3}' at position 6"
    );
}

#[test]
fn key_is_not_read_from_what_is_no_point() {
    let text = format!("04{}", &KEY[2..]);
    assert_eq!(
        why(read(&text)),
        "failed converting hex to PublicKey: malformed public key"
    );
}

#[test]
fn amounts_are_in_millisatoshi() {
    assert_eq!(Amount::from_msat(1234).msat, 1234);
}
