use lnradar::error::Error;
use lnradar::results::ErrorCode;
use lnradar::text::{decimal_text, join};

const ALL: [(ErrorCode, u64, &str); 4] = [
    (ErrorCode::UnknownNextPeer, 0x400a, "UNKNOWN_NEXT_PEER"),
    (
        ErrorCode::IncorrectOrUnknownPaymentDetails,
        0x400f,
        "INCORRECT_OR_UNKNOWN_PAYMENT_DETAILS",
    ),
    (
        ErrorCode::TemporaryChannelFailure,
        0x1007,
        "TEMPORARY_CHANNEL_FAILURE",
    ),
    (ErrorCode::FeeInsufficient, 0x100c, "FEE_INSUFFICIENT"),
];

#[test]
fn codes_have_numbers_and_names() {
    for (code, number, name) in ALL {
        assert_eq!(code.to_u64(), number);
        assert_eq!(ErrorCode::from_u64(number), Some(code));
        assert_eq!(code.to_string(), name);
    }
}

#[test]
fn other_numbers_are_no_codes() {
    for number in [0, 1, 0x1006, 0x1008, 0x100b, 0x400b, 0x400e, u64::MAX] {
        assert_eq!(ErrorCode::from_u64(number), None);
    }
}

#[test]
fn two_codes_show_that_the_destination_was_reached() {
    assert!(ErrorCode::UnknownNextPeer.reached());
    assert!(ErrorCode::IncorrectOrUnknownPaymentDetails.reached());
    assert!(!ErrorCode::TemporaryChannelFailure.reached());
    assert!(!ErrorCode::FeeInsufficient.reached());
}

#[test]
fn errors_read_as_they_should() {
    assert_eq!(
        Error::no_routes("too far").to_string(),
        "Could not find any routes: too far"
    );
    assert_eq!(Error::other("broken").to_string(), "broken");
    assert_eq!(Error::caused("why: ", "so").to_string(), "why: so");
    assert!(matches!(Error::no_routes("x"), Error::NoRoutes(_)));
    assert!(matches!(Error::other("x"), Error::Other(_)));
}

#[test]
fn numbers_in_messages_are_decimal() {
    for n in [0, 7, 10, 42, 1000, 90210, u64::MAX] {
        assert_eq!(decimal_text(n), format!("{}", n));
    }
    assert_eq!(join("ab", "cd"), "abcd");
}
