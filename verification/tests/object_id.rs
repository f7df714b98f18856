use listas::object_id::{ObjectId, ObjectIdError};
use listas::util::to_object_id;
use listas::errors::Error;

#[test]
fn parses_lower_and_upper_case_hex() {
    let id = ObjectId::with_string("5f9b3c2e1a2b3c4d5e6f7a8B").unwrap();
    assert_eq!(id.bytes, [0x5f, 0x9b, 0x3c, 0x2e, 0x1a, 0x2b, 0x3c, 0x4d, 0x5e, 0x6f, 0x7a, 0x8b]);
    assert_eq!(id.to_hex(), "5f9b3c2e1a2b3c4d5e6f7a8b");
}

#[test]
fn hex_round_trip() {
    let id = ObjectId { bytes: [0, 1, 2, 3, 250, 251, 252, 253, 254, 255, 16, 15] };
    let hex = id.to_hex();
    assert_eq!(hex, "00010203fafbfcfdfeff100f");
    assert_eq!(ObjectId::with_string(&hex).unwrap(), id);
    assert!(id.equals(&ObjectId::with_string(&hex).unwrap()));
    assert!(!id.equals(&ObjectId { bytes: [0; 12] }));
}

#[test]
fn odd_length_is_a_hex_error() {
    assert_eq!(ObjectId::with_string("abc"), Err(ObjectIdError::InvalidHex));
    assert_eq!(ObjectId::with_string("zzz"), Err(ObjectIdError::InvalidHex));
}

#[test]
fn bad_digit_is_a_hex_error() {
    assert_eq!(ObjectId::with_string("00g0zz"), Err(ObjectIdError::InvalidHex));
    assert_eq!(ObjectId::with_string("5f9b3c2e1a2b3c4d5e6f7a8g"), Err(ObjectIdError::InvalidHex));
}

#[test]
fn wrong_length_is_reported() {
    assert_eq!(ObjectId::with_string("abcd"), Err(ObjectIdError::InvalidLength));
    assert_eq!(ObjectId::with_string(""), Err(ObjectIdError::InvalidLength));
}

#[test]
fn to_object_id_maps_errors() {
    assert_eq!(
        to_object_id("xyz".to_string()),
        Err(Error::ParseObjectID(ObjectIdError::InvalidHex))
    );
    assert!(to_object_id("000000000000000000000001".to_string()).is_ok());
}
