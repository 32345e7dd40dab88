use solo2_check::apdu::ApduError;
use solo2_check::identity::IdentityError;
use solo2_check::identity::encode_uuid;
use solo2_check::identity::parse_identity_response;
use solo2_check::identity::parse_uuid;

#[test]
fn parse_uuid_reads_big_endian() {
    let mut payload: Vec<u8> = vec![0x00; 15];
    payload.push(0x01);
    assert_eq!(parse_uuid(&payload), Ok(1));

    let payload: Vec<u8> = vec![
        0x00, 0x11, 0x22, 0x33, 0x44, 0x55, 0x66, 0x77, 0x88, 0x99, 0xAA, 0xBB, 0xCC, 0xDD, 0xEE,
        0xFF,
    ];
    assert_eq!(parse_uuid(&payload), Ok(0x00112233445566778899AABBCCDDEEFF));
}

#[test]
fn parse_uuid_rejects_every_other_length() {
    let payload: Vec<u8> = Vec::new();
    assert_eq!(parse_uuid(&payload), Err(IdentityError::PayloadLength { len: 0 }));
    let payload: Vec<u8> = vec![0x00; 15];
    assert_eq!(parse_uuid(&payload), Err(IdentityError::PayloadLength { len: 15 }));
    let payload: Vec<u8> = vec![0x00; 17];
    assert_eq!(parse_uuid(&payload), Err(IdentityError::PayloadLength { len: 17 }));
}

#[test]
fn uuid_round_trips_through_its_encoding() {
    let payload: Vec<u8> = vec![
        0xDE, 0xAD, 0xBE, 0xEF, 0x01, 0x23, 0x45, 0x67, 0x89, 0xAB, 0xCD, 0xEF, 0x10, 0x32, 0x54,
        0x76,
    ];
    let value = parse_uuid(&payload).unwrap();
    assert_eq!(encode_uuid(value), payload);
    assert_eq!(parse_uuid(&encode_uuid(value)), Ok(value));
}

#[test]
fn encode_uuid_covers_the_extremes() {
    assert_eq!(encode_uuid(0), vec![0x00; 16]);
    assert_eq!(encode_uuid(u128::MAX), vec![0xFF; 16]);
    let mut one: Vec<u8> = vec![0x00; 15];
    one.push(0x01);
    assert_eq!(encode_uuid(1), one);
}

#[test]
fn identity_response_needs_success_and_sixteen_bytes() {
    let mut raw: Vec<u8> = vec![0x00; 15];
    raw.push(0x2A);
    raw.push(0x90);
    raw.push(0x00);
    assert_eq!(parse_identity_response(&raw), Ok(42));

    let raw: Vec<u8> = vec![0x6A, 0x82];
    assert_eq!(
        parse_identity_response(&raw),
        Err(IdentityError::Apdu(ApduError::Command { sw1: 0x6A, sw2: 0x82 }))
    );

    let raw: Vec<u8> = vec![0x90];
    assert_eq!(parse_identity_response(&raw), Err(IdentityError::Apdu(ApduError::ResponseTooShort)));

    let raw: Vec<u8> = vec![0x01, 0x02, 0x90, 0x00];
    assert_eq!(parse_identity_response(&raw), Err(IdentityError::PayloadLength { len: 2 }));
}
