use solo2_check::apdu::ApduError;
use solo2_check::apdu::build_request;
use solo2_check::apdu::parse_response;
use solo2_check::apdu::response_capacity;

#[test]
fn framing_prefixes_data_with_its_length() {
    let data: Vec<u8> = vec![0xA0, 0x00, 0x01];
    let req = build_request(0xA4, 0x04, 0x00, &data, None).unwrap();
    assert_eq!(req, vec![0x00, 0xA4, 0x04, 0x00, 0x03, 0xA0, 0x00, 0x01]);
}

#[test]
fn framing_without_data_has_only_header_and_le() {
    let data: Vec<u8> = Vec::new();
    let req = build_request(0x62, 0x00, 0x00, &data, Some(16)).unwrap();
    assert_eq!(req, vec![0x00, 0x62, 0x00, 0x00, 0x10]);
    let req = build_request(0x62, 0x00, 0x00, &data, None).unwrap();
    assert_eq!(req, vec![0x00, 0x62, 0x00, 0x00]);
}

#[test]
fn framing_accepts_a_255_byte_payload() {
    let data: Vec<u8> = vec![0xAB; 255];
    let req = build_request(0x10, 0x01, 0x02, &data, Some(0)).unwrap();
    assert_eq!(req.len(), 4 + 1 + 255 + 1);
    assert_eq!(req[4], 255);
    assert_eq!(&req[5..260], &data[..]);
    assert_eq!(req[260], 0);
}

#[test]
fn framing_rejects_a_256_byte_payload() {
    let data: Vec<u8> = vec![0x00; 256];
    assert_eq!(build_request(0xA4, 0x04, 0x00, &data, None), Err(ApduError::DataTooLong));
}

#[test]
fn response_capacity_follows_the_expected_length() {
    assert_eq!(response_capacity(None), 2);
    assert_eq!(response_capacity(Some(0)), 2 + 256);
    assert_eq!(response_capacity(Some(1)), 2 + 1);
    assert_eq!(response_capacity(Some(16)), 2 + 16);
    assert_eq!(response_capacity(Some(255)), 2 + 255);
}

#[test]
fn parse_response_strips_the_success_status_word() {
    let raw: Vec<u8> = vec![0x01, 0x02, 0x03, 0x90, 0x00];
    assert_eq!(parse_response(&raw), Ok(vec![0x01, 0x02, 0x03]));
}

#[test]
fn parse_response_of_a_bare_status_word_is_empty() {
    let raw: Vec<u8> = vec![0x90, 0x00];
    assert_eq!(parse_response(&raw), Ok(Vec::new()));
}

#[test]
fn parse_response_keeps_a_failure_status_word() {
    let raw: Vec<u8> = vec![0x6A, 0x82];
    assert_eq!(parse_response(&raw), Err(ApduError::Command { sw1: 0x6A, sw2: 0x82 }));
    let raw: Vec<u8> = vec![0xAA, 0xBB, 0x90, 0x01];
    assert_eq!(parse_response(&raw), Err(ApduError::Command { sw1: 0x90, sw2: 0x01 }));
}

#[test]
fn parse_response_rejects_short_responses() {
    let raw: Vec<u8> = vec![0x90];
    assert_eq!(parse_response(&raw), Err(ApduError::ResponseTooShort));
    let raw: Vec<u8> = Vec::new();
    assert_eq!(parse_response(&raw), Err(ApduError::ResponseTooShort));
}
