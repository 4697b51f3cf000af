use nitro_cvv::header::{MessageHeader, ParseError};
use nitro_cvv::{GetKeyRequest, GetKeyResponse, Message};

#[test]
fn header_length_is_derived() {
    let h = MessageHeader::new([1, 2, 3, 4], *b"Z0", 10);
    assert_eq!(h.len, 16);
    assert_eq!(h.data_length(), 10);
    assert_eq!(h.hdr, [1, 2, 3, 4]);
    assert_eq!(h.cmd, *b"Z0");
}

#[test]
fn header_roundtrip() {
    let h = MessageHeader::new([9, 8, 7, 6], *b"Z1", 300);
    let bytes = h.to_bytes();
    assert_eq!(bytes.len(), 8);
    assert_eq!(bytes[0], 1);
    assert_eq!(bytes[1], 50);
    let back = MessageHeader::parse(&bytes).unwrap();
    assert_eq!(back, h);
}

#[test]
fn header_too_short() {
    assert_eq!(
        MessageHeader::parse(&[0, 6, 0, 0, 0, 0, 90]),
        Err(ParseError::HeaderTooShort)
    );
    assert_eq!(MessageHeader::parse(&[]), Err(ParseError::HeaderTooShort));
}

#[test]
fn header_cmd_str() {
    let h = MessageHeader::new([0, 0, 0, 0], *b"Z0", 0);
    assert_eq!(h.cmd_str(), "Z0");
    assert!(h.is_cmd(b"Z0"));
    assert!(!h.is_cmd(b"Z1"));
}

#[test]
fn request_roundtrip() {
    let req = GetKeyRequest::new(*b"0000", b"test.test.cvka".to_vec());
    assert_eq!(req.header.len as usize, 6 + 14);
    let bytes = req.to_bytes();
    let back = GetKeyRequest::parse(&bytes).unwrap();
    assert_eq!(back, req);
    assert_eq!(back.key_id_str(), "test.test.cvka");
}

#[test]
fn request_wire_layout() {
    let req = GetKeyRequest::new([48, 48, 48, 48], vec![107]);
    assert_eq!(
        req.to_bytes(),
        vec![0, 7, 48, 48, 48, 48, 90, 48, 107]
    );
}

#[test]
fn response_success_roundtrip() {
    let resp = GetKeyResponse::success(*b"abcd", vec![1, 2, 3, 4, 5]);
    assert!(resp.is_success());
    assert_eq!(resp.response_code_str(), "00");
    assert_eq!(resp.header.len as usize, 6 + 2 + 5);
    let bytes = resp.to_bytes();
    let back = GetKeyResponse::parse(&bytes).unwrap();
    assert_eq!(back, resp);
    assert_eq!(back.encrypted_key, Some(vec![1, 2, 3, 4, 5]));
}

#[test]
fn response_success_empty_key_roundtrip() {
    let resp = GetKeyResponse::success(*b"abcd", Vec::new());
    let bytes = resp.to_bytes();
    let back = GetKeyResponse::parse(&bytes).unwrap();
    assert_eq!(back, resp);
    assert_eq!(back.encrypted_key, Some(Vec::new()));
}

#[test]
fn response_error_roundtrip() {
    let resp = GetKeyResponse::error(*b"abcd", *b"01");
    assert!(!resp.is_success());
    assert_eq!(resp.response_code_str(), "01");
    assert_eq!(resp.encrypted_key, None);
    let bytes = resp.to_bytes();
    let back = GetKeyResponse::parse(&bytes).unwrap();
    assert_eq!(back, resp);
}

#[test]
fn message_roundtrip_request() {
    let req = GetKeyRequest::new(*b"0000", b"some.key".to_vec());
    let msg = Message::GetKeyRequest(req);
    let bytes = msg.to_bytes();
    let back = Message::parse(&bytes).unwrap();
    assert_eq!(back, msg);
    assert_eq!(back.cmd(), "Z0");
}

#[test]
fn message_roundtrip_response() {
    let resp = GetKeyResponse::success(*b"0000", vec![0xde, 0xad]);
    let msg = Message::GetKeyResponse(resp);
    let bytes = msg.to_bytes();
    let back = Message::parse(&bytes).unwrap();
    assert_eq!(back, msg);
    assert_eq!(back.cmd(), "Z1");
}

#[test]
fn unknown_command_is_rejected() {
    // a frame whose command bytes are "XX": never coerced into a variant
    let bytes = vec![0, 6, 0, 0, 0, 0, 88, 88];
    assert_eq!(Message::parse(&bytes), Err(ParseError::UnknownCommand));
}

#[test]
fn buffer_smaller_than_declared_length() {
    // header declares 10 payload bytes but only 2 follow
    let bytes = vec![0, 16, 0, 0, 0, 0, 90, 48, 1, 2];
    assert_eq!(Message::parse(&bytes), Err(ParseError::BufferTooSmall));
    assert_eq!(
        GetKeyRequest::parse(&bytes),
        Err(ParseError::BufferTooSmall)
    );
}

#[test]
fn request_parse_rejects_other_command() {
    let resp = GetKeyResponse::error(*b"0000", *b"01");
    let bytes = resp.to_bytes();
    assert_eq!(GetKeyRequest::parse(&bytes), Err(ParseError::WrongCommand));
}

#[test]
fn request_declared_length_below_fixed_fields() {
    // declared length 4 cannot even cover correlation id and command
    let bytes = vec![0, 4, 0, 0, 0, 0, 90, 48];
    assert_eq!(
        GetKeyRequest::parse(&bytes),
        Err(ParseError::DeclaredLengthTooSmall)
    );
}

#[test]
fn response_payload_too_small() {
    // declared length 7: payload of 1 byte cannot hold the 2-byte code
    let bytes = vec![0, 7, 0, 0, 0, 0, 90, 49, 48];
    assert_eq!(
        GetKeyResponse::parse(&bytes),
        Err(ParseError::ResponsePayloadTooSmall)
    );
}

#[test]
fn error_response_with_payload_is_rejected() {
    // error code "01" followed by an extra byte: only success may carry one
    let bytes = vec![0, 9, 0, 0, 0, 0, 90, 49, 48, 49, 7];
    assert_eq!(
        GetKeyResponse::parse(&bytes),
        Err(ParseError::UnexpectedResponsePayload)
    );
}

#[test]
fn empty_key_id_roundtrip() {
    let req = GetKeyRequest::new(*b"0000", Vec::new());
    let bytes = req.to_bytes();
    assert_eq!(bytes, vec![0, 6, 48, 48, 48, 48, 90, 48]);
    let back = GetKeyRequest::parse(&bytes).unwrap();
    assert_eq!(back, req);
}
