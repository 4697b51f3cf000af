use nitro_cvv::connection::{next_action, response_for_fetch, FrameAction, KeyFetchOutcome};
use nitro_cvv::{GetKeyRequest, GetKeyResponse, Message};

#[test]
fn empty_frame_stops_the_loop() {
    assert_eq!(next_action(&[]), FrameAction::Stop);
}

#[test]
fn unparsable_frame_is_skipped() {
    assert_eq!(next_action(&[1, 2, 3]), FrameAction::Skip);
    // unknown command
    assert_eq!(next_action(&[0, 6, 0, 0, 0, 0, 88, 88]), FrameAction::Skip);
}

#[test]
fn non_request_message_is_skipped() {
    let resp = GetKeyResponse::error(*b"0000", *b"01");
    let frame = Message::GetKeyResponse(resp).to_bytes();
    assert_eq!(next_action(&frame), FrameAction::Skip);
}

#[test]
fn request_frame_is_handled() {
    let req = GetKeyRequest::new(*b"ab12", b"the.key".to_vec());
    let frame = req.to_bytes();
    assert_eq!(next_action(&frame), FrameAction::HandleRequest(req));
}

#[test]
fn found_key_earns_a_success_response() {
    let resp = response_for_fetch(*b"ab12", KeyFetchOutcome::Found(vec![1, 2, 3]));
    assert!(resp.is_success());
    assert_eq!(resp.header.hdr, *b"ab12");
    assert_eq!(resp.encrypted_key, Some(vec![1, 2, 3]));
    assert_eq!(resp.header.len as usize, 6 + 2 + 3);
}

#[test]
fn missing_key_earns_the_not_found_code() {
    let resp = response_for_fetch(*b"ab12", KeyFetchOutcome::NotFound);
    assert!(!resp.is_success());
    assert_eq!(resp.response_code, *b"01");
    assert_eq!(resp.encrypted_key, None);
}

#[test]
fn unreachable_store_earns_the_unavailable_code() {
    let resp = response_for_fetch(*b"ab12", KeyFetchOutcome::Unavailable);
    assert!(!resp.is_success());
    assert_eq!(resp.response_code, *b"02");
    assert_eq!(resp.encrypted_key, None);
}

#[test]
fn handled_request_roundtrips_through_the_codec() {
    let req = GetKeyRequest::new(*b"c0de", b"k1".to_vec());
    let frame = req.to_bytes();
    match next_action(&frame) {
        FrameAction::HandleRequest(r) => {
            let resp = response_for_fetch(r.header.hdr, KeyFetchOutcome::Found(vec![9, 9]));
            let out = resp.to_bytes();
            let back = GetKeyResponse::parse(&out).unwrap();
            assert_eq!(back, resp);
        }
        other => panic!("expected a request, got {:?}", other),
    }
}
