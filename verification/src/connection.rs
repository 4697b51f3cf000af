//! Decisions of the per-connection handler loop: what to do with a
//! received frame, and which response a key-store outcome earns.  The
//! loop itself runs outside the library; it reads frames, performs the
//! key fetch, and writes back exactly the response built here.

use vstd::prelude::*;

use crate::commands::{
    GetKeyRequest, GetKeyResponse, RESPONSE_ERROR_NOT_FOUND, RESPONSE_ERROR_UNAVAILABLE,
    RESPONSE_SUCCESS,
};
use crate::header::{MSGHDR_CMD_SIZE, MSGHDR_HDR_SIZE};
use crate::message::{Message, MessageView};

verus! {

/// What the key store reported for a requested key id.
pub enum KeyFetchOutcome {
    /// The key was found; carries the encrypted key material.
    Found(Vec<u8>),
    /// No key of that name is known.
    NotFound,
    /// The key store could not be reached.
    Unavailable,
}

/// What the connection loop does next with a received frame.
#[derive(Debug, PartialEq, Eq)]
pub enum FrameAction {
    /// The frame is empty: the peer closed or stalled; the loop stops.
    Stop,
    /// The frame failed to parse, or is no key request: it is skipped
    /// and the loop reads on, sending nothing.
    Skip,
    /// A key request: resolve the key material and respond.
    HandleRequest(GetKeyRequest),
}

/// Decides what the handler loop does with one received frame: an
/// empty frame stops the loop, a key request is handled, and anything
/// else is skipped without a response.
pub fn next_action(frame: &[u8]) -> (r: FrameAction)
    ensures
        match r {
            FrameAction::Stop => frame@.len() == 0,
            FrameAction::Skip => frame@.len() > 0 && !(MessageView::spec_parse(frame@) matches Ok(
                MessageView::GetKeyRequest(_),
            )),
            FrameAction::HandleRequest(req) => MessageView::spec_parse(frame@) == Ok::<
                MessageView,
                crate::header::ParseError,
            >(MessageView::GetKeyRequest(req@)),
        },
{
    if frame.len() == 0 {
        return FrameAction::Stop;
    }
    match Message::parse(frame) {
        Ok(Message::GetKeyRequest(req)) => FrameAction::HandleRequest(req),
        Ok(_) => FrameAction::Skip,
        Err(_) => FrameAction::Skip,
    }
}

/// Builds the response a key-store outcome earns: the key material
/// under the success code when the key was found, the matching error
/// code and no payload otherwise.  The correlation id is echoed.
pub fn response_for_fetch(hdr: [u8; 4], outcome: KeyFetchOutcome) -> (r: GetKeyResponse)
    requires
        (outcome matches KeyFetchOutcome::Found(k) ==> k@.len() <= u16::MAX - MSGHDR_HDR_SIZE
            - MSGHDR_CMD_SIZE - 2),
    ensures
        r@.wf(),
        r.header.hdr == hdr,
        match outcome {
            KeyFetchOutcome::Found(k) => r.response_code@ == RESPONSE_SUCCESS@ && r@.encrypted_key
                == Some(k@),
            KeyFetchOutcome::NotFound => r.response_code == RESPONSE_ERROR_NOT_FOUND
                && r@.encrypted_key is None,
            KeyFetchOutcome::Unavailable => r.response_code == RESPONSE_ERROR_UNAVAILABLE
                && r@.encrypted_key is None,
        },
{
    match outcome {
        KeyFetchOutcome::Found(k) => GetKeyResponse::success(hdr, k),
        KeyFetchOutcome::NotFound => {
            proof {
                assert(RESPONSE_ERROR_NOT_FOUND@[1] != RESPONSE_SUCCESS@[1]);
            }
            GetKeyResponse::error(hdr, RESPONSE_ERROR_NOT_FOUND)
        },
        KeyFetchOutcome::Unavailable => {
            proof {
                assert(RESPONSE_ERROR_UNAVAILABLE@[1] != RESPONSE_SUCCESS@[1]);
            }
            GetKeyResponse::error(hdr, RESPONSE_ERROR_UNAVAILABLE)
        },
    }
}

} // verus!
