//! The closed set of protocol messages, selected by the header's
//! command code.  Unknown command codes are a parse error, never a
//! silently coerced variant.

use vstd::prelude::*;

use crate::commands::{
    lemma_request_roundtrip, lemma_response_roundtrip, GetKeyRequest, GetKeyRequestView,
    GetKeyResponse, GetKeyResponseView, CMD_GETKEY_REQUEST, CMD_GETKEY_RESPONSE,
};
use crate::header::{MessageHeader, ParseError};
use crate::text;

verus! {

/// Mathematical model of a message.
pub enum MessageView {
    GetKeyRequest(GetKeyRequestView),
    GetKeyResponse(GetKeyResponseView),
}

/// A protocol message: either a key request or a key response.
#[derive(Debug, Clone, PartialEq, Eq)]
pub enum Message {
    GetKeyRequest(GetKeyRequest),
    GetKeyResponse(GetKeyResponse),
}

impl View for Message {
    type V = MessageView;

    open spec fn view(&self) -> MessageView {
        match self {
            Message::GetKeyRequest(req) => MessageView::GetKeyRequest(req@),
            Message::GetKeyResponse(resp) => MessageView::GetKeyResponse(resp@),
        }
    }
}

impl MessageView {
    /// The variant invariant of the message.
    pub open spec fn wf(self) -> bool {
        match self {
            MessageView::GetKeyRequest(req) => req.wf(),
            MessageView::GetKeyResponse(resp) => resp.wf(),
        }
    }

    /// The header of the message.
    pub open spec fn spec_header(self) -> MessageHeader {
        match self {
            MessageView::GetKeyRequest(req) => req.header,
            MessageView::GetKeyResponse(resp) => resp.header,
        }
    }

    /// The serialized message.
    pub open spec fn spec_to_bytes(self) -> Seq<u8> {
        match self {
            MessageView::GetKeyRequest(req) => req.spec_to_bytes(),
            MessageView::GetKeyResponse(resp) => resp.spec_to_bytes(),
        }
    }

    /// What parsing a buffer as a message yields: the variant selected
    /// by the command code, or `UnknownCommand` for any other code.
    pub open spec fn spec_parse(buffer: Seq<u8>) -> Result<MessageView, ParseError> {
        match MessageHeader::spec_parse(buffer) {
            Err(e) => Err(e),
            Ok(header) => {
                if header.cmd@ == CMD_GETKEY_REQUEST@ {
                    match GetKeyRequestView::spec_parse(buffer) {
                        Ok(req) => Ok(MessageView::GetKeyRequest(req)),
                        Err(e) => Err(e),
                    }
                } else if header.cmd@ == CMD_GETKEY_RESPONSE@ {
                    match GetKeyResponseView::spec_parse(buffer) {
                        Ok(resp) => Ok(MessageView::GetKeyResponse(resp)),
                        Err(e) => Err(e),
                    }
                } else {
                    Err(ParseError::UnknownCommand)
                }
            },
        }
    }
}

impl Message {
    /// Parses a buffer, dispatching on the command code in its header.
    pub fn parse(buffer: &[u8]) -> (r: Result<Self, ParseError>)
        ensures
            match r {
                Ok(m) => MessageView::spec_parse(buffer@) == Ok::<MessageView, ParseError>(m@),
                Err(e) => MessageView::spec_parse(buffer@) == Err::<MessageView, ParseError>(e),
            },
    {
        let header = match MessageHeader::parse(buffer) {
            Ok(h) => h,
            Err(e) => {
                return Err(e);
            },
        };
        if header.is_cmd(&CMD_GETKEY_REQUEST) {
            match GetKeyRequest::parse(buffer) {
                Ok(req) => Ok(Message::GetKeyRequest(req)),
                Err(e) => Err(e),
            }
        } else if header.is_cmd(&CMD_GETKEY_RESPONSE) {
            match GetKeyResponse::parse(buffer) {
                Ok(resp) => Ok(Message::GetKeyResponse(resp)),
                Err(e) => Err(e),
            }
        } else {
            Err(ParseError::UnknownCommand)
        }
    }

    /// Serializes the message.
    pub fn to_bytes(&self) -> (r: Vec<u8>)
        ensures
            r@ == self@.spec_to_bytes(),
    {
        match self {
            Message::GetKeyRequest(req) => req.to_bytes(),
            Message::GetKeyResponse(resp) => resp.to_bytes(),
        }
    }

    /// The command code of the message rendered as text, for logging.
    pub fn cmd(&self) -> (r: String)
        ensures
            text::is_ascii_bytes(self@.spec_header().cmd@) ==> r@ == text::ascii_chars(
                self@.spec_header().cmd@,
            ),
    {
        match self {
            Message::GetKeyRequest(req) => req.header.cmd_str(),
            Message::GetKeyResponse(resp) => resp.header.cmd_str(),
        }
    }
}

/// The round-trip law of the codec: serializing any well-formed message
/// and parsing the bytes back yields the same message.
pub proof fn lemma_message_roundtrip(m: MessageView)
    requires
        m.wf(),
    ensures
        MessageView::spec_parse(m.spec_to_bytes()) == Ok::<MessageView, ParseError>(m),
{
    match m {
        MessageView::GetKeyRequest(req) => {
            lemma_request_roundtrip(req);
        },
        MessageView::GetKeyResponse(resp) => {
            lemma_response_roundtrip(resp);
        },
    }
}

} // verus!
