//! The two message variants of the protocol: a key request carrying an
//! opaque key id, and a key response carrying a response code and, on
//! success, the encrypted key material.

use vstd::prelude::*;

use crate::header::{
    MessageHeader, ParseError, MSGHDR_CMD_SIZE, MSGHDR_FMT_SIZE, MSGHDR_HDR_SIZE, MSGHDR_LEN_SIZE,
};
use crate::text;
use vstd::slice::{slice_subrange, slice_to_vec};

verus! {

/// Command code of a key request, ASCII `Z0`.
pub const CMD_GETKEY_REQUEST: [u8; 2] = [90, 48];

/// Command code of a key response, ASCII `Z1`.
pub const CMD_GETKEY_RESPONSE: [u8; 2] = [90, 49];

/// Response code of a successful key response, ASCII `00`.
pub const RESPONSE_SUCCESS: [u8; 2] = [48, 48];

/// Response code when the requested key is not known, ASCII `01`.
pub const RESPONSE_ERROR_NOT_FOUND: [u8; 2] = [48, 49];

/// Response code when the key store cannot be reached, ASCII `02`.
pub const RESPONSE_ERROR_UNAVAILABLE: [u8; 2] = [48, 50];

/// Mathematical model of a key request.
pub struct GetKeyRequestView {
    pub header: MessageHeader,
    pub key_id: Seq<u8>,
}

/// A request for key material, identified by an opaque byte string.
#[derive(Debug, Clone, PartialEq, Eq)]
pub struct GetKeyRequest {
    pub header: MessageHeader,
    pub key_id: Vec<u8>,
}

impl View for GetKeyRequest {
    type V = GetKeyRequestView;

    open spec fn view(&self) -> GetKeyRequestView {
        GetKeyRequestView { header: self.header, key_id: self.key_id@ }
    }
}

impl GetKeyRequestView {
    /// The request invariant: the command code is `Z0` and the header
    /// length is derived from the key id.
    pub open spec fn wf(self) -> bool {
        &&& self.header.cmd@ == CMD_GETKEY_REQUEST@
        &&& self.header.len == MSGHDR_HDR_SIZE + MSGHDR_CMD_SIZE + self.key_id.len()
    }

    /// The serialized request: header bytes followed by the key id.
    pub open spec fn spec_to_bytes(self) -> Seq<u8> {
        self.header.spec_to_bytes() + self.key_id
    }

    /// What parsing a buffer as a key request yields.
    pub open spec fn spec_parse(buffer: Seq<u8>) -> Result<GetKeyRequestView, ParseError> {
        match MessageHeader::spec_parse(buffer) {
            Err(e) => Err(e),
            Ok(header) => {
                if header.cmd@ != CMD_GETKEY_REQUEST@ {
                    Err(ParseError::WrongCommand)
                } else if buffer.len() < MSGHDR_LEN_SIZE + header.len {
                    Err(ParseError::BufferTooSmall)
                } else if header.len < MSGHDR_HDR_SIZE + MSGHDR_CMD_SIZE {
                    Err(ParseError::DeclaredLengthTooSmall)
                } else {
                    Ok(GetKeyRequestView {
                        header,
                        key_id: buffer.subrange(
                            MSGHDR_FMT_SIZE as int,
                            MSGHDR_LEN_SIZE + header.len as int,
                        ),
                    })
                }
            },
        }
    }
}

impl GetKeyRequest {
    /// Builds a request; the header length is derived from the key id.
    pub fn new(hdr: [u8; 4], key_id: Vec<u8>) -> (r: Self)
        requires
            key_id@.len() <= u16::MAX - MSGHDR_HDR_SIZE - MSGHDR_CMD_SIZE,
        ensures
            r@.wf(),
            r.header.hdr == hdr,
            r@.key_id == key_id@,
    {
        let header = MessageHeader::new(hdr, CMD_GETKEY_REQUEST, key_id.len());
        GetKeyRequest { header, key_id }
    }

    /// The key id rendered as text, for logging.
    pub fn key_id_str(&self) -> (r: String)
        ensures
            text::is_ascii_bytes(self.key_id@) ==> r@ == text::ascii_chars(self.key_id@),
    {
        text::utf8_lossy(self.key_id.as_slice())
    }

    /// Parses a buffer as a key request.
    pub fn parse(buffer: &[u8]) -> (r: Result<Self, ParseError>)
        ensures
            match r {
                Ok(m) => GetKeyRequestView::spec_parse(buffer@) == Ok::<
                    GetKeyRequestView,
                    ParseError,
                >(m@),
                Err(e) => GetKeyRequestView::spec_parse(buffer@) == Err::<
                    GetKeyRequestView,
                    ParseError,
                >(e),
            },
    {
        let header = match MessageHeader::parse(buffer) {
            Ok(h) => h,
            Err(e) => {
                return Err(e);
            },
        };
        if !header.is_cmd(&CMD_GETKEY_REQUEST) {
            return Err(ParseError::WrongCommand);
        }
        let expected_total = MSGHDR_LEN_SIZE + header.len as usize;
        if buffer.len() < expected_total {
            return Err(ParseError::BufferTooSmall);
        }
        if header.len < (MSGHDR_HDR_SIZE + MSGHDR_CMD_SIZE) as u16 {
            return Err(ParseError::DeclaredLengthTooSmall);
        }
        let key_id = slice_to_vec(slice_subrange(buffer, MSGHDR_FMT_SIZE, expected_total));
        Ok(GetKeyRequest { header, key_id })
    }

    /// Serializes the request: header bytes followed by the key id.
    pub fn to_bytes(&self) -> (r: Vec<u8>)
        ensures
            r@ == self@.spec_to_bytes(),
    {
        let mut result = self.header.to_bytes();
        result.extend_from_slice(self.key_id.as_slice());
        result
    }
}

/// Mathematical model of a key response.
pub struct GetKeyResponseView {
    pub header: MessageHeader,
    pub response_code: [u8; 2],
    pub encrypted_key: Option<Seq<u8>>,
}

/// A response to a key request: a two-byte code, and the encrypted key
/// material exactly when the code reports success.
#[derive(Debug, Clone, PartialEq, Eq)]
pub struct GetKeyResponse {
    pub header: MessageHeader,
    pub response_code: [u8; 2],
    pub encrypted_key: Option<Vec<u8>>,
}

impl View for GetKeyResponse {
    type V = GetKeyResponseView;

    open spec fn view(&self) -> GetKeyResponseView {
        GetKeyResponseView {
            header: self.header,
            response_code: self.response_code,
            encrypted_key: match self.encrypted_key {
                Some(k) => Some(k@),
                None => None,
            },
        }
    }
}

/// The number of payload bytes an optional key contributes.
pub open spec fn key_len_or_zero(k: Option<Seq<u8>>) -> int {
    match k {
        Some(s) => s.len() as int,
        None => 0,
    }
}

impl GetKeyResponseView {
    /// The response invariant: the command code is `Z1`, the key
    /// material is present exactly when the code reports success, and
    /// the header length is derived from the payload.
    pub open spec fn wf(self) -> bool {
        &&& self.header.cmd@ == CMD_GETKEY_RESPONSE@
        &&& (self.encrypted_key is Some <==> self.response_code@ == RESPONSE_SUCCESS@)
        &&& self.header.len == MSGHDR_HDR_SIZE + MSGHDR_CMD_SIZE + 2 + key_len_or_zero(
            self.encrypted_key,
        )
    }

    /// The serialized response: header bytes, response code, then the
    /// key material if any.
    pub open spec fn spec_to_bytes(self) -> Seq<u8> {
        self.header.spec_to_bytes() + self.response_code@ + (match self.encrypted_key {
            Some(k) => k,
            None => Seq::<u8>::empty(),
        })
    }

    /// What parsing a buffer as a key response yields.
    pub open spec fn spec_parse(buffer: Seq<u8>) -> Result<GetKeyResponseView, ParseError> {
        match MessageHeader::spec_parse(buffer) {
            Err(e) => Err(e),
            Ok(header) => {
                if header.cmd@ != CMD_GETKEY_RESPONSE@ {
                    Err(ParseError::WrongCommand)
                } else if buffer.len() < MSGHDR_LEN_SIZE + header.len {
                    Err(ParseError::BufferTooSmall)
                } else if header.len < MSGHDR_HDR_SIZE + MSGHDR_CMD_SIZE + 2 {
                    Err(ParseError::ResponsePayloadTooSmall)
                } else {
                    let response_code = [
                        buffer[MSGHDR_FMT_SIZE as int],
                        buffer[MSGHDR_FMT_SIZE + 1],
                    ];
                    if response_code@ == RESPONSE_SUCCESS@ {
                        Ok(GetKeyResponseView {
                            header,
                            response_code,
                            encrypted_key: Some(
                                buffer.subrange(
                                    MSGHDR_FMT_SIZE + 2,
                                    MSGHDR_LEN_SIZE + header.len as int,
                                ),
                            ),
                        })
                    } else if header.len > MSGHDR_HDR_SIZE + MSGHDR_CMD_SIZE + 2 {
                        Err(ParseError::UnexpectedResponsePayload)
                    } else {
                        Ok(GetKeyResponseView { header, response_code, encrypted_key: None })
                    }
                }
            },
        }
    }
}

impl GetKeyResponse {
    /// Builds a success response carrying the encrypted key material.
    pub fn success(hdr: [u8; 4], encrypted_key: Vec<u8>) -> (r: Self)
        requires
            encrypted_key@.len() <= u16::MAX - MSGHDR_HDR_SIZE - MSGHDR_CMD_SIZE - 2,
        ensures
            r@.wf(),
            r.header.hdr == hdr,
            r.response_code@ == RESPONSE_SUCCESS@,
            r@.encrypted_key == Some(encrypted_key@),
    {
        let data_length = 2 + encrypted_key.len();
        let header = MessageHeader::new(hdr, CMD_GETKEY_RESPONSE, data_length);
        let r = GetKeyResponse { header, response_code: RESPONSE_SUCCESS, encrypted_key: Some(encrypted_key) };
        proof {
            assert(r.response_code@ =~= RESPONSE_SUCCESS@);
        }
        r
    }

    /// Builds an error response; the code must not be the success code,
    /// and no key material is carried.
    pub fn error(hdr: [u8; 4], error_code: [u8; 2]) -> (r: Self)
        requires
            error_code@ != RESPONSE_SUCCESS@,
        ensures
            r@.wf(),
            r.header.hdr == hdr,
            r.response_code == error_code,
            r@.encrypted_key is None,
    {
        let data_length: usize = 2;
        let header = MessageHeader::new(hdr, CMD_GETKEY_RESPONSE, data_length);
        GetKeyResponse { header, response_code: error_code, encrypted_key: None }
    }

    /// True exactly when the response code reports success.
    pub fn is_success(&self) -> (r: bool)
        ensures
            r == (self.response_code@ == RESPONSE_SUCCESS@),
    {
        if self.response_code[0] == RESPONSE_SUCCESS[0] && self.response_code[1]
            == RESPONSE_SUCCESS[1] {
            proof {
                assert(self.response_code@ =~= RESPONSE_SUCCESS@);
            }
            true
        } else {
            false
        }
    }

    /// The response code rendered as text, for logging.
    pub fn response_code_str(&self) -> (r: String)
        ensures
            text::is_ascii_bytes(self.response_code@) ==> r@ == text::ascii_chars(
                self.response_code@,
            ),
    {
        text::utf8_lossy(self.response_code.as_slice())
    }

    /// Parses a buffer as a key response.
    pub fn parse(buffer: &[u8]) -> (r: Result<Self, ParseError>)
        ensures
            match r {
                Ok(m) => GetKeyResponseView::spec_parse(buffer@) == Ok::<
                    GetKeyResponseView,
                    ParseError,
                >(m@),
                Err(e) => GetKeyResponseView::spec_parse(buffer@) == Err::<
                    GetKeyResponseView,
                    ParseError,
                >(e),
            },
    {
        let header = match MessageHeader::parse(buffer) {
            Ok(h) => h,
            Err(e) => {
                return Err(e);
            },
        };
        if !header.is_cmd(&CMD_GETKEY_RESPONSE) {
            return Err(ParseError::WrongCommand);
        }
        let expected_total = MSGHDR_LEN_SIZE + header.len as usize;
        if buffer.len() < expected_total {
            return Err(ParseError::BufferTooSmall);
        }
        if header.len < (MSGHDR_HDR_SIZE + MSGHDR_CMD_SIZE + 2) as u16 {
            return Err(ParseError::ResponsePayloadTooSmall);
        }
        let response_code = [buffer[MSGHDR_FMT_SIZE], buffer[MSGHDR_FMT_SIZE + 1]];
        if response_code[0] == RESPONSE_SUCCESS[0] && response_code[1] == RESPONSE_SUCCESS[1] {
            proof {
                assert(response_code@ =~= RESPONSE_SUCCESS@);
            }
            let encrypted_key = slice_to_vec(
                slice_subrange(buffer, MSGHDR_FMT_SIZE + 2, expected_total),
            );
            Ok(GetKeyResponse { header, response_code, encrypted_key: Some(encrypted_key) })
        } else if header.len > (MSGHDR_HDR_SIZE + MSGHDR_CMD_SIZE + 2) as u16 {
            proof {
                assert(response_code@ != RESPONSE_SUCCESS@);
            }
            Err(ParseError::UnexpectedResponsePayload)
        } else {
            proof {
                assert(response_code@ != RESPONSE_SUCCESS@);
            }
            Ok(GetKeyResponse { header, response_code, encrypted_key: None })
        }
    }

    /// Serializes the response: header bytes, response code, then the
    /// key material if any.
    pub fn to_bytes(&self) -> (r: Vec<u8>)
        ensures
            r@ == self@.spec_to_bytes(),
    {
        let mut result = self.header.to_bytes();
        result.push(self.response_code[0]);
        result.push(self.response_code[1]);
        match &self.encrypted_key {
            Some(key) => {
                result.extend_from_slice(key.as_slice());
            },
            None => {},
        }
        proof {
            assert(result@ =~= self@.spec_to_bytes());
        }
        result
    }
}

/// Serializing a well-formed key response and parsing the bytes back
/// yields the same response.
pub proof fn lemma_response_roundtrip(m: GetKeyResponseView)
    requires
        m.wf(),
    ensures
        GetKeyResponseView::spec_parse(m.spec_to_bytes()) == Ok::<GetKeyResponseView, ParseError>(
            m,
        ),
{
    crate::header::lemma_header_roundtrip(m.header);
    let b = m.spec_to_bytes();
    let hb = m.header.spec_to_bytes();
    assert(hb.len() == MSGHDR_FMT_SIZE);
    assert(b.len() == MSGHDR_FMT_SIZE + 2 + key_len_or_zero(m.encrypted_key));
    assert(MessageHeader::spec_parse(b) == Ok::<MessageHeader, ParseError>(m.header)) by {
        assert(forall|i: int| 0 <= i < MSGHDR_FMT_SIZE ==> b[i] == hb[i]);
        assert(MessageHeader::spec_parse(hb) == Ok::<MessageHeader, ParseError>(m.header));
    }
    let code = [b[MSGHDR_FMT_SIZE as int], b[MSGHDR_FMT_SIZE + 1]];
    assert(code@ =~= m.response_code@);
    assert(code =~= m.response_code);
    match m.encrypted_key {
        Some(k) => {
            assert(code@ == RESPONSE_SUCCESS@);
            assert(b.subrange(MSGHDR_FMT_SIZE + 2, MSGHDR_LEN_SIZE + m.header.len as int) =~= k);
        },
        None => {
            assert(code@ != RESPONSE_SUCCESS@);
        },
    }
    assert(GetKeyResponseView::spec_parse(b) == Ok::<GetKeyResponseView, ParseError>(m));
}

/// Serializing a well-formed key request and parsing the bytes back
/// yields the same request.
pub proof fn lemma_request_roundtrip(m: GetKeyRequestView)
    requires
        m.wf(),
    ensures
        GetKeyRequestView::spec_parse(m.spec_to_bytes()) == Ok::<GetKeyRequestView, ParseError>(m),
{
    crate::header::lemma_header_roundtrip(m.header);
    let b = m.spec_to_bytes();
    let hb = m.header.spec_to_bytes();
    assert(hb.len() == MSGHDR_FMT_SIZE);
    assert(b.len() == MSGHDR_FMT_SIZE + m.key_id.len());
    assert(MessageHeader::spec_parse(b) == Ok::<MessageHeader, ParseError>(m.header)) by {
        assert(forall|i: int| 0 <= i < MSGHDR_FMT_SIZE ==> b[i] == hb[i]);
        assert(MessageHeader::spec_parse(hb) == Ok::<MessageHeader, ParseError>(m.header));
    }
    let r = GetKeyRequestView::spec_parse(b);
    assert(b.subrange(MSGHDR_FMT_SIZE as int, MSGHDR_LEN_SIZE + m.header.len as int) =~= m.key_id);
    assert(r == Ok::<GetKeyRequestView, ParseError>(m));
}

} // verus!
