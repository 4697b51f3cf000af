//! Fixed eight-byte message header: a big-endian two-byte length, a
//! four-byte correlation id, and a two-byte ASCII command code.  The
//! length field counts everything after itself: correlation, command,
//! and payload.

use vstd::prelude::*;

verus! {

/// Size of the length prefix on the wire.
pub const MSGHDR_LEN_SIZE: usize = 2;
/// Size of the correlation id.
pub const MSGHDR_HDR_SIZE: usize = 4;
/// Size of the command code.
pub const MSGHDR_CMD_SIZE: usize = 2;
/// Total size of the serialized header.
pub const MSGHDR_FMT_SIZE: usize = MSGHDR_LEN_SIZE + MSGHDR_HDR_SIZE + MSGHDR_CMD_SIZE;

/// Why a buffer failed to parse as a message.
#[derive(Debug, Clone, Copy, PartialEq, Eq, Structural)]
pub enum ParseError {
    /// Fewer than eight bytes available for the fixed header.
    HeaderTooShort,
    /// The declared length exceeds the bytes actually available.
    BufferTooSmall,
    /// The command code matches no known message variant.
    UnknownCommand,
    /// The command code is valid but not the one this parser expects.
    WrongCommand,
    /// A response payload is too short to hold the mandatory response code.
    ResponsePayloadTooSmall,
    /// The declared length does not even cover the correlation id and
    /// command code, so no payload length can be derived from it.
    DeclaredLengthTooSmall,
    /// A response with an error code carries bytes beyond the code,
    /// which only a success response may do.
    UnexpectedResponsePayload,
}

/// The value of a big-endian pair of bytes.
pub open spec fn be16(b0: u8, b1: u8) -> int {
    b0 * 256 + b1
}

#[derive(Debug, Clone, PartialEq, Eq)]
pub struct MessageHeader {
    pub len: u16,
    pub hdr: [u8; 4],
    pub cmd: [u8; 2],
}

impl MessageHeader {
    /// The header invariant: `len` covers at least the correlation id and
    /// the command code, so the payload length `len - 6` is well defined.
    pub open spec fn wf(self) -> bool {
        self.len >= MSGHDR_HDR_SIZE + MSGHDR_CMD_SIZE
    }

    /// The payload length this header declares.
    pub open spec fn spec_data_length(self) -> int {
        self.len - MSGHDR_HDR_SIZE - MSGHDR_CMD_SIZE
    }

    /// The eight serialized header bytes.
    pub open spec fn spec_to_bytes(self) -> Seq<u8> {
        seq![(self.len / 256) as u8, (self.len % 256) as u8] + self.hdr@ + self.cmd@
    }

    /// What parsing a buffer yields: the first eight bytes read as
    /// length, correlation id and command, or `HeaderTooShort`.
    pub open spec fn spec_parse(buffer: Seq<u8>) -> Result<MessageHeader, ParseError> {
        if buffer.len() < MSGHDR_FMT_SIZE {
            Err(ParseError::HeaderTooShort)
        } else {
            Ok(MessageHeader {
                len: be16(buffer[0], buffer[1]) as u16,
                hdr: [buffer[2], buffer[3], buffer[4], buffer[5]],
                cmd: [buffer[6], buffer[7]],
            })
        }
    }

    /// Builds a header for a payload of `data_length` bytes; the length
    /// field is always derived, never supplied by the caller.
    pub fn new(hdr: [u8; 4], cmd: [u8; 2], data_length: usize) -> (r: Self)
        requires
            data_length <= u16::MAX - MSGHDR_HDR_SIZE - MSGHDR_CMD_SIZE,
        ensures
            r.len == MSGHDR_HDR_SIZE + MSGHDR_CMD_SIZE + data_length,
            r.hdr == hdr,
            r.cmd == cmd,
            r.wf(),
    {
        let len = (MSGHDR_HDR_SIZE + MSGHDR_CMD_SIZE + data_length) as u16;
        MessageHeader { len, hdr, cmd }
    }

    /// True exactly when this header carries the given command code.
    pub fn is_cmd(&self, cmd: &[u8; 2]) -> (r: bool)
        ensures
            r == (self.cmd@ == cmd@),
    {
        if self.cmd[0] == cmd[0] && self.cmd[1] == cmd[1] {
            proof {
                assert(self.cmd@ =~= cmd@);
            }
            true
        } else {
            false
        }
    }

    /// The command code rendered as text, for logging.
    pub fn cmd_str(&self) -> (r: String)
        ensures
            crate::text::is_ascii_bytes(self.cmd@) ==> r@ == crate::text::ascii_chars(self.cmd@),
    {
        crate::text::utf8_lossy(self.cmd.as_slice())
    }

    /// The payload length this header declares.
    pub fn data_length(&self) -> (r: usize)
        requires
            self.wf(),
        ensures
            r == self.spec_data_length(),
    {
        self.len as usize - MSGHDR_HDR_SIZE - MSGHDR_CMD_SIZE
    }

    /// Reads the fixed eight-byte header prefix of `buffer`.
    pub fn parse(buffer: &[u8]) -> (r: Result<Self, ParseError>)
        ensures
            r == Self::spec_parse(buffer@),
    {
        if buffer.len() < MSGHDR_FMT_SIZE {
            return Err(ParseError::HeaderTooShort);
        }
        let len = (buffer[0] as u16) * 256 + (buffer[1] as u16);
        let hdr = [buffer[2], buffer[3], buffer[4], buffer[5]];
        let cmd = [buffer[6], buffer[7]];
        Ok(MessageHeader { len, hdr, cmd })
    }

    /// Serializes the header into its eight wire bytes.
    pub fn to_bytes(&self) -> (r: Vec<u8>)
        ensures
            r@ == self.spec_to_bytes(),
    {
        let mut result: Vec<u8> = Vec::new();
        result.push((self.len / 256) as u8);
        result.push((self.len % 256) as u8);
        result.push(self.hdr[0]);
        result.push(self.hdr[1]);
        result.push(self.hdr[2]);
        result.push(self.hdr[3]);
        result.push(self.cmd[0]);
        result.push(self.cmd[1]);
        proof {
            assert(result@ =~= self.spec_to_bytes());
        }
        result
    }
}

/// Serializing a well-formed header and parsing the bytes back yields
/// the same header.
pub proof fn lemma_header_roundtrip(h: MessageHeader)
    ensures
        MessageHeader::spec_parse(h.spec_to_bytes()) == Ok::<MessageHeader, ParseError>(h),
{
    let b = h.spec_to_bytes();
    assert(b.len() == MSGHDR_FMT_SIZE);
    assert(be16(b[0], b[1]) == h.len) by {
        assert(b[0] == (h.len / 256) as u8);
        assert(b[1] == (h.len % 256) as u8);
        assert(h.len / 256 * 256 + h.len % 256 == h.len) by (nonlinear_arith);
    }
    let p = MessageHeader::spec_parse(b);
    assert(p is Ok);
    let g = p->Ok_0;
    assert(g.hdr =~= h.hdr);
    assert(g.cmd =~= h.cmd);
}

} // verus!
