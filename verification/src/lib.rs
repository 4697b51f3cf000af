//! Communication and cryptographic core of a split-trust key-release
//! service: a length-prefixed binary message codec, a partial-I/O framing
//! engine with timeout and cancellation decisions, and a DES-based
//! card-verification-value engine.

pub mod commands;
pub mod connection;
pub mod cvv;
pub mod frame_io;
pub mod header;
pub mod hexdump;
pub mod io_result;
pub mod message;
pub mod text;
pub mod transport;

pub use commands::{GetKeyRequest, GetKeyResponse};
pub use cvv::Cvv;
pub use header::MessageHeader;
pub use hexdump::{hexdump, hexdump_cols, hexdump_no_ascii, hexdump_string};
pub use io_result::IoResult;
pub use message::Message;
