//! Byte-to-text helpers for the logging-oriented accessors: message
//! fields are opaque bytes, interpreted as text only for display.

use vstd::prelude::*;

verus! {

/// True when every byte is ASCII.
pub open spec fn is_ascii_bytes(s: Seq<u8>) -> bool {
    forall|i: int| 0 <= i < s.len() ==> s[i] < 128
}

/// The characters ASCII bytes stand for, one per byte.
pub open spec fn ascii_chars(s: Seq<u8>) -> Seq<char> {
    Seq::new(s.len(), |i: int| s[i] as char)
}

/// Relies on `String::from_utf8_lossy`: ASCII bytes are valid UTF-8 and
/// decode to themselves, one character per byte.  Non-ASCII input is
/// decoded with replacement characters, about which nothing is claimed.
#[verifier::external_body]
pub fn utf8_lossy(bytes: &[u8]) -> (r: String)
    ensures
        is_ascii_bytes(bytes@) ==> r@ == ascii_chars(bytes@),
{
    String::from_utf8_lossy(bytes).to_string()
}

} // verus!
