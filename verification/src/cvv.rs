//! Card-verification-value engine: two DES-family keys bound at
//! construction, and a pure computation from card number, expiry and
//! service code to a three-digit decimal string.

use vstd::prelude::*;

use des::cipher::{Array, BlockCipherDecrypt, BlockCipherEncrypt, KeyInit};
use des::{Des, TdesEde2, TdesEde3};
use vstd::string::{StrSliceExecFns, StringExecFns};

verus! {

/// Why a key failed to decode or a computation failed.
#[derive(Debug, Clone, Copy, PartialEq, Eq, Structural)]
pub enum CvvError {
    /// A key string or an input half is not well-formed hexadecimal.
    HexDecode,
    /// Decoded key material is not 8, 16 or 24 bytes long.
    InvalidKeyLength,
    /// Card number, expiry and service code together exceed 32 digits.
    InputTooLong,
}

/// True for the sixteen hexadecimal digit characters, either case.
pub open spec fn is_hex_digit(c: char) -> bool {
    (48 <= c as u32 && c as u32 <= 57) || (97 <= c as u32 && c as u32 <= 102) || (65 <= c as u32
        && c as u32 <= 70)
}

/// The value of one hexadecimal digit character.
pub open spec fn hex_digit_val(c: char) -> int {
    if 48 <= c as u32 && c as u32 <= 57 {
        c as u32 - 48
    } else if 97 <= c as u32 && c as u32 <= 102 {
        c as u32 - 87
    } else {
        c as u32 - 55
    }
}

/// True when every character is a hexadecimal digit.
pub open spec fn all_hex_digits(s: Seq<char>) -> bool {
    forall|i: int| 0 <= i < s.len() ==> is_hex_digit(s[i])
}

/// True when a string is decodable hexadecimal: an even number of
/// characters, all of them digits.
pub open spec fn hex_decodable(s: Seq<char>) -> bool {
    s.len() % 2 == 0 && all_hex_digits(s)
}

/// The bytes a hexadecimal string decodes to, two digits per byte.
pub open spec fn hex_decoded(s: Seq<char>) -> Seq<u8> {
    Seq::new((s.len() / 2) as nat, |i: int| (hex_digit_val(s[2 * i]) * 16 + hex_digit_val(s[2 * i + 1])) as u8)
}

/// Decodes one hexadecimal digit character, either case.
fn hex_digit_value(c: char) -> (r: Option<u8>)
    ensures
        match r {
            Some(v) => is_hex_digit(c) && v == hex_digit_val(c),
            None => !is_hex_digit(c),
        },
{
    let u = c as u32;
    if 48 <= u && u <= 57 {
        Some((u - 48) as u8)
    } else if 97 <= u && u <= 102 {
        Some((u - 87) as u8)
    } else if 65 <= u && u <= 70 {
        Some((u - 55) as u8)
    } else {
        None
    }
}

/// Decodes a hexadecimal string, two digits per byte; an odd digit
/// count or a character that is no hexadecimal digit is an error, and
/// nothing else is.
fn hex_decode(s: &str) -> (r: Option<Vec<u8>>)
    ensures
        match r {
            Some(v) => hex_decodable(s@) && v@ == hex_decoded(s@),
            None => !hex_decodable(s@),
        },
{
    let n = s.unicode_len();
    if n % 2 != 0 {
        return None;
    }
    let mut out: Vec<u8> = Vec::new();
    let mut i: usize = 0;
    while i < n
        invariant
            n == s@.len(),
            n % 2 == 0,
            i % 2 == 0,
            i <= n,
            forall|j: int| 0 <= j < i ==> is_hex_digit(#[trigger] s@[j]),
            out@ == hex_decoded(s@.take(i as int)),
        decreases n - i,
    {
        proof {
            assert(i + 1 < n);
        }
        let c1 = s.get_char(i);
        let c2 = s.get_char(i + 1);
        let v1 = match hex_digit_value(c1) {
            Some(v) => v,
            None => {
                proof {
                    assert(!is_hex_digit(s@[i as int]));
                }
                return None;
            },
        };
        let v2 = match hex_digit_value(c2) {
            Some(v) => v,
            None => {
                proof {
                    assert(!is_hex_digit(s@[i as int + 1]));
                }
                return None;
            },
        };
        out.push(v1 * 16 + v2);
        proof {
            assert(out@ =~= hex_decoded(s@.take(i as int + 2)));
        }
        i = i + 2;
    }
    proof {
        assert(s@.take(n as int) =~= s@);
    }
    Some(out)
}

/// What single-DES encryption of an 8-byte block returns; a function of
/// key and block alone.
pub uninterp spec fn spec_des_encrypt(key: Seq<u8>, block: Seq<u8>) -> Seq<u8>;

/// What single-DES decryption returns.
pub uninterp spec fn spec_des_decrypt(key: Seq<u8>, block: Seq<u8>) -> Seq<u8>;

/// What two-key triple-DES encryption returns.
pub uninterp spec fn spec_tdes2_encrypt(key: Seq<u8>, block: Seq<u8>) -> Seq<u8>;

/// What two-key triple-DES decryption returns.
pub uninterp spec fn spec_tdes2_decrypt(key: Seq<u8>, block: Seq<u8>) -> Seq<u8>;

/// What three-key triple-DES encryption returns.
pub uninterp spec fn spec_tdes3_encrypt(key: Seq<u8>, block: Seq<u8>) -> Seq<u8>;

/// What three-key triple-DES decryption returns.
pub uninterp spec fn spec_tdes3_decrypt(key: Seq<u8>, block: Seq<u8>) -> Seq<u8>;

/// Relies on `des::Des` with `cipher::BlockCipherEncrypt::encrypt_block`:
/// single-DES encryption of one block.
#[verifier::external_body]
fn des_encrypt_block(key: &[u8; 8], block: &[u8; 8]) -> (r: [u8; 8])
    ensures
        r@ == spec_des_encrypt(key@, block@),
{
    let cipher = Des::new(&Array::from(*key));
    let mut b = Array::from(*block);
    cipher.encrypt_block(&mut b);
    b.into()
}

/// Relies on `des::Des` with `cipher::BlockCipherDecrypt::decrypt_block`:
/// single-DES decryption of one block.
#[verifier::external_body]
fn des_decrypt_block(key: &[u8; 8], block: &[u8; 8]) -> (r: [u8; 8])
    ensures
        r@ == spec_des_decrypt(key@, block@),
{
    let cipher = Des::new(&Array::from(*key));
    let mut b = Array::from(*block);
    cipher.decrypt_block(&mut b);
    b.into()
}

/// Relies on `des::TdesEde2` with `cipher::BlockCipherEncrypt::encrypt_block`:
/// two-key triple-DES encryption of one block.
#[verifier::external_body]
fn tdes2_encrypt_block(key: &[u8; 16], block: &[u8; 8]) -> (r: [u8; 8])
    ensures
        r@ == spec_tdes2_encrypt(key@, block@),
{
    let cipher = TdesEde2::new(&Array::from(*key));
    let mut b = Array::from(*block);
    cipher.encrypt_block(&mut b);
    b.into()
}

/// Relies on `des::TdesEde2` with `cipher::BlockCipherDecrypt::decrypt_block`:
/// two-key triple-DES decryption of one block.
#[verifier::external_body]
fn tdes2_decrypt_block(key: &[u8; 16], block: &[u8; 8]) -> (r: [u8; 8])
    ensures
        r@ == spec_tdes2_decrypt(key@, block@),
{
    let cipher = TdesEde2::new(&Array::from(*key));
    let mut b = Array::from(*block);
    cipher.decrypt_block(&mut b);
    b.into()
}

/// Relies on `des::TdesEde3` with `cipher::BlockCipherEncrypt::encrypt_block`:
/// three-key triple-DES encryption of one block.
#[verifier::external_body]
fn tdes3_encrypt_block(key: &[u8; 24], block: &[u8; 8]) -> (r: [u8; 8])
    ensures
        r@ == spec_tdes3_encrypt(key@, block@),
{
    let cipher = TdesEde3::new(&Array::from(*key));
    let mut b = Array::from(*block);
    cipher.encrypt_block(&mut b);
    b.into()
}

/// Relies on `des::TdesEde3` with `cipher::BlockCipherDecrypt::decrypt_block`:
/// three-key triple-DES decryption of one block.
#[verifier::external_body]
fn tdes3_decrypt_block(key: &[u8; 24], block: &[u8; 8]) -> (r: [u8; 8])
    ensures
        r@ == spec_tdes3_decrypt(key@, block@),
{
    let cipher = TdesEde3::new(&Array::from(*key));
    let mut b = Array::from(*block);
    cipher.decrypt_block(&mut b);
    b.into()
}

/// A DES-family key, chosen solely by decoded key-material length.
#[derive(Debug)]
enum DesKey {
    Single([u8; 8]),
    Double([u8; 16]),
    Triple([u8; 24]),
}

impl DesKey {
    /// The raw key material.
    spec fn key_bytes(self) -> Seq<u8> {
        match self {
            DesKey::Single(k) => k@,
            DesKey::Double(k) => k@,
            DesKey::Triple(k) => k@,
        }
    }

    /// What encrypting a block under this key returns.
    spec fn spec_encrypt(self, block: Seq<u8>) -> Seq<u8> {
        match self {
            DesKey::Single(k) => spec_des_encrypt(k@, block),
            DesKey::Double(k) => spec_tdes2_encrypt(k@, block),
            DesKey::Triple(k) => spec_tdes3_encrypt(k@, block),
        }
    }

    /// What decrypting a block under this key returns.
    spec fn spec_decrypt(self, block: Seq<u8>) -> Seq<u8> {
        match self {
            DesKey::Single(k) => spec_des_decrypt(k@, block),
            DesKey::Double(k) => spec_tdes2_decrypt(k@, block),
            DesKey::Triple(k) => spec_tdes3_decrypt(k@, block),
        }
    }

    /// Decodes hexadecimal key material; only 8, 16 or 24 decoded bytes
    /// make a key.
    #[verifier::rlimit(100)]
    fn from_hex(key_hex: &str) -> (r: Result<Self, CvvError>)
        ensures
            match r {
                Ok(k) => hex_decodable(key_hex@) && k.key_bytes() == hex_decoded(key_hex@) && (
                key_hex@.len() == 16 || key_hex@.len() == 32 || key_hex@.len() == 48),
                Err(e) => if !hex_decodable(key_hex@) {
                    e == CvvError::HexDecode
                } else {
                    e == CvvError::InvalidKeyLength && !(key_hex@.len() == 16 || key_hex@.len()
                        == 32 || key_hex@.len() == 48)
                },
            },
    {
        let key_bytes = match hex_decode(key_hex) {
            Some(b) => b,
            None => {
                return Err(CvvError::HexDecode);
            },
        };
        if key_bytes.len() == 8 {
            let k = [
                key_bytes[0],
                key_bytes[1],
                key_bytes[2],
                key_bytes[3],
                key_bytes[4],
                key_bytes[5],
                key_bytes[6],
                key_bytes[7],
            ];
            proof {
                assert(k@ =~= key_bytes@);
            }
            Ok(DesKey::Single(k))
        } else if key_bytes.len() == 16 {
            let k = [
                key_bytes[0],
                key_bytes[1],
                key_bytes[2],
                key_bytes[3],
                key_bytes[4],
                key_bytes[5],
                key_bytes[6],
                key_bytes[7],
                key_bytes[8],
                key_bytes[9],
                key_bytes[10],
                key_bytes[11],
                key_bytes[12],
                key_bytes[13],
                key_bytes[14],
                key_bytes[15],
            ];
            proof {
                assert(k@ =~= key_bytes@);
            }
            Ok(DesKey::Double(k))
        } else if key_bytes.len() == 24 {
            let k = [
                key_bytes[0],
                key_bytes[1],
                key_bytes[2],
                key_bytes[3],
                key_bytes[4],
                key_bytes[5],
                key_bytes[6],
                key_bytes[7],
                key_bytes[8],
                key_bytes[9],
                key_bytes[10],
                key_bytes[11],
                key_bytes[12],
                key_bytes[13],
                key_bytes[14],
                key_bytes[15],
                key_bytes[16],
                key_bytes[17],
                key_bytes[18],
                key_bytes[19],
                key_bytes[20],
                key_bytes[21],
                key_bytes[22],
                key_bytes[23],
            ];
            proof {
                assert(k@ =~= key_bytes@);
            }
            Ok(DesKey::Triple(k))
        } else {
            Err(CvvError::InvalidKeyLength)
        }
    }

    /// Encrypts one 8-byte block under this key.
    fn encrypt(&self, block: &[u8; 8]) -> (r: [u8; 8])
        ensures
            r@ == self.spec_encrypt(block@),
    {
        match self {
            DesKey::Single(key) => des_encrypt_block(key, block),
            DesKey::Double(key) => tdes2_encrypt_block(key, block),
            DesKey::Triple(key) => tdes3_encrypt_block(key, block),
        }
    }

    /// Decrypts one 8-byte block under this key.
    fn decrypt(&self, block: &[u8; 8]) -> (r: [u8; 8])
        ensures
            r@ == self.spec_decrypt(block@),
    {
        match self {
            DesKey::Single(key) => des_decrypt_block(key, block),
            DesKey::Double(key) => tdes2_decrypt_block(key, block),
            DesKey::Triple(key) => tdes3_decrypt_block(key, block),
        }
    }
}

/// True when a string is hexadecimal key material of a valid length:
/// 16, 32 or 48 digits, decoding to 8, 16 or 24 bytes.
pub open spec fn valid_key_hex(s: Seq<char>) -> bool {
    all_hex_digits(s) && (s.len() == 16 || s.len() == 32 || s.len() == 48)
}

/// The 32-digit input block: card number, expiry and service code
/// concatenated, right-padded with `0` when shorter than 32.
pub open spec fn padded_block(pan: Seq<char>, exp: Seq<char>, sc: Seq<char>) -> Seq<char> {
    let s = pan + exp + sc;
    if s.len() >= 32 {
        s
    } else {
        s + Seq::new((32 - s.len()) as nat, |i: int| '0')
    }
}

/// Byte-wise exclusive or of two equally long byte strings.
pub open spec fn xor_bytes(a: Seq<u8>, b: Seq<u8>) -> Seq<u8> {
    Seq::new(a.len(), |i: int| a[i] ^ b[i])
}

/// The decimal digits one byte contributes: each nibble of value 0 to 9,
/// as an ASCII digit, high nibble first.
pub open spec fn digit_part(b: u8) -> Seq<u8> {
    let h = b / 16;
    let l = b % 16;
    (if h <= 9 {
        seq![(h + 48) as u8]
    } else {
        Seq::<u8>::empty()
    }) + (if l <= 9 {
        seq![(l + 48) as u8]
    } else {
        Seq::<u8>::empty()
    })
}

/// The remainder digits one byte contributes: each nibble of value 10
/// to 15, reduced by ten, as an ASCII digit, high nibble first.
pub open spec fn remainder_part(b: u8) -> Seq<u8> {
    let h = b / 16;
    let l = b % 16;
    (if h > 9 {
        seq![(h + 38) as u8]
    } else {
        Seq::<u8>::empty()
    }) + (if l > 9 {
        seq![(l + 38) as u8]
    } else {
        Seq::<u8>::empty()
    })
}

/// All decimal digits the bytes contribute, in encounter order.
pub open spec fn digits_of(s: Seq<u8>) -> Seq<u8>
    decreases s.len(),
{
    if s.len() == 0 {
        Seq::empty()
    } else {
        digits_of(s.drop_last()) + digit_part(s.last())
    }
}

/// All remainder digits the bytes contribute, in encounter order.
pub open spec fn remainder_of(s: Seq<u8>) -> Seq<u8>
    decreases s.len(),
{
    if s.len() == 0 {
        Seq::empty()
    } else {
        remainder_of(s.drop_last()) + remainder_part(s.last())
    }
}

/// The decimalization of a byte string: its decimal digits followed by
/// its remainder digits.
pub open spec fn decimalized(s: Seq<u8>) -> Seq<u8> {
    digits_of(s) + remainder_of(s)
}

/// Each byte contributes two digits in all, so the decimalization of a
/// byte string is twice as long as the string.
pub proof fn lemma_decimalized_len(s: Seq<u8>)
    ensures
        digits_of(s).len() + remainder_of(s).len() == 2 * s.len(),
    decreases s.len(),
{
    if s.len() > 0 {
        lemma_decimalized_len(s.drop_last());
    }
}

/// True for the ten decimal digit characters.
pub open spec fn is_decimal_digit(c: char) -> bool {
    48 <= c as u32 && c as u32 <= 57
}

/// Every byte of the decimal accumulator is an ASCII decimal digit.
pub proof fn lemma_digits_of_range(s: Seq<u8>)
    ensures
        forall|i: int| 0 <= i < digits_of(s).len() ==> 48 <= #[trigger] digits_of(s)[i] <= 57,
    decreases s.len(),
{
    if s.len() > 0 {
        lemma_digits_of_range(s.drop_last());
        let pre = digits_of(s.drop_last());
        let part = digit_part(s.last());
        assert forall|i: int| 0 <= i < digits_of(s).len() implies 48 <= #[trigger] digits_of(
            s,
        )[i] <= 57 by {
            if i < pre.len() {
                assert(digits_of(s)[i] == pre[i]);
            } else {
                assert(digits_of(s)[i] == part[i - pre.len()]);
            }
        }
    }
}

/// Every byte of the remainder accumulator is an ASCII decimal digit:
/// nibble values ten to fifteen map to the digits zero to five.
pub proof fn lemma_remainder_of_range(s: Seq<u8>)
    ensures
        forall|i: int| 0 <= i < remainder_of(s).len() ==> 48 <= #[trigger] remainder_of(s)[i]
            <= 53,
    decreases s.len(),
{
    if s.len() > 0 {
        lemma_remainder_of_range(s.drop_last());
        let pre = remainder_of(s.drop_last());
        let part = remainder_part(s.last());
        assert forall|i: int| 0 <= i < remainder_of(s).len() implies 48 <= #[trigger] remainder_of(
            s,
        )[i] <= 53 by {
            if i < pre.len() {
                assert(remainder_of(s)[i] == pre[i]);
            } else {
                assert(remainder_of(s)[i] == part[i - pre.len()]);
            }
        }
    }
}

/// The card-verification-value engine: two DES-family keys bound at
/// construction, read-only afterwards.
#[derive(Debug)]
pub struct Cvv {
    cvk_a: DesKey,
    cvk_b: DesKey,
}

impl Cvv {
    /// The key material of verification key A.
    pub closed spec fn cvk_a_bytes(self) -> Seq<u8> {
        self.cvk_a.key_bytes()
    }

    /// The key material of verification key B.
    pub closed spec fn cvk_b_bytes(self) -> Seq<u8> {
        self.cvk_b.key_bytes()
    }

    /// The cipher chain over the two 8-byte halves of the input block:
    /// encrypt, mix with the second half, encrypt, decrypt under key B,
    /// encrypt again.
    pub closed spec fn spec_cipher_chain(self, b1: Seq<u8>, b2: Seq<u8>) -> Seq<u8> {
        let e1 = self.cvk_a.spec_encrypt(b1);
        let m1 = xor_bytes(e1, b2);
        let e2 = self.cvk_a.spec_encrypt(m1);
        let e3 = self.cvk_b.spec_decrypt(e2);
        self.cvk_a.spec_encrypt(e3)
    }

    /// The three-digit value computed from the keys and the inputs.
    pub closed spec fn spec_calculate(self, pan: Seq<char>, exp: Seq<char>, sc: Seq<char>) -> Seq<
        char,
    > {
        let block = padded_block(pan, exp, sc);
        let b1 = hex_decoded(block.take(16));
        let b2 = hex_decoded(block.subrange(16, 32));
        crate::text::ascii_chars(decimalized(self.spec_cipher_chain(b1, b2)).take(3))
    }

    /// True when a candidate equals the computed value.
    pub closed spec fn spec_matches(
        self,
        pan: Seq<char>,
        exp: Seq<char>,
        sc: Seq<char>,
        candidate: Seq<char>,
    ) -> bool {
        candidate == self.spec_calculate(pan, exp, sc)
    }

    /// Decodes the two hexadecimal key strings independently; each must
    /// decode to 8, 16 or 24 bytes.
    pub fn new(cvk_a: &str, cvk_b: &str) -> (r: Result<Self, CvvError>)
        ensures
            match r {
                Ok(c) => valid_key_hex(cvk_a@) && valid_key_hex(cvk_b@) && c.cvk_a_bytes()
                    == hex_decoded(cvk_a@) && c.cvk_b_bytes() == hex_decoded(cvk_b@),
                Err(e) => !(valid_key_hex(cvk_a@) && valid_key_hex(cvk_b@)) && e == (
                if !hex_decodable(cvk_a@) {
                    CvvError::HexDecode
                } else if !(cvk_a@.len() == 16 || cvk_a@.len() == 32 || cvk_a@.len() == 48) {
                    CvvError::InvalidKeyLength
                } else if !hex_decodable(cvk_b@) {
                    CvvError::HexDecode
                } else {
                    CvvError::InvalidKeyLength
                }),
            },
    {
        let cvk_a = match DesKey::from_hex(cvk_a) {
            Ok(k) => k,
            Err(e) => {
                return Err(e);
            },
        };
        let cvk_b = match DesKey::from_hex(cvk_b) {
            Ok(k) => k,
            Err(e) => {
                return Err(e);
            },
        };
        Ok(Cvv { cvk_a, cvk_b })
    }

    /// Computes the three-digit verification value from card number,
    /// expiry and service code: a pure function of the two keys and the
    /// three inputs.
    pub fn calculate(&self, pan: &str, expired_date: &str, service_code: &str) -> (r: Result<
        String,
        CvvError,
    >)
        ensures
            match r {
                Ok(cvv) => pan@.len() + expired_date@.len() + service_code@.len() <= 32
                    && all_hex_digits(padded_block(pan@, expired_date@, service_code@)) && cvv@
                    == self.spec_calculate(pan@, expired_date@, service_code@) && cvv@.len() == 3
                    && (forall|i: int| 0 <= i < cvv@.len() ==> is_decimal_digit(#[trigger] cvv@[i])),
                Err(e) => if pan@.len() + expired_date@.len() + service_code@.len() > 32 {
                    e == CvvError::InputTooLong
                } else {
                    e == CvvError::HexDecode && !all_hex_digits(
                        padded_block(pan@, expired_date@, service_code@),
                    )
                },
            },
    {
        let ghost cat = pan@ + expired_date@ + service_code@;
        let ghost padded = padded_block(pan@, expired_date@, service_code@);
        let mut block = String::new();
        block.append(pan);
        block.append(expired_date);
        block.append(service_code);
        proof {
            assert(block@ =~= cat);
        }
        let mut n = block.as_str().unicode_len();
        if n > 32 {
            return Err(CvvError::InputTooLong);
        }
        proof {
            assert(block@ =~= cat + Seq::new((n - cat.len()) as nat, |i: int| '0'));
        }
        while n < 32
            invariant
                n == block@.len(),
                cat.len() <= n <= 32,
                block@ == cat + Seq::new((n - cat.len()) as nat, |i: int| '0'),
            decreases 32 - n,
        {
            block.append("0");
            proof {
                reveal_strlit("0");
                assert(block@ =~= cat + Seq::new((n + 1 - cat.len()) as nat, |i: int| '0'));
            }
            n = n + 1;
        }
        proof {
            assert(block@ =~= padded);
        }
        let bs = block.as_str();
        let half1 = bs.substring_char(0, 16);
        let half2 = bs.substring_char(16, 32);
        proof {
            assert(half1@ =~= padded.take(16));
            assert(half2@ =~= padded.subrange(16, 32));
        }
        let v1 = match hex_decode(half1) {
            Some(v) => v,
            None => {
                proof {
                    let i = choose|i: int| 0 <= i < half1@.len() && !is_hex_digit(half1@[i]);
                    assert(!is_hex_digit(padded[i]));
                }
                return Err(CvvError::HexDecode);
            },
        };
        let v2 = match hex_decode(half2) {
            Some(v) => v,
            None => {
                proof {
                    let i = choose|i: int| 0 <= i < half2@.len() && !is_hex_digit(half2@[i]);
                    assert(!is_hex_digit(padded[i + 16]));
                }
                return Err(CvvError::HexDecode);
            },
        };
        let block1_bytes = [v1[0], v1[1], v1[2], v1[3], v1[4], v1[5], v1[6], v1[7]];
        let block2_bytes = [v2[0], v2[1], v2[2], v2[3], v2[4], v2[5], v2[6], v2[7]];
        proof {
            assert(block1_bytes@ =~= v1@);
            assert(block2_bytes@ =~= v2@);
        }
        let e1 = self.cvk_a.encrypt(&block1_bytes);
        let m1 = [
            e1[0] ^ block2_bytes[0],
            e1[1] ^ block2_bytes[1],
            e1[2] ^ block2_bytes[2],
            e1[3] ^ block2_bytes[3],
            e1[4] ^ block2_bytes[4],
            e1[5] ^ block2_bytes[5],
            e1[6] ^ block2_bytes[6],
            e1[7] ^ block2_bytes[7],
        ];
        proof {
            assert(m1@ =~= xor_bytes(e1@, block2_bytes@));
        }
        let e2 = self.cvk_a.encrypt(&m1);
        let e3 = self.cvk_b.decrypt(&e2);
        let ef = self.cvk_a.encrypt(&e3);
        proof {
            assert(ef@ == self.spec_cipher_chain(v1@, v2@));
        }
        let mut digits: Vec<u8> = Vec::new();
        let mut remainder: Vec<u8> = Vec::new();
        let mut i: usize = 0;
        while i < 8
            invariant
                0 <= i <= 8,
                digits@ == digits_of(ef@.take(i as int)),
                remainder@ == remainder_of(ef@.take(i as int)),
                forall|j: int| 0 <= j < digits@.len() ==> digits@[j] < 128,
                forall|j: int| 0 <= j < remainder@.len() ==> remainder@[j] < 128,
            decreases 8 - i,
        {
            let ghost pre = ef@.take(i as int);
            let b = ef[i];
            let h = b / 16;
            let l = b % 16;
            if h <= 9 {
                digits.push(h + 48);
            } else {
                remainder.push(h + 38);
            }
            if l <= 9 {
                digits.push(l + 48);
            } else {
                remainder.push(l + 38);
            }
            proof {
                let post = ef@.take(i as int + 1);
                assert(post.drop_last() =~= pre);
                assert(post.last() == ef@[i as int]);
                assert(digits@ =~= digits_of(pre) + digit_part(ef@[i as int]));
                assert(remainder@ =~= remainder_of(pre) + remainder_part(ef@[i as int]));
            }
            i = i + 1;
        }
        proof {
            assert(ef@.take(8) =~= ef@);
            lemma_decimalized_len(ef@);
        }
        let mut out = digits;
        out.append(&mut remainder);
        proof {
            assert(out@ == decimalized(ef@));
            assert(out@.len() == 16);
        }
        out.truncate(3);
        let cvv = crate::text::utf8_lossy(out.as_slice());
        proof {
            assert(crate::text::is_ascii_bytes(out@));
            assert(all_hex_digits(padded)) by {
                assert forall|j: int| 0 <= j < padded.len() implies is_hex_digit(padded[j]) by {
                    if j < 16 {
                        assert(padded[j] == half1@[j]);
                    } else {
                        assert(padded[j] == half2@[j - 16]);
                    }
                }
            }
            assert(cvv@ =~= self.spec_calculate(pan@, expired_date@, service_code@));
            lemma_digits_of_range(ef@);
            lemma_remainder_of_range(ef@);
            assert forall|i: int| 0 <= i < cvv@.len() implies is_decimal_digit(#[trigger] cvv@[i]) by {
                assert(48 <= out@[i] <= 57);
                assert(cvv@[i] == out@[i] as char);
            }
        }
        Ok(cvv)
    }

    /// Recomputes the value and compares it with the candidate for
    /// exact equality.
    pub fn verify(&self, pan: &str, expired_date: &str, service_code: &str, cvv: &str) -> (r:
        Result<bool, CvvError>)
        ensures
            match r {
                Ok(b) => pan@.len() + expired_date@.len() + service_code@.len() <= 32
                    && all_hex_digits(padded_block(pan@, expired_date@, service_code@)) && b
                    == self.spec_matches(pan@, expired_date@, service_code@, cvv@),
                Err(e) => if pan@.len() + expired_date@.len() + service_code@.len() > 32 {
                    e == CvvError::InputTooLong
                } else {
                    e == CvvError::HexDecode && !all_hex_digits(
                        padded_block(pan@, expired_date@, service_code@),
                    )
                },
            },
    {
        let cvv_calc = match self.calculate(pan, expired_date, service_code) {
            Ok(c) => c,
            Err(e) => {
                return Err(e);
            },
        };
        let candidate = String::from_str(cvv);
        Ok(cvv_calc == candidate)
    }
}

/// The computed value depends on the inputs only through the padded
/// 32-character block: input triples that pad to the same block yield
/// the same value, so trailing zeroes given explicitly and the
/// implicit right-padding agree.
pub proof fn lemma_padding_invariance(
    c: Cvv,
    pan1: Seq<char>,
    exp1: Seq<char>,
    sc1: Seq<char>,
    pan2: Seq<char>,
    exp2: Seq<char>,
    sc2: Seq<char>,
)
    requires
        padded_block(pan1, exp1, sc1) == padded_block(pan2, exp2, sc2),
    ensures
        c.spec_calculate(pan1, exp1, sc1) == c.spec_calculate(pan2, exp2, sc2),
{
}

/// Determinism of the computation: two values computed from the same
/// keys and the same inputs are the same value.
pub proof fn lemma_calculate_deterministic(
    c: Cvv,
    pan: Seq<char>,
    exp: Seq<char>,
    sc: Seq<char>,
    r1: Seq<char>,
    r2: Seq<char>,
)
    requires
        r1 == c.spec_calculate(pan, exp, sc),
        r2 == c.spec_calculate(pan, exp, sc),
    ensures
        r1 == r2,
{
}

/// Consistency of verification: the computed value always verifies,
/// and any other candidate never does.
pub proof fn lemma_verify_consistency(
    c: Cvv,
    pan: Seq<char>,
    exp: Seq<char>,
    sc: Seq<char>,
    candidate: Seq<char>,
)
    ensures
        c.spec_matches(pan, exp, sc, c.spec_calculate(pan, exp, sc)),
        candidate != c.spec_calculate(pan, exp, sc) ==> !c.spec_matches(pan, exp, sc, candidate),
{
}

} // verus!
