use nitro_cvv::cvv::CvvError;
use nitro_cvv::Cvv;

const CVK_A: &str = "0123456789ABCDEF";
const CVK_B: &str = "FEDCBA9876543210";

#[test]
fn known_single_des_keypair_value() {
    let cvv = Cvv::new(CVK_A, CVK_B).unwrap();
    let value = cvv.calculate("4666655554444111", "9206", "120").unwrap();
    assert_eq!(value, "664");
}

#[test]
fn calculate_is_deterministic() {
    let cvv = Cvv::new(CVK_A, CVK_B).unwrap();
    let first = cvv.calculate("4123456789012345", "8701", "101").unwrap();
    let second = cvv.calculate("4123456789012345", "8701", "101").unwrap();
    assert_eq!(first, second);
    assert_eq!(first.len(), 3);
    assert!(first.bytes().all(|b| b.is_ascii_digit()));
    let other_engine = Cvv::new(CVK_A, CVK_B).unwrap();
    assert_eq!(other_engine.calculate("4123456789012345", "8701", "101").unwrap(), first);
}

#[test]
fn different_pan_gives_different_value() {
    let cvv = Cvv::new(CVK_A, CVK_B).unwrap();
    let a = cvv.calculate("4666655554444111", "9206", "120").unwrap();
    let b = cvv.calculate("4999988887777000", "9105", "111").unwrap();
    assert_ne!(a, b);
}

#[test]
fn verify_accepts_computed_value_and_rejects_mutations() {
    let cvv = Cvv::new(CVK_A, CVK_B).unwrap();
    let value = cvv.calculate("4666655554444111", "9206", "120").unwrap();
    assert!(cvv.verify("4666655554444111", "9206", "120", &value).unwrap());
    let bytes = value.as_bytes();
    for i in 0..3 {
        let mut mutated = bytes.to_vec();
        mutated[i] = if mutated[i] == b'9' { b'0' } else { mutated[i] + 1 };
        let candidate = String::from_utf8(mutated).unwrap();
        assert!(!cvv.verify("4666655554444111", "9206", "120", &candidate).unwrap());
    }
}

#[test]
fn key_length_gate() {
    // 7, 9, 15, 17, 23 and 25 decoded bytes must all fail
    for bad in [7usize, 9, 15, 17, 23, 25] {
        let hex = "00".repeat(bad);
        assert_eq!(
            Cvv::new(&hex, CVK_B).unwrap_err(),
            CvvError::InvalidKeyLength
        );
        assert_eq!(
            Cvv::new(CVK_A, &hex).unwrap_err(),
            CvvError::InvalidKeyLength
        );
    }
    // 8, 16 and 24 decoded bytes must all succeed
    for good in [8usize, 16, 24] {
        let hex = "0f".repeat(good);
        assert!(Cvv::new(&hex, &hex).is_ok());
    }
}

#[test]
fn key_hex_decode_errors() {
    assert_eq!(
        Cvv::new("zz23456789abcdef", CVK_B).unwrap_err(),
        CvvError::HexDecode
    );
    // odd digit count
    assert_eq!(
        Cvv::new("0123456789abcde", CVK_B).unwrap_err(),
        CvvError::HexDecode
    );
    assert_eq!(
        Cvv::new(CVK_A, "not hex at all!!").unwrap_err(),
        CvvError::HexDecode
    );
}

#[test]
fn double_and_triple_length_keys_work() {
    let double = "0123456789ABCDEFFEDCBA9876543210";
    let triple = "0123456789ABCDEFFEDCBA98765432100011223344556677";
    let cvv = Cvv::new(double, triple).unwrap();
    let a = cvv.calculate("4666655554444111", "9206", "120").unwrap();
    let b = cvv.calculate("4666655554444111", "9206", "120").unwrap();
    assert_eq!(a, b);
    assert_eq!(a.len(), 3);
}

#[test]
fn doubled_key_halves_degenerate_to_single_des() {
    // two-key triple DES in encrypt-decrypt-encrypt mode collapses to
    // single DES when both halves are the same key
    let a2 = format!("{}{}", CVK_A, CVK_A);
    let b2 = format!("{}{}", CVK_B, CVK_B);
    let cvv = Cvv::new(&a2, &b2).unwrap();
    assert_eq!(
        cvv.calculate("4666655554444111", "9206", "120").unwrap(),
        "664"
    );
}

#[test]
fn tripled_keys_degenerate_to_single_des() {
    let a3 = format!("{}{}{}", CVK_A, CVK_A, CVK_A);
    let b3 = format!("{}{}{}", CVK_B, CVK_B, CVK_B);
    let cvv = Cvv::new(&a3, &b3).unwrap();
    assert_eq!(
        cvv.calculate("4666655554444111", "9206", "120").unwrap(),
        "664"
    );
}

#[test]
fn input_longer_than_32_digits_is_rejected() {
    let cvv = Cvv::new(CVK_A, CVK_B).unwrap();
    let pan = "4".repeat(30);
    assert_eq!(
        cvv.calculate(&pan, "9206", "120").unwrap_err(),
        CvvError::InputTooLong
    );
}

#[test]
fn exactly_32_digits_is_accepted() {
    let cvv = Cvv::new(CVK_A, CVK_B).unwrap();
    let pan = "4666655554444111920612012345"; // 28 digits
    let value = cvv.calculate(pan, "92", "06").unwrap();
    assert_eq!(value.len(), 3);
}

#[test]
fn non_hex_input_is_rejected() {
    let cvv = Cvv::new(CVK_A, CVK_B).unwrap();
    assert_eq!(
        cvv.calculate("4666x55554444111", "9206", "120").unwrap_err(),
        CvvError::HexDecode
    );
}
