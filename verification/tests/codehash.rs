use cargo_contract::codehash::{parse_code_hash, CodeHash, CODE_HASH_LENGTH};
use cargo_contract::error::{Error, HexError};

#[test]
fn a_code_hash_has_32_bytes() {
    assert_eq!(CODE_HASH_LENGTH, 32);
}

#[test]
fn sixty_four_digits_are_a_code_hash() {
    let text = "d43593c715fdd31c61141abd04a99fd6822c8558854ccde39a5684e7a56da27d";
    let mut expected = [0u8; 32];
    expected.copy_from_slice(&hex::decode(text).unwrap());
    assert_eq!(parse_code_hash(text), Ok(CodeHash(expected)));
    assert_eq!(expected[0], 0xd4);
    assert_eq!(expected[31], 0x7d);
}

#[test]
fn the_bytes_keep_their_order() {
    let text: String = (0u8..32).map(|b| format!("{:02x}", b)).collect();
    let hash = parse_code_hash(&text).unwrap();
    for i in 0..32 {
        assert_eq!(hash.0[i], i as u8);
    }
}

#[test]
fn upper_case_digits_are_accepted() {
    let text = "FF".repeat(32);
    assert_eq!(parse_code_hash(&text), Ok(CodeHash([0xff; 32])));
}

#[test]
fn other_lengths_are_rejected_with_the_length() {
    assert_eq!(parse_code_hash(""), Err(Error::InvalidCodeHashLength { len: 0 }));
    assert_eq!(parse_code_hash("00"), Err(Error::InvalidCodeHashLength { len: 1 }));
    assert_eq!(
        parse_code_hash(&"ab".repeat(31)),
        Err(Error::InvalidCodeHashLength { len: 31 })
    );
    assert_eq!(
        parse_code_hash(&"ab".repeat(33)),
        Err(Error::InvalidCodeHashLength { len: 33 })
    );
}

#[test]
fn text_that_is_not_hexadecimal_is_rejected_with_the_reason() {
    assert_eq!(
        parse_code_hash(&"0".repeat(63)),
        Err(Error::InvalidHexInput { cause: HexError::OddLength })
    );
    let mut text = "0".repeat(64);
    text.replace_range(10..11, "q");
    assert_eq!(
        parse_code_hash(&text),
        Err(Error::InvalidHexInput { cause: HexError::InvalidHexCharacter { c: 'q', index: 10 } })
    );
    assert_eq!(
        parse_code_hash(&format!("0x{}", "0".repeat(62))),
        Err(Error::InvalidHexInput { cause: HexError::InvalidHexCharacter { c: 'x', index: 1 } })
    );
}
