use cargo_contract::error::HexError;
use cargo_contract::hexdata::HexData;

#[test]
fn decodes_digit_pairs_high_digit_first() {
    assert_eq!(HexData::from_str("00"), Ok(HexData(vec![0x00])));
    assert_eq!(HexData::from_str("0102030f10"), Ok(HexData(vec![1, 2, 3, 15, 16])));
    assert_eq!(HexData::from_str("ff7f80"), Ok(HexData(vec![0xff, 0x7f, 0x80])));
}

#[test]
fn accepts_both_letter_cases_and_their_mixture() {
    let expected = Ok(HexData(vec![0xf9, 0xb4, 0xca]));
    assert_eq!(HexData::from_str("f9b4ca"), expected);
    assert_eq!(HexData::from_str("F9B4CA"), expected);
    assert_eq!(HexData::from_str("f9B4Ca"), expected);
}

#[test]
fn empty_text_is_no_bytes() {
    assert_eq!(HexData::from_str(""), Ok(HexData(vec![])));
    assert_eq!(HexData::default(), HexData(vec![]));
}

#[test]
fn odd_length_is_rejected() {
    assert_eq!(HexData::from_str("0"), Err(HexError::OddLength));
    assert_eq!(HexData::from_str("123"), Err(HexError::OddLength));
}

#[test]
fn odd_length_is_reported_before_a_foreign_byte() {
    assert_eq!(HexData::from_str("zz0"), Err(HexError::OddLength));
}

#[test]
fn the_first_foreign_byte_is_reported_with_its_offset() {
    assert_eq!(
        HexData::from_str("0g"),
        Err(HexError::InvalidHexCharacter { c: 'g', index: 1 })
    );
    assert_eq!(
        HexData::from_str("12x4y6"),
        Err(HexError::InvalidHexCharacter { c: 'x', index: 2 })
    );
    assert_eq!(
        HexData::from_str("0x00"),
        Err(HexError::InvalidHexCharacter { c: 'x', index: 1 })
    );
    assert_eq!(
        HexData::from_str(" 0"),
        Err(HexError::InvalidHexCharacter { c: ' ', index: 0 })
    );
}

#[test]
fn bytes_next_to_the_digit_ranges_are_foreign() {
    for (text, c) in [("0/", '/'), ("0:", ':'), ("0@", '@'), ("0G", 'G'), ("0`", '`')] {
        assert_eq!(
            HexData::from_str(text),
            Err(HexError::InvalidHexCharacter { c, index: 1 })
        );
    }
}

#[test]
fn text_outside_ascii_is_judged_by_its_bytes() {
    // "é" is the two bytes c3 a9: an even length, and the first byte is foreign.
    assert_eq!(
        HexData::from_str("é"),
        Err(HexError::InvalidHexCharacter { c: '\u{c3}', index: 0 })
    );
    // One more byte makes the length odd.
    assert_eq!(HexData::from_str("é0"), Err(HexError::OddLength));
}

#[test]
fn decoding_inverts_encoding() {
    let samples: Vec<Vec<u8>> = vec![
        vec![],
        vec![0],
        vec![255],
        vec![0x0a, 0xf1],
        (0..=255).collect(),
        b"Hello world!".to_vec(),
    ];
    for bytes in samples {
        assert_eq!(HexData::from_str(&hex::encode(&bytes)), Ok(HexData(bytes.clone())));
        assert_eq!(HexData::from_str(&hex::encode_upper(&bytes)), Ok(HexData(bytes)));
    }
}

#[test]
fn encoded_text_is_what_decodes() {
    assert_eq!(hex::encode([0x0au8, 0xf1]), "0af1");
    assert_eq!(HexData::from_str("0af1"), Ok(HexData(vec![0x0a, 0xf1])));
}
