//! Byte strings given as hexadecimal text.

use crate::error::HexError;
use vstd::prelude::*;
use vstd::string::StringSliceAdditionalSpecFns;

verus! {

/// The value of one hexadecimal digit, of either case; `None` for any other byte.
pub open spec fn digit_value(b: u8) -> Option<u8> {
    if 0x30 <= b <= 0x39 {
        Some((b - 0x30) as u8)
    } else if 0x41 <= b <= 0x46 {
        Some((b - 0x41 + 10) as u8)
    } else if 0x61 <= b <= 0x66 {
        Some((b - 0x61 + 10) as u8)
    } else {
        None
    }
}

/// Whether every byte of `text` is a hexadecimal digit.
pub open spec fn all_digits(text: Seq<u8>) -> bool {
    forall|i: int| 0 <= i < text.len() ==> (#[trigger] digit_value(text[i])) is Some
}

/// The byte that the digit pair at `2 * i` and `2 * i + 1` of `text` stands for.
pub open spec fn pair_value(text: Seq<u8>, i: int) -> u8 {
    (16 * digit_value(text[2 * i]).unwrap() + digit_value(text[2 * i + 1]).unwrap()) as u8
}

/// The bytes that an even-length run of hexadecimal digits stands for.
pub open spec fn digits_to_bytes(text: Seq<u8>) -> Seq<u8> {
    Seq::new(text.len() / 2, |i: int| pair_value(text, i))
}

/// Whether `index` is the offset of the first byte of `text` that is no hexadecimal digit.
pub open spec fn first_non_digit(text: Seq<u8>, index: int) -> bool {
    &&& 0 <= index < text.len()
    &&& digit_value(text[index]) is None
    &&& forall|j: int| 0 <= j < index ==> (#[trigger] digit_value(text[j])) is Some
}

/// What decoding `text` yields: its bytes, or the reason why it stands for none.
///
/// An odd length is reported before any foreign byte; of several foreign bytes the first is
/// reported.
pub open spec fn decoding(text: Seq<u8>, result: Result<Seq<u8>, HexError>) -> bool {
    if text.len() % 2 != 0 {
        result == Err::<Seq<u8>, HexError>(HexError::OddLength)
    } else if all_digits(text) {
        result == Ok::<Seq<u8>, HexError>(digits_to_bytes(text))
    } else {
        &&& result matches Err(HexError::InvalidHexCharacter { c, index })
        &&& first_non_digit(text, index as int)
        &&& c == text[index as int] as char
    }
}

/// The lower-case hexadecimal digit for a value below sixteen.
pub open spec fn digit_byte(value: int) -> u8 {
    if value < 10 {
        (0x30 + value) as u8
    } else {
        (0x61 + value - 10) as u8
    }
}

/// The lower-case hexadecimal text of `bytes`: two digits per byte, high digit first.
pub open spec fn bytes_to_digits(bytes: Seq<u8>) -> Seq<u8> {
    Seq::new(
        2 * bytes.len(),
        |i: int|
            if i % 2 == 0 {
                digit_byte(bytes[i / 2] as int / 16)
            } else {
                digit_byte(bytes[i / 2] as int % 16)
            },
    )
}

/// Decoding is a function: a text has one result.
pub proof fn lemma_decoding_is_unique(
    text: Seq<u8>,
    first: Result<Seq<u8>, HexError>,
    second: Result<Seq<u8>, HexError>,
)
    requires
        decoding(text, first),
        decoding(text, second),
    ensures
        first == second,
{
    if text.len() % 2 == 0 && !all_digits(text) {
        let i = first->Err_0->index as int;
        let j = second->Err_0->index as int;
        assert(digit_value(text[i]) is None);
        assert(digit_value(text[j]) is None);
        assert(i == j);
    }
}

/// Encoding then decoding yields the bytes that were encoded, whatever they are: the text has
/// an even length, holds digits only, and stands for the bytes it was made from.
pub proof fn lemma_decoding_inverts_encoding(bytes: Seq<u8>)
    ensures
        bytes_to_digits(bytes).len() % 2 == 0,
        all_digits(bytes_to_digits(bytes)),
        digits_to_bytes(bytes_to_digits(bytes)) == bytes,
        decoding(bytes_to_digits(bytes), Ok(bytes)),
{
    let text = bytes_to_digits(bytes);
    assert forall|i: int| 0 <= i < text.len() implies (#[trigger] digit_value(text[i])) is Some by {
        let b = bytes[i / 2] as int;
        assert(0 <= b / 16 < 16 && 0 <= b % 16 < 16);
    }
    assert forall|k: int| 0 <= k < bytes.len() implies pair_value(text, k) == bytes[k] by {
        let b = bytes[k] as int;
        assert((2 * k) / 2 == k && (2 * k + 1) / 2 == k);
        assert((2 * k) % 2 == 0 && (2 * k + 1) % 2 == 1);
        assert(0 <= b / 16 < 16 && 0 <= b % 16 < 16);
        assert(digit_value(digit_byte(b / 16)) == Some((b / 16) as u8));
        assert(digit_value(digit_byte(b % 16)) == Some((b % 16) as u8));
        assert(16 * (b / 16) + b % 16 == b);
    }
    assert(digits_to_bytes(text) =~= bytes);
}

/// A text of odd length, or one that holds a byte that is no digit, decodes to no bytes.
pub proof fn lemma_malformed_text_fails(text: Seq<u8>, result: Result<Seq<u8>, HexError>)
    requires
        decoding(text, result),
        text.len() % 2 != 0 || !all_digits(text),
    ensures
        result is Err,
{
}

/// The view of a decoding result: the decoded bytes as a sequence.
pub open spec fn result_view(r: Result<Vec<u8>, HexError>) -> Result<Seq<u8>, HexError> {
    match r {
        Ok(bytes) => Ok(bytes@),
        Err(e) => Err(e),
    }
}

/// Decodes hexadecimal text with `hex::decode`.
///
/// Trusted: the contract restates what `hex::decode` does on the bytes of its input. It
/// rejects an odd number of bytes with `OddLength`, otherwise reads the bytes in pairs, most
/// significant digit first and in either letter case, and reports the first byte that is no
/// digit together with its offset.
#[verifier::external_body]
fn hex_decode(input: &str) -> (r: Result<Vec<u8>, HexError>)
    ensures
        decoding(input.spec_bytes(), result_view(r)),
{
    match hex::decode(input) {
        Ok(bytes) => Ok(bytes),
        Err(hex::FromHexError::InvalidHexCharacter { c, index }) => {
            Err(HexError::InvalidHexCharacter { c, index })
        },
        Err(hex::FromHexError::OddLength) => Err(HexError::OddLength),
        Err(hex::FromHexError::InvalidStringLength) => Err(HexError::InvalidStringLength),
    }
}

/// A byte string that was given as hexadecimal text.
#[derive(Debug, Default, Clone, PartialEq, Eq)]
pub struct HexData(pub Vec<u8>);

impl View for HexData {
    type V = Seq<u8>;

    open spec fn view(&self) -> Seq<u8> {
        self.0@
    }
}

impl HexData {
    /// Reads `input` as hexadecimal digits, two to a byte.
    pub fn from_str(input: &str) -> (r: Result<HexData, HexError>)
        ensures
            r is Ok <==> input.spec_bytes().len() % 2 == 0 && all_digits(input.spec_bytes()),
            r matches Ok(data) ==> data@ == digits_to_bytes(input.spec_bytes()),
            r matches Err(e) ==> decoding(input.spec_bytes(), Err(e)),
    {
        match hex_decode(input) {
            Ok(bytes) => Ok(HexData(bytes)),
            Err(e) => Err(e),
        }
    }
}

} // verus!
