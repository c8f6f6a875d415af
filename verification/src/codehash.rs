//! The identifier under which contract code is stored on chain.

use crate::error::Error;
use crate::hexdata::{all_digits, decoding, digits_to_bytes, HexData};
use vstd::prelude::*;
use vstd::string::StringSliceAdditionalSpecFns;

verus! {

/// The number of bytes in a code hash.
pub const CODE_HASH_LENGTH: usize = 32;

/// A 32-byte content identifier of uploaded contract code.
#[derive(Debug, Clone, Copy, PartialEq, Eq)]
pub struct CodeHash(pub [u8; 32]);

impl View for CodeHash {
    type V = Seq<u8>;

    open spec fn view(&self) -> Seq<u8> {
        self.0@
    }
}

/// Whether `text` is hexadecimal digits that stand for exactly 32 bytes.
pub open spec fn is_code_hash_text(text: Seq<u8>) -> bool {
    text.len() == 64 && all_digits(text)
}

/// Reads a code hash from hexadecimal text.
///
/// Text that is not hexadecimal is rejected with the decoder's reason; text that decodes to any
/// number of bytes other than 32 is rejected with that number.
pub fn parse_code_hash(input: &str) -> (r: Result<CodeHash, Error>)
    ensures
        r is Ok <==> is_code_hash_text(input.spec_bytes()),
        r matches Ok(hash) ==> hash@ == digits_to_bytes(input.spec_bytes()),
        r matches Err(e) ==> {
            let text = input.spec_bytes();
            if text.len() % 2 == 0 && all_digits(text) {
                e == (Error::InvalidCodeHashLength { len: (text.len() / 2) as usize })
            } else {
                e matches Error::InvalidHexInput { cause } && decoding(text, Err(cause))
            }
        },
{
    let bytes = match HexData::from_str(input) {
        Ok(data) => data.0,
        Err(cause) => {
            return Err(Error::InvalidHexInput { cause });
        },
    };
    if bytes.len() != CODE_HASH_LENGTH {
        return Err(Error::InvalidCodeHashLength { len: bytes.len() });
    }
    let mut arr = [0u8; 32];
    let mut i: usize = 0;
    while i < 32
        invariant
            i <= 32,
            bytes.len() == 32,
            forall|j: int| 0 <= j < i ==> arr@[j] == bytes@[j],
        decreases 32 - i,
    {
        arr[i] = bytes[i];
        i += 1;
    }
    assert(arr@ =~= bytes@);
    Ok(CodeHash(arr))
}

} // verus!
