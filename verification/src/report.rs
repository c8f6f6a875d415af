//! The one line that tells the user how a command ended.

use crate::error::{Error, ErrorView, HexError, KeyRole};
use crate::text::{concat, debug_quoted, quoted};
use vstd::prelude::*;
use vstd::string::StringExecFns;

verus! {

/// The word that introduces an error.
pub const ERROR_LABEL: &'static str = "ERROR:";

/// How `hex` words the complaint about the byte `c` at offset `index`.
pub uninterp spec fn invalid_character_text(c: char, index: usize) -> Seq<char>;

/// The text of a decoding failure.
pub open spec fn hex_error_text(e: HexError) -> Seq<char> {
    match e {
        HexError::InvalidHexCharacter { c, index } => invalid_character_text(c, index),
        HexError::OddLength => "Odd number of digits"@,
        HexError::InvalidStringLength => "Invalid string length"@,
    }
}

/// Words a decoding failure as `hex::FromHexError` displays it.
///
/// Trusted: the two failures without fields have the fixed texts given below; the text for a
/// foreign byte depends on that byte and its offset alone.
#[verifier::external_body]
fn describe_hex_error(e: HexError) -> (r: String)
    ensures
        r@ == match e {
            HexError::InvalidHexCharacter { c, index } => invalid_character_text(c, index),
            HexError::OddLength => "Odd number of digits"@,
            HexError::InvalidStringLength => "Invalid string length"@,
        },
{
    let outside = match e {
        HexError::InvalidHexCharacter { c, index } => hex::FromHexError::InvalidHexCharacter {
            c,
            index,
        },
        HexError::OddLength => hex::FromHexError::OddLength,
        HexError::InvalidStringLength => hex::FromHexError::InvalidStringLength,
    };
    outside.to_string()
}

/// The quoted `names`, separated by a comma and a space.
pub open spec fn quoted_names(names: Seq<Seq<char>>) -> Seq<char>
    decreases names.len(),
{
    if names.len() == 0 {
        Seq::empty()
    } else if names.len() == 1 {
        debug_quoted(names[0])
    } else {
        quoted_names(names.drop_last()) + ", "@ + debug_quoted(names.last())
    }
}

/// The text of a failure to derive the key of `role`.
pub open spec fn key_error_text(role: KeyRole) -> Seq<char> {
    match role {
        KeyRole::Signer => "Secret string error"@,
        KeyRole::Target => "Target account read string error"@,
        KeyRole::Requester => "Requester account read string error"@,
    }
}

/// The text that tells the user what `error` is about.
///
/// Texts that come from the node, from a tool or from a parser are passed on verbatim.
pub open spec fn message_of(error: ErrorView) -> Seq<char> {
    match error {
        ErrorView::ConflictingFlags => "Cannot pass both --quiet and --verbose flags"@,
        ErrorView::UnknownOption { names } => "Unknown unstable-options ["@ + quoted_names(names)
            + "]"@,
        ErrorView::KeyDerivationError { role } => key_error_text(role),
        ErrorView::CodeNotFound { path } => "Failed to open "@ + path,
        ErrorView::MetadataReadError { reason } => reason,
        ErrorView::NothingToDeploy =>
            "Nothing to deploy. Empty deploy key of composable metadata."@,
        ErrorView::RemoteCallError { text } => text,
        ErrorView::InvalidHexInput { cause } => hex_error_text(cause),
        ErrorView::InvalidCodeHashLength { .. } => "Code hash should be 32 bytes in length"@,
        ErrorView::InvalidUrl { reason, .. } => reason,
        ErrorView::ToolError { text } => text,
        ErrorView::Unimplemented => "Command unimplemented"@,
    }
}

/// The line that reports `outcome`: a tab and the message, or the error label, a space and the
/// error's text.
pub open spec fn final_line_of(outcome: Result<Seq<char>, ErrorView>) -> Seq<char> {
    match outcome {
        Ok(message) => "\t"@ + message,
        Err(error) => "ERROR:"@ + " "@ + message_of(error),
    }
}

/// Quotes `names` and joins them with a comma and a space.
fn join_quoted(names: &Vec<String>) -> (r: String)
    ensures
        r@ == quoted_names(names.deep_view()),
{
    let ghost all = names.deep_view();
    let mut out = String::new();
    let mut i: usize = 0;
    assert(all.take(0) =~= Seq::<Seq<char>>::empty());
    while i < names.len()
        invariant
            i <= names.len(),
            all == names.deep_view(),
            all.len() == names.len(),
            forall|j: int| 0 <= j < all.len() ==> #[trigger] all[j] == names[j]@,
            out@ == quoted_names(all.take(i as int)),
        decreases names.len() - i,
    {
        let ghost before = all.take(i as int);
        let ghost upto = all.take(i + 1);
        proof {
            assert(upto.drop_last() =~= before);
            assert(upto.last() == all[i as int]);
        }
        if i > 0 {
            out.append(", ");
        }
        out.append(quoted(names[i].as_str()).as_str());
        proof {
            if i == 0 {
                assert(before.len() == 0);
                assert(out@ =~= debug_quoted(all[0]));
                assert(upto[0] == all[0]);
            }
        }
        i += 1;
    }
    assert(all.take(i as int) =~= all);
    out
}

impl Error {
    /// The text that tells the user what this error is about.
    pub fn message(&self) -> (text: String)
        ensures
            text@ == message_of(self@),
    {
        match self {
            Error::ConflictingFlags => "Cannot pass both --quiet and --verbose flags".to_owned(),
            Error::UnknownOption { names } => {
                let mut out = "Unknown unstable-options [".to_owned();
                out.append(join_quoted(names).as_str());
                out.append("]");
                out
            },
            Error::KeyDerivationError { role } => match role {
                KeyRole::Signer => "Secret string error".to_owned(),
                KeyRole::Target => "Target account read string error".to_owned(),
                KeyRole::Requester => "Requester account read string error".to_owned(),
            },
            Error::CodeNotFound { path } => concat("Failed to open ", path.as_str()),
            Error::MetadataReadError { reason } => reason.clone(),
            Error::NothingToDeploy =>
                "Nothing to deploy. Empty deploy key of composable metadata.".to_owned(),
            Error::RemoteCallError { text } => text.clone(),
            Error::InvalidHexInput { cause } => describe_hex_error(*cause),
            Error::InvalidCodeHashLength { .. } =>
                "Code hash should be 32 bytes in length".to_owned(),
            Error::InvalidUrl { reason, .. } => reason.clone(),
            Error::ToolError { text } => text.clone(),
            Error::Unimplemented => "Command unimplemented".to_owned(),
        }
    }
}

/// The single line that reports how a command ended.
pub fn final_line(outcome: &Result<String, Error>) -> (line: String)
    ensures
        line@ == final_line_of(
            match outcome {
                Ok(message) => Ok(message@),
                Err(error) => Err(error@),
            },
        ),
{
    match outcome {
        Ok(message) => concat("\t", message.as_str()),
        Err(error) => {
            let mut out = ERROR_LABEL.to_owned();
            out.append(" ");
            out.append(error.message().as_str());
            out
        },
    }
}

} // verus!
