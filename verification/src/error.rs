//! The failures a command can end in.

use vstd::prelude::*;

verus! {

/// Why a string could not be read as hexadecimal digits.
#[derive(Debug, Clone, Copy, PartialEq, Eq, Structural)]
pub enum HexError {
    /// The byte `c` at offset `index` is not a hexadecimal digit.
    InvalidHexCharacter { c: char, index: usize },
    /// The input has an odd number of bytes.
    OddLength,
    /// The decoded bytes do not fill the fixed-size buffer they were meant for.
    InvalidStringLength,
}

/// Which account a secret string was meant to identify.
#[derive(Debug, Clone, Copy, PartialEq, Eq, Structural)]
pub enum KeyRole {
    Signer,
    Target,
    Requester,
}

/// Every way in which a command can fail.
#[derive(Debug, Clone, PartialEq, Eq)]
pub enum Error {
    /// Both `--quiet` and `--verbose` were given.
    ConflictingFlags,
    /// Unstable options outside the allowlist were given; all of them are listed, in input order.
    UnknownOption { names: Vec<String> },
    /// A secret string did not yield a key pair.
    KeyDerivationError { role: KeyRole },
    /// The contract bytecode could not be read from `path`.
    CodeNotFound { path: String },
    /// The project metadata yields no composable schedule.
    MetadataReadError { reason: String },
    /// The composable schedule names nothing to deploy.
    NothingToDeploy,
    /// The remote node reported a failure; its text is kept verbatim.
    RemoteCallError { text: String },
    /// An argument was not valid hexadecimal.
    InvalidHexInput { cause: HexError },
    /// A code hash decoded to `len` bytes where 32 are expected.
    InvalidCodeHashLength { len: usize },
    /// An endpoint was not a valid URL; `reason` is the parser's own text.
    InvalidUrl { input: String, reason: String },
    /// A build, metadata or scaffolding tool reported a failure; its text is kept verbatim.
    ToolError { text: String },
    /// The command exists but does nothing yet.
    Unimplemented,
}

/// The mathematical content of an [`Error`].
pub enum ErrorView {
    ConflictingFlags,
    UnknownOption { names: Seq<Seq<char>> },
    KeyDerivationError { role: KeyRole },
    CodeNotFound { path: Seq<char> },
    MetadataReadError { reason: Seq<char> },
    NothingToDeploy,
    RemoteCallError { text: Seq<char> },
    InvalidHexInput { cause: HexError },
    InvalidCodeHashLength { len: usize },
    InvalidUrl { input: Seq<char>, reason: Seq<char> },
    ToolError { text: Seq<char> },
    Unimplemented,
}

impl View for Error {
    type V = ErrorView;

    open spec fn view(&self) -> ErrorView {
        match self {
            Error::ConflictingFlags => ErrorView::ConflictingFlags,
            Error::UnknownOption { names } => ErrorView::UnknownOption { names: names.deep_view() },
            Error::KeyDerivationError { role } => ErrorView::KeyDerivationError { role: *role },
            Error::CodeNotFound { path } => ErrorView::CodeNotFound { path: path@ },
            Error::MetadataReadError { reason } => ErrorView::MetadataReadError { reason: reason@ },
            Error::NothingToDeploy => ErrorView::NothingToDeploy,
            Error::RemoteCallError { text } => ErrorView::RemoteCallError { text: text@ },
            Error::InvalidHexInput { cause } => ErrorView::InvalidHexInput { cause: *cause },
            Error::InvalidCodeHashLength { len } => ErrorView::InvalidCodeHashLength { len: *len },
            Error::InvalidUrl { input, reason } => ErrorView::InvalidUrl {
                input: input@,
                reason: reason@,
            },
            Error::ToolError { text } => ErrorView::ToolError { text: text@ },
            Error::Unimplemented => ErrorView::Unimplemented,
        }
    }
}

} // verus!
