//! The options shared by every command that talks to a node.

use crate::account::{sr25519_public_key, Signer};
use crate::error::{Error, KeyRole};
use vstd::prelude::*;

verus! {

/// What parsing `input` as a URL yields: the URL in its serialised form, or the reason why it
/// is none.
pub uninterp spec fn parsed_url(input: Seq<char>) -> Result<Seq<char>, Seq<char>>;

/// The view of a parse result: both texts as sequences of characters.
pub open spec fn parse_view(r: Result<String, String>) -> Result<Seq<char>, Seq<char>> {
    match r {
        Ok(url) => Ok(url@),
        Err(reason) => Err(reason@),
    }
}

/// Parses a URL with `url::Url::parse`, and hands back its serialisation or the text of the
/// parser's error.
///
/// Trusted: the outcome depends on the input alone.
#[verifier::external_body]
fn parse_url(input: &str) -> (r: Result<String, String>)
    ensures
        parse_view(r) == parsed_url(input@),
{
    match url::Url::parse(input) {
        Ok(url) => Ok(url.into()),
        Err(reason) => Err(reason.to_string()),
    }
}

/// Where to send an operation and on whose behalf.
#[derive(Debug, Clone, PartialEq, Eq)]
pub struct ExtrinsicOpts {
    /// Websockets URL of the node, in serialised form.
    pub url: String,
    /// Secret key URI of the account that signs.
    pub suri: String,
    /// Password for the secret key.
    pub password: Option<String>,
}

/// The mathematical content of [`ExtrinsicOpts`].
pub struct ExtrinsicOptsView {
    pub url: Seq<char>,
    pub suri: Seq<char>,
    pub password: Option<Seq<char>>,
}

/// The view of an optional owned string.
pub open spec fn optional_string(text: Option<String>) -> Option<Seq<char>> {
    match text {
        Some(t) => Some(t@),
        None => None,
    }
}

impl View for ExtrinsicOpts {
    type V = ExtrinsicOptsView;

    open spec fn view(&self) -> ExtrinsicOptsView {
        ExtrinsicOptsView {
            url: self.url@,
            suri: self.suri@,
            password: optional_string(self.password),
        }
    }
}

impl ExtrinsicOpts {
    /// Builds the options for the node at `url`.
    ///
    /// The URL is kept as the parser serialises it. Text that is no URL is rejected with
    /// `InvalidUrl`, which carries the text and the parser's reason.
    pub fn new(url: &str, suri: String, password: Option<String>) -> (r: Result<
        ExtrinsicOpts,
        Error,
    >)
        ensures
            match parsed_url(url@) {
                Ok(text) => r matches Ok(opts) && opts@ == (ExtrinsicOptsView {
                    url: text,
                    suri: suri@,
                    password: optional_string(password),
                }),
                Err(why) => r matches Err(Error::InvalidUrl { input, reason }) && input@ == url@
                    && reason@ == why,
            },
    {
        match parse_url(url) {
            Ok(text) => Ok(ExtrinsicOpts { url: text, suri, password }),
            Err(reason) => Err(Error::InvalidUrl { input: url.to_owned(), reason }),
        }
    }

    /// Derives the key pair that signs on behalf of these options' account.
    ///
    /// Fails with `KeyDerivationError` where the secret URI and password describe no key pair.
    pub fn signer(&self) -> (r: Result<Signer, Error>)
        ensures
            r is Ok <==> sr25519_public_key(self@.suri, self@.password) is Some,
            r matches Ok(signer) ==> sr25519_public_key(self@.suri, self@.password) == Some(
                signer.account_id()@,
            ),
            r matches Err(e) ==> e == (Error::KeyDerivationError { role: KeyRole::Signer }),
    {
        let password: Option<&str> = match &self.password {
            Some(p) => Some(p.as_str()),
            None => None,
        };
        Signer::derive(self.suri.as_str(), password, KeyRole::Signer)
    }
}

} // verus!
