//! Account identities and the signing keys they are derived from.

use crate::error::{Error, HexError, KeyRole};
use vstd::prelude::*;

verus! {

/// The number of bytes in an account identifier.
pub const ACCOUNT_ID_LENGTH: usize = 32;

/// A 32-byte account identifier: the bytes of the account's public key.
#[derive(Debug, Clone, Copy, PartialEq, Eq)]
pub struct AccountId(pub [u8; 32]);

impl View for AccountId {
    type V = Seq<u8>;

    open spec fn view(&self) -> Seq<u8> {
        self.0@
    }
}

impl AccountId {
    /// Takes the 32 bytes of `data` as an account identifier.
    ///
    /// Data of any other length names no account and is rejected as hexadecimal input of the
    /// wrong length.
    pub fn from_slice(data: &[u8]) -> (r: Result<AccountId, Error>)
        ensures
            r is Ok <==> data@.len() == 32,
            r matches Ok(id) ==> id@ == data@,
            r matches Err(e) ==> e == (Error::InvalidHexInput {
                cause: HexError::InvalidStringLength,
            }),
    {
        if data.len() != ACCOUNT_ID_LENGTH {
            return Err(Error::InvalidHexInput { cause: HexError::InvalidStringLength });
        }
        let mut arr = [0u8; 32];
        let mut i: usize = 0;
        while i < 32
            invariant
                i <= 32,
                data@.len() == 32,
                forall|j: int| 0 <= j < i ==> arr@[j] == data@[j],
            decreases 32 - i,
        {
            arr[i] = data[i];
            i += 1;
        }
        assert(arr@ =~= data@);
        Ok(AccountId(arr))
    }
}

/// Makes `sp_core::sr25519::Pair` known as a type whose inside is not looked at: a pair is
/// carried from where it is derived to where the chain client signs with it.
#[verifier::external_type_specification]
#[verifier::external_body]
pub struct ExPair(sp_core::sr25519::Pair);

/// The sr25519 public key that a secret URI and an optional password lead to, or `None` where
/// the secret URI yields no key.
pub uninterp spec fn sr25519_public_key(suri: Seq<char>, password: Option<Seq<char>>) -> Option<
    Seq<u8>,
>;

/// The view of an optional string.
pub open spec fn optional_text(text: Option<&str>) -> Option<Seq<char>> {
    match text {
        Some(t) => Some(t@),
        None => None,
    }
}

/// Derives an sr25519 key pair with `sp_core::Pair::from_string` and reads its public key with
/// `sp_core::Pair::public`.
///
/// Trusted: whether a pair comes back, and the public key of the pair that does, depend on the
/// secret URI and the password alone. The pair's secret half carries a nonce that may differ
/// from call to call; nothing is stated of it.
#[verifier::external_body]
fn pair_from_string(suri: &str, password: Option<&str>) -> (r: Option<
    (sp_core::sr25519::Pair, [u8; 32]),
>)
    ensures
        r is Some <==> sr25519_public_key(suri@, optional_text(password)) is Some,
        r matches Some(found) ==> sr25519_public_key(suri@, optional_text(password)) == Some(
            found.1@,
        ),
{
    match <sp_core::sr25519::Pair as sp_core::Pair>::from_string(suri, password) {
        Ok(pair) => {
            let public = sp_core::Pair::public(&pair).0;
            Some((pair, public))
        },
        Err(_) => None,
    }
}

/// A key pair that can authorise operations on behalf of its account.
///
/// The secret half is never shown: the type has no `Debug` form.
pub struct Signer {
    pair: sp_core::sr25519::Pair,
    account: AccountId,
}

impl Signer {
    /// The account that this signer signs for.
    pub closed spec fn account_id(&self) -> AccountId {
        self.account
    }

    /// Derives the key pair that `suri` and `password` describe.
    ///
    /// Fails with `KeyDerivationError` for `role` where they describe none.
    pub fn derive(suri: &str, password: Option<&str>, role: KeyRole) -> (r: Result<Signer, Error>)
        ensures
            r is Ok <==> sr25519_public_key(suri@, optional_text(password)) is Some,
            r matches Ok(signer) ==> sr25519_public_key(suri@, optional_text(password)) == Some(
                signer.account_id()@,
            ),
            r matches Err(e) ==> e == (Error::KeyDerivationError { role }),
    {
        match pair_from_string(suri, password) {
            Some((pair, public)) => Ok(Signer { pair, account: AccountId(public) }),
            None => Err(Error::KeyDerivationError { role }),
        }
    }

    /// The account that this signer signs for.
    pub fn account(&self) -> (id: AccountId)
        ensures
            id == self.account_id(),
    {
        self.account
    }

    /// The key pair, for the chain client to sign with.
    pub fn pair(&self) -> (pair: &sp_core::sr25519::Pair)
        ensures
            *pair == self.key_pair(),
    {
        &self.pair
    }

    /// The key pair that this signer holds: the one that was derived when it was made.
    pub closed spec fn key_pair(&self) -> sp_core::sr25519::Pair {
        self.pair
    }
}

/// The account whose key pair the secret string `secret` describes, without a password.
pub fn account_of_secret(secret: &str, role: KeyRole) -> (r: Result<AccountId, Error>)
    ensures
        r is Ok <==> sr25519_public_key(secret@, None) is Some,
        r matches Ok(id) ==> sr25519_public_key(secret@, None) == Some(id@),
        r matches Err(e) ==> e == (Error::KeyDerivationError { role }),
{
    match Signer::derive(secret, None, role) {
        Ok(signer) => Ok(signer.account()),
        Err(e) => Err(e),
    }
}

} // verus!
