use cargo_contract::account::{account_of_secret, AccountId, Signer, ACCOUNT_ID_LENGTH};
use cargo_contract::error::{Error, HexError, KeyRole};
use cargo_contract::opts::ExtrinsicOpts;
use sp_core::Pair;

const ALICE: &str = "d43593c715fdd31c61141abd04a99fd6822c8558854ccde39a5684e7a56da27d";
const BOB: &str = "8eaf04151687736326c9fea17e25fc5287613693c912909cb226aa4794f26a48";
const DEV_PHRASE: &str = "bottom drive obey lake curtain smoke basket hold race lonely fit walk";

fn id(text: &str) -> AccountId {
    let mut bytes = [0u8; 32];
    bytes.copy_from_slice(&hex::decode(text).unwrap());
    AccountId(bytes)
}

fn opts(suri: &str, password: Option<&str>) -> ExtrinsicOpts {
    ExtrinsicOpts::new("ws://localhost:9944", suri.to_string(), password.map(str::to_string))
        .unwrap()
}

#[test]
fn an_account_id_has_32_bytes() {
    assert_eq!(ACCOUNT_ID_LENGTH, 32);
}

#[test]
fn well_known_development_accounts() {
    assert_eq!(account_of_secret("//Alice", KeyRole::Target), Ok(id(ALICE)));
    assert_eq!(account_of_secret("//Bob", KeyRole::Requester), Ok(id(BOB)));
}

#[test]
fn the_development_phrase_is_the_default_phrase() {
    let spelled_out = format!("{}//Alice", DEV_PHRASE);
    assert_eq!(account_of_secret(&spelled_out, KeyRole::Signer), Ok(id(ALICE)));
}

#[test]
fn soft_derivation_yields_one_account_every_time() {
    let first = account_of_secret("/soft", KeyRole::Signer).unwrap();
    let second = account_of_secret("/soft", KeyRole::Signer).unwrap();
    assert_eq!(first, second);
    assert_ne!(first, id(ALICE));
}

#[test]
fn a_raw_seed_is_a_secret() {
    let seed = format!("0x{}", "01".repeat(32));
    let expected = sp_core::sr25519::Pair::from_string(&seed, None).unwrap().public().0;
    assert_eq!(account_of_secret(&seed, KeyRole::Signer), Ok(AccountId(expected)));
}

#[test]
fn a_secret_that_yields_no_key_fails_for_its_role() {
    for role in [KeyRole::Signer, KeyRole::Target, KeyRole::Requester] {
        assert_eq!(
            account_of_secret("not a secret phrase", role),
            Err(Error::KeyDerivationError { role })
        );
    }
    assert_eq!(
        account_of_secret("0x1234", KeyRole::Signer),
        Err(Error::KeyDerivationError { role: KeyRole::Signer })
    );
}

#[test]
fn signer_of_options() {
    let signer = opts("//Alice", None).signer().ok().unwrap();
    assert_eq!(signer.account(), id(ALICE));
    assert_eq!(signer.pair().public().0, id(ALICE).0);
}

#[test]
fn the_password_changes_the_key() {
    let with_password = opts("//Alice", Some("password")).signer().ok().unwrap();
    assert_ne!(with_password.account(), id(ALICE));
    let in_the_uri = account_of_secret("//Alice///password", KeyRole::Signer).unwrap();
    assert_eq!(with_password.account(), in_the_uri);
}

#[test]
fn signer_of_a_bad_secret_fails() {
    match opts("//Alice/", None).signer() {
        Err(e) => assert_eq!(e, Error::KeyDerivationError { role: KeyRole::Signer }),
        Ok(_) => panic!("a dangling separator is no path"),
    }
}

#[test]
fn derive_names_the_role_in_its_failure() {
    match Signer::derive("?", None, KeyRole::Requester) {
        Err(e) => assert_eq!(e, Error::KeyDerivationError { role: KeyRole::Requester }),
        Ok(_) => panic!("a question mark is no secret"),
    }
}

#[test]
fn thirty_two_bytes_are_an_account() {
    let bytes: Vec<u8> = (0u8..32).collect();
    let account = AccountId::from_slice(&bytes).unwrap();
    for i in 0..32 {
        assert_eq!(account.0[i], i as u8);
    }
}

#[test]
fn other_lengths_are_no_account() {
    let wrong = Err(Error::InvalidHexInput { cause: HexError::InvalidStringLength });
    assert_eq!(AccountId::from_slice(&[]), wrong);
    assert_eq!(AccountId::from_slice(&[0]), wrong);
    assert_eq!(AccountId::from_slice(&[0; 31]), wrong);
    assert_eq!(AccountId::from_slice(&[0; 33]), wrong);
}
