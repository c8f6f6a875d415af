use cargo_contract::error::{Error, HexError, KeyRole};
use cargo_contract::report::{final_line, ERROR_LABEL};

#[test]
fn fixed_texts() {
    assert_eq!(Error::ConflictingFlags.message(), "Cannot pass both --quiet and --verbose flags");
    assert_eq!(
        Error::NothingToDeploy.message(),
        "Nothing to deploy. Empty deploy key of composable metadata."
    );
    assert_eq!(Error::Unimplemented.message(), "Command unimplemented");
    assert_eq!(
        Error::InvalidCodeHashLength { len: 3 }.message(),
        "Code hash should be 32 bytes in length"
    );
}

#[test]
fn key_errors_name_the_role() {
    assert_eq!(
        Error::KeyDerivationError { role: KeyRole::Signer }.message(),
        "Secret string error"
    );
    assert_eq!(
        Error::KeyDerivationError { role: KeyRole::Target }.message(),
        "Target account read string error"
    );
    assert_eq!(
        Error::KeyDerivationError { role: KeyRole::Requester }.message(),
        "Requester account read string error"
    );
}

#[test]
fn unknown_options_are_listed_as_a_debug_list() {
    let names = |names: &[&str]| Error::UnknownOption {
        names: names.iter().map(|n| n.to_string()).collect(),
    };
    assert_eq!(names(&["a"]).message(), "Unknown unstable-options [\"a\"]");
    assert_eq!(names(&["a", "b", "c"]).message(), "Unknown unstable-options [\"a\", \"b\", \"c\"]");
    assert_eq!(names(&[]).message(), "Unknown unstable-options []");
    let listed = vec!["x\"y".to_string(), "tab\there".to_string()];
    assert_eq!(
        Error::UnknownOption { names: listed.clone() }.message(),
        format!("Unknown unstable-options {:?}", listed)
    );
}

#[test]
fn texts_from_outside_are_passed_on_verbatim() {
    assert_eq!(Error::RemoteCallError { text: "Rpc error".to_string() }.message(), "Rpc error");
    assert_eq!(Error::ToolError { text: "build failed".to_string() }.message(), "build failed");
    assert_eq!(Error::MetadataReadError { reason: "no manifest".to_string() }.message(), "no manifest");
    assert_eq!(
        Error::InvalidUrl { input: "x".to_string(), reason: "empty host".to_string() }.message(),
        "empty host"
    );
}

#[test]
fn missing_code_names_the_path() {
    assert_eq!(
        Error::CodeNotFound { path: "./target/flipper-pruned.wasm".to_string() }.message(),
        "Failed to open ./target/flipper-pruned.wasm"
    );
}

#[test]
fn decoding_failures_are_worded_as_the_decoder_words_them() {
    assert_eq!(
        Error::InvalidHexInput { cause: HexError::OddLength }.message(),
        "Odd number of digits"
    );
    assert_eq!(
        Error::InvalidHexInput { cause: HexError::InvalidStringLength }.message(),
        "Invalid string length"
    );
    assert_eq!(
        Error::InvalidHexInput { cause: HexError::InvalidHexCharacter { c: 'g', index: 17 } }
            .message(),
        "Invalid character 'g' at position 17"
    );
    assert_eq!(
        Error::InvalidHexInput { cause: HexError::InvalidHexCharacter { c: '\n', index: 5 } }
            .message(),
        "Invalid character '\\n' at position 5"
    );
}

#[test]
fn the_final_line_of_a_success_is_indented() {
    assert_eq!(final_line(&Ok("Code hash: 0x12".to_string())), "\tCode hash: 0x12");
    assert_eq!(final_line(&Ok(String::new())), "\t");
}

#[test]
fn the_final_line_of_a_failure_is_labelled() {
    assert_eq!(ERROR_LABEL, "ERROR:");
    assert_eq!(final_line(&Err(Error::Unimplemented)), "ERROR: Command unimplemented");
    assert_eq!(
        final_line(&Err(Error::RemoteCallError { text: "a\nb".to_string() })),
        "ERROR: a\nb"
    );
}
