use cargo_contract::error::Error;
use cargo_contract::flags::{UnstableFlags, UnstableOptions, Verbosity, VerbosityFlags};

fn options(names: &[&str]) -> UnstableOptions {
    UnstableOptions { options: names.iter().map(|n| n.to_string()).collect() }
}

#[test]
fn verbosity_of_each_pair_of_switches() {
    let pair = |quiet, verbose| Verbosity::try_from(&VerbosityFlags { quiet, verbose });
    assert_eq!(pair(false, false), Ok(None));
    assert_eq!(pair(true, false), Ok(Some(Verbosity::Quiet)));
    assert_eq!(pair(false, true), Ok(Some(Verbosity::Verbose)));
    assert_eq!(pair(true, true), Err(Error::ConflictingFlags));
}

#[test]
fn no_unstable_options_switch_nothing_on() {
    assert_eq!(UnstableFlags::try_from(&options(&[])), Ok(UnstableFlags { original_manifest: false }));
}

#[test]
fn original_manifest_is_accepted() {
    assert_eq!(
        UnstableFlags::try_from(&options(&["original-manifest"])),
        Ok(UnstableFlags { original_manifest: true })
    );
    assert_eq!(
        UnstableFlags::try_from(&options(&["original-manifest", "original-manifest"])),
        Ok(UnstableFlags { original_manifest: true })
    );
}

#[test]
fn every_foreign_option_is_named_in_input_order() {
    assert_eq!(
        UnstableFlags::try_from(&options(&["zeta", "original-manifest", "alpha", "zeta"])),
        Err(Error::UnknownOption {
            names: vec!["zeta".to_string(), "alpha".to_string(), "zeta".to_string()]
        })
    );
}

#[test]
fn option_names_are_matched_exactly() {
    assert_eq!(
        UnstableFlags::try_from(&options(&["Original-Manifest"])),
        Err(Error::UnknownOption { names: vec!["Original-Manifest".to_string()] })
    );
    assert_eq!(
        UnstableFlags::try_from(&options(&["original-manifest "])),
        Err(Error::UnknownOption { names: vec!["original-manifest ".to_string()] })
    );
    assert_eq!(
        UnstableFlags::try_from(&options(&[""])),
        Err(Error::UnknownOption { names: vec![String::new()] })
    );
}
