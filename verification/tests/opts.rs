use cargo_contract::code::{default_code_path, CodeSource};
use cargo_contract::error::Error;
use cargo_contract::opts::ExtrinsicOpts;

#[test]
fn the_url_is_kept_as_the_parser_writes_it() {
    let opts = ExtrinsicOpts::new("ws://localhost:9944", "//Alice".to_string(), None).unwrap();
    assert_eq!(opts.url, "ws://localhost:9944/");
    assert_eq!(opts.suri, "//Alice");
    assert_eq!(opts.password, None);

    let opts = ExtrinsicOpts::new(
        "WSS://Example.COM:443/a/../b",
        "//Bob".to_string(),
        Some("pw".to_string()),
    )
    .unwrap();
    assert_eq!(opts.url, "wss://example.com/b");
    assert_eq!(opts.password, Some("pw".to_string()));
}

#[test]
fn text_that_is_no_url_is_rejected_with_the_reason() {
    assert_eq!(
        ExtrinsicOpts::new("localhost", "//Alice".to_string(), None),
        Err(Error::InvalidUrl {
            input: "localhost".to_string(),
            reason: "relative URL without a base".to_string()
        })
    );
    assert_eq!(
        ExtrinsicOpts::new("ws://:9944", "//Alice".to_string(), None),
        Err(Error::InvalidUrl {
            input: "ws://:9944".to_string(),
            reason: "empty host".to_string()
        })
    );
    assert_eq!(
        ExtrinsicOpts::new("ws://localhost:99999", "//Alice".to_string(), None),
        Err(Error::InvalidUrl {
            input: "ws://localhost:99999".to_string(),
            reason: "invalid port number".to_string()
        })
    );
}

#[test]
fn default_path_of_a_package() {
    assert_eq!(default_code_path("flipper"), "./target/flipper-pruned.wasm");
    assert_eq!(default_code_path(""), "./target/-pruned.wasm");
    assert_eq!(default_code_path("my-contract"), "./target/my-contract-pruned.wasm");
}

#[test]
fn a_given_path_wins_over_the_default() {
    assert_eq!(
        CodeSource::from_path(Some("x.wasm".to_string())),
        CodeSource::Explicit { path: "x.wasm".to_string() }
    );
    assert_eq!(CodeSource::from_path(None), CodeSource::PackageDefault);
}
