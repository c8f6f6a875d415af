use cargo_contract::call::Call;
use cargo_contract::code::CodeSource;
use cargo_contract::command::{exec, Command};
use cargo_contract::error::{Error, KeyRole};
use cargo_contract::schedule::{ComposableSchedule, DeployTarget};
use cargo_contract::step::Step;

/// A host that answers from a script and writes down what it was asked to do.
struct Host {
    metadata: Result<Option<ComposableSchedule>, String>,
    /// Components whose bytecode cannot be read.
    missing: Vec<String>,
    /// URLs of the nodes that reject what is submitted to them.
    rejecting: Vec<String>,
    log: Vec<String>,
}

impl Host {
    fn new(metadata: Result<Option<ComposableSchedule>, String>) -> Host {
        Host { metadata, missing: vec![], rejecting: vec![], log: vec![] }
    }

    fn run(&mut self, first: Step) -> Result<String, Error> {
        let mut step = first;
        loop {
            step = match step {
                Step::RunTool(_) => panic!("a deployment runs no tool"),
                Step::LoadSchedule(request) => {
                    self.log.push("load schedule".to_string());
                    request.loaded(self.metadata.clone())
                }
                Step::Announce(announcement) => {
                    self.log.push(format!("show {}", announcement.line));
                    announcement.announced()
                }
                Step::ReadCode(request) => {
                    let name = match &request.source {
                        CodeSource::Component { name } => name.clone(),
                        _ => panic!("a deployment reads the code of components"),
                    };
                    let path = format!("./target/composable/{}.wasm", name);
                    self.log.push(format!("read {}", path));
                    let contents = if self.missing.contains(&name) {
                        None
                    } else {
                        Some(name.clone().into_bytes())
                    };
                    request.read(path, contents)
                }
                Step::Submit(submission) => {
                    let code = match &submission.call {
                        Call::PutCode { code } => String::from_utf8(code.clone()).unwrap(),
                        _ => panic!("a deployment stores code"),
                    };
                    self.log.push(format!("submit {} to {}", code, submission.url));
                    let answer = if self.rejecting.contains(&submission.url) {
                        Err(format!("{} says no", submission.url))
                    } else {
                        Ok(format!("0x{}", hex::encode(&code)))
                    };
                    submission.answered(answer)
                }
                Step::Finish(outcome) => return outcome,
            }
        }
    }
}

fn target(compose: &str, url: &str) -> DeployTarget {
    DeployTarget { compose: compose.to_string(), url: url.to_string() }
}

fn schedule(targets: Vec<DeployTarget>) -> Result<Option<ComposableSchedule>, String> {
    Ok(Some(ComposableSchedule { deploy: Some(targets) }))
}

fn deploy(host: &mut Host, suri: &str) -> Result<String, Error> {
    host.run(exec(Command::ComposableDeploy { suri: suri.to_string() }))
}

fn three() -> Vec<DeployTarget> {
    vec![
        target("flipper", "ws://one.example:9944"),
        target("storage", "ws://two.example:9944"),
        target("erc20", "ws://three.example:9944"),
    ]
}

const BANNER: &str = "show Deploy composable components to appointed urls";

#[test]
fn unreadable_metadata_fails_before_anything_is_shown() {
    let mut host = Host::new(Err("no Cargo.toml here".to_string()));
    assert_eq!(
        deploy(&mut host, "//Alice"),
        Err(Error::MetadataReadError { reason: "no Cargo.toml here".to_string() })
    );
    assert_eq!(host.log, vec!["load schedule"]);
}

#[test]
fn metadata_without_a_schedule_fails() {
    let mut host = Host::new(Ok(None));
    assert_eq!(
        deploy(&mut host, "//Alice"),
        Err(Error::MetadataReadError {
            reason: "Failed to read composable metadata from JSON using serde. Make sure your Cargo.toml follows the composable metadata format".to_string()
        })
    );
    assert_eq!(host.log, vec!["load schedule", BANNER]);
}

#[test]
fn an_absent_deploy_list_is_nothing_to_deploy() {
    let mut host = Host::new(Ok(Some(ComposableSchedule { deploy: None })));
    assert_eq!(deploy(&mut host, "//Alice"), Err(Error::NothingToDeploy));
    assert_eq!(host.log, vec!["load schedule", BANNER]);
}

#[test]
fn an_empty_deploy_list_is_nothing_to_deploy() {
    let mut host = Host::new(schedule(vec![]));
    assert_eq!(deploy(&mut host, "//Alice"), Err(Error::NothingToDeploy));
    assert_eq!(host.log, vec!["load schedule", BANNER]);
}

#[test]
fn nothing_to_deploy_is_found_before_the_secret_is_looked_at() {
    let mut host = Host::new(schedule(vec![]));
    assert_eq!(deploy(&mut host, "no such secret"), Err(Error::NothingToDeploy));
}

#[test]
fn every_entry_is_deployed_in_schedule_order() {
    let mut host = Host::new(schedule(three()));
    assert_eq!(
        deploy(&mut host, "//Alice"),
        Ok("All components successfully deployed for \"//Alice\"".to_string())
    );
    assert_eq!(
        host.log,
        vec![
            "load schedule",
            BANNER,
            "show Deploying: DeployTarget { compose: \"flipper\", url: \"ws://one.example:9944\" }",
            "read ./target/composable/flipper.wasm",
            "submit flipper to ws://one.example:9944/",
            "show flipper - successfully deployed byte code with hash:  0x666c6970706572",
            "show Deploying: DeployTarget { compose: \"storage\", url: \"ws://two.example:9944\" }",
            "read ./target/composable/storage.wasm",
            "submit storage to ws://two.example:9944/",
            "show storage - successfully deployed byte code with hash:  0x73746f72616765",
            "show Deploying: DeployTarget { compose: \"erc20\", url: \"ws://three.example:9944\" }",
            "read ./target/composable/erc20.wasm",
            "submit erc20 to ws://three.example:9944/",
            "show erc20 - successfully deployed byte code with hash:  0x6572633230",
        ]
    );
}

#[test]
fn a_single_entry_is_a_schedule() {
    let mut host = Host::new(schedule(vec![target("flipper", "ws://one.example:9944")]));
    assert_eq!(
        deploy(&mut host, "//Bob"),
        Ok("All components successfully deployed for \"//Bob\"".to_string())
    );
    assert_eq!(host.log.len(), 6);
}

#[test]
fn a_rejected_entry_stops_the_deployment() {
    let mut host = Host::new(schedule(three()));
    host.rejecting.push("ws://two.example:9944/".to_string());
    assert_eq!(
        deploy(&mut host, "//Alice"),
        Err(Error::RemoteCallError { text: "ws://two.example:9944/ says no".to_string() })
    );
    assert_eq!(
        host.log,
        vec![
            "load schedule",
            BANNER,
            "show Deploying: DeployTarget { compose: \"flipper\", url: \"ws://one.example:9944\" }",
            "read ./target/composable/flipper.wasm",
            "submit flipper to ws://one.example:9944/",
            "show flipper - successfully deployed byte code with hash:  0x666c6970706572",
            "show Deploying: DeployTarget { compose: \"storage\", url: \"ws://two.example:9944\" }",
            "read ./target/composable/storage.wasm",
            "submit storage to ws://two.example:9944/",
        ]
    );
}

#[test]
fn a_rejected_first_entry_deploys_nothing() {
    let mut host = Host::new(schedule(three()));
    host.rejecting.push("ws://one.example:9944/".to_string());
    assert_eq!(
        deploy(&mut host, "//Alice"),
        Err(Error::RemoteCallError { text: "ws://one.example:9944/ says no".to_string() })
    );
    assert_eq!(host.log.len(), 5);
    assert!(host.log.iter().all(|line| !line.contains("storage") && !line.contains("erc20")));
    assert!(host.log.iter().all(|line| !line.contains("successfully")));
}

#[test]
fn a_rejected_last_entry_leaves_the_others_deployed() {
    let mut host = Host::new(schedule(three()));
    host.rejecting.push("ws://three.example:9944/".to_string());
    assert_eq!(
        deploy(&mut host, "//Alice"),
        Err(Error::RemoteCallError { text: "ws://three.example:9944/ says no".to_string() })
    );
    let deployed: Vec<&String> =
        host.log.iter().filter(|line| line.contains("successfully")).collect();
    assert_eq!(
        deployed,
        vec![
            "show flipper - successfully deployed byte code with hash:  0x666c6970706572",
            "show storage - successfully deployed byte code with hash:  0x73746f72616765",
        ]
    );
}

#[test]
fn missing_bytecode_stops_the_deployment() {
    let mut host = Host::new(schedule(three()));
    host.missing.push("storage".to_string());
    assert_eq!(
        deploy(&mut host, "//Alice"),
        Err(Error::CodeNotFound { path: "./target/composable/storage.wasm".to_string() })
    );
    assert_eq!(host.log.len(), 8);
    assert_eq!(host.log[7], "read ./target/composable/storage.wasm");
    assert!(host.log.iter().all(|line| !line.contains("erc20")));
}

#[test]
fn an_entry_whose_url_is_none_stops_the_deployment() {
    let mut targets = three();
    targets[1].url = "two.example".to_string();
    let mut host = Host::new(schedule(targets));
    assert_eq!(
        deploy(&mut host, "//Alice"),
        Err(Error::InvalidUrl {
            input: "two.example".to_string(),
            reason: "relative URL without a base".to_string()
        })
    );
    assert_eq!(
        host.log[6],
        "show Deploying: DeployTarget { compose: \"storage\", url: \"two.example\" }"
    );
    assert_eq!(host.log.len(), 7);
}

#[test]
fn a_secret_without_a_key_stops_the_deployment_at_its_first_entry() {
    let mut host = Host::new(schedule(three()));
    assert_eq!(
        deploy(&mut host, "no such secret"),
        Err(Error::KeyDerivationError { role: KeyRole::Signer })
    );
    assert_eq!(
        host.log,
        vec![
            "load schedule",
            BANNER,
            "show Deploying: DeployTarget { compose: \"flipper\", url: \"ws://one.example:9944\" }",
        ]
    );
}

#[test]
fn every_entry_is_signed_by_the_one_secret_without_a_password() {
    let first = exec(Command::ComposableDeploy { suri: "//Alice".to_string() });
    let mut step = match first {
        Step::LoadSchedule(request) => request.loaded(schedule(three())),
        _ => panic!("no schedule is asked for"),
    };
    let mut signers = Vec::new();
    loop {
        step = match step {
            Step::Announce(announcement) => announcement.announced(),
            Step::ReadCode(request) => {
                signers.push(hex::encode(request.signer.account().0));
                request.read("p".to_string(), Some(vec![]))
            }
            Step::Submit(submission) => submission.answered(Ok("0x00".to_string())),
            Step::Finish(_) => break,
            _ => panic!("a deployment does nothing else"),
        }
    }
    let alice = "d43593c715fdd31c61141abd04a99fd6822c8558854ccde39a5684e7a56da27d";
    assert_eq!(signers, vec![alice, alice, alice]);
}

#[test]
fn the_announcement_of_an_entry_is_its_debug_form() {
    let odd = target("a \"quoted\" name", "ws://h/\\path\n");
    let expected = format!("show Deploying: {:?}", odd);
    let mut host = Host::new(schedule(vec![odd]));
    let _ = deploy(&mut host, "//Alice");
    assert_eq!(host.log[2], expected);
    assert!(host.log[2].contains("\\\"quoted\\\""));
}
