//! How a command goes on from each step, given the host's answer.

use crate::account::{account_of_secret, AccountId, Signer};
use crate::call::Call;
use crate::code::CodeSource;
use crate::error::{Error, KeyRole};
use crate::opts::ExtrinsicOpts;
use crate::protocol::{
    after_announcement, after_answer, after_code, after_schedule, after_tool, announce_entry,
    contracts_gateway_call, runtime_gateway_call, start_entry,
};
use crate::schedule::{targets_view, ComposableSchedule, DeployTarget, TargetView};
use crate::step::{
    optional_schedule, Announcement, Batch, CodeRequest, Purpose, Resume, ScheduleRequest, Step,
    Submission, Tool,
};
use crate::text::{concat, concat3, quoted};
use vstd::prelude::*;
use vstd::string::StringExecFns;

verus! {

/// The view of a text that the host reports: what was produced, or the text of a failure.
pub open spec fn report_view(report: Result<String, String>) -> Result<Seq<char>, Seq<char>> {
    match report {
        Ok(text) => Ok(text@),
        Err(text) => Err(text@),
    }
}

/// The view of what the host found of the project's metadata.
pub open spec fn metadata_view(metadata: Result<Option<ComposableSchedule>, String>) -> Result<
    Option<Option<Seq<TargetView>>>,
    Seq<char>,
> {
    match metadata {
        Ok(schedule) => Ok(optional_schedule(schedule)),
        Err(reason) => Err(reason@),
    }
}

/// The view of bytecode that may be missing.
pub open spec fn contents_view(contents: Option<Vec<u8>>) -> Option<Seq<u8>> {
    match contents {
        Some(code) => Some(code@),
        None => None,
    }
}

impl Tool {
    /// Takes the outcome of the tool's run: the text of what it produced, or of its failure.
    ///
    /// The command ends either way: with a message that names the product, or with
    /// `ToolError`.
    pub fn finished(self, result: Result<String, String>) -> (next: Step)
        ensures
            next@ == after_tool(self@, report_view(result)),
    {
        match result {
            Ok(produced) => {
                let message = match self {
                    Tool::Scaffold { .. } => produced,
                    Tool::Build { .. } => concat(
                        "\nYour contract is ready. You can find it here:\n",
                        produced.as_str(),
                    ),
                    Tool::ComposableBuild { .. } => concat(
                        "\nYour composable contract(s) is/are ready. You can find it the following directory:\n",
                        produced.as_str(),
                    ),
                    Tool::GenerateMetadata { .. } => concat(
                        "Your metadata file is ready.\nYou can find it here:\n",
                        produced.as_str(),
                    ),
                };
                Step::Finish(Ok(message))
            },
            Err(text) => Step::Finish(Err(Error::ToolError { text })),
        }
    }
}

impl ScheduleRequest {
    /// Takes what the host found of the project's metadata: the schedule section, `None` where
    /// the metadata has none, or the reason why the metadata could not be read.
    ///
    /// Unreadable metadata ends the command with `MetadataReadError`; otherwise the banner of
    /// the deployment is shown next.
    pub fn loaded(self, metadata: Result<Option<ComposableSchedule>, String>) -> (next: Step)
        ensures
            next@ == after_schedule(self.suri@, metadata_view(metadata)),
    {
        match metadata {
            Ok(schedule) => Step::Announce(
                Announcement {
                    line: "Deploy composable components to appointed urls".to_owned(),
                    resume: Resume::Schedule { suri: self.suri, schedule },
                },
            ),
            Err(reason) => Step::Finish(Err(Error::MetadataReadError { reason })),
        }
    }
}

/// Opens the deployment of the first of `targets`.
fn entry_announcement(suri: String, targets: Vec<DeployTarget>) -> (next: Step)
    requires
        targets.len() > 0,
    ensures
        next@ == announce_entry(suri@, targets_view(targets@)),
{
    let mut rest = targets;
    let current = rest.remove(0);
    let mut line = "Deploying: DeployTarget { compose: ".to_owned();
    line.append(quoted(current.compose.as_str()).as_str());
    line.append(", url: ");
    line.append(quoted(current.url.as_str()).as_str());
    line.append(" }");
    assert(targets_view(rest@) =~= targets_view(targets@).skip(1));
    Step::Announce(Announcement { line, resume: Resume::Entry { batch: Batch { suri, current, rest } } })
}

/// Starts the deployment of the current entry of `batch`.
fn begin_entry(batch: Batch) -> (next: Step)
    ensures
        next@ == start_entry(batch@),
{
    match ExtrinsicOpts::new(batch.current.url.as_str(), batch.suri.clone(), None) {
        Err(e) => Step::Finish(Err(e)),
        Ok(opts) => match opts.signer() {
            Err(e) => Step::Finish(Err(e)),
            Ok(signer) => Step::ReadCode(
                CodeRequest {
                    source: CodeSource::Component { name: batch.current.compose.clone() },
                    url: opts.url,
                    signer,
                    purpose: Purpose::Deploy { batch: Some(batch) },
                },
            ),
        },
    }
}

/// Builds the call through the contracts gateway.
fn contracts_gateway(
    url: String,
    signer: Signer,
    code: Vec<u8>,
    target: Vec<u8>,
    requester: String,
    phase: u8,
    value: u128,
    gas_limit: u64,
    data: Vec<u8>,
) -> (next: Step)
    ensures
        next@ == contracts_gateway_call(
            url@,
            signer.account_id()@,
            code@,
            target@,
            requester@,
            phase,
            value,
            gas_limit,
            data@,
        ),
{
    let requester_id = match account_of_secret(requester.as_str(), KeyRole::Requester) {
        Ok(id) => id,
        Err(e) => {
            return Step::Finish(Err(e));
        },
    };
    let target_id = match AccountId::from_slice(target.as_slice()) {
        Ok(id) => id,
        Err(e) => {
            return Step::Finish(Err(e));
        },
    };
    Step::Submit(
        Submission {
            url,
            signer,
            call: Call::ContractsGateway {
                requester: requester_id,
                target: target_id,
                phase,
                code,
                value,
                gas_limit,
                data,
            },
            batch: None,
        },
    )
}

/// Builds the call through the runtime gateway.
fn runtime_gateway(
    url: String,
    signer: Signer,
    code: Vec<u8>,
    target: String,
    requester: String,
    phase: u8,
    value: u128,
    gas_limit: u64,
    data: Vec<u8>,
) -> (next: Step)
    ensures
        next@ == runtime_gateway_call(
            url@,
            signer.account_id()@,
            code@,
            target@,
            requester@,
            phase,
            value,
            gas_limit,
            data@,
        ),
{
    let target_id = match account_of_secret(target.as_str(), KeyRole::Target) {
        Ok(id) => id,
        Err(e) => {
            return Step::Finish(Err(e));
        },
    };
    let requester_id = match account_of_secret(requester.as_str(), KeyRole::Requester) {
        Ok(id) => id,
        Err(e) => {
            return Step::Finish(Err(e));
        },
    };
    Step::Submit(
        Submission {
            url,
            signer,
            call: Call::RuntimeGateway {
                requester: requester_id,
                target: target_id,
                phase,
                code,
                value,
                gas_limit,
                data,
            },
            batch: None,
        },
    )
}

impl Announcement {
    /// Goes on once the line has been shown.
    pub fn announced(self) -> (next: Step)
        ensures
            next@ == after_announcement(self@),
    {
        match self.resume {
            Resume::Schedule { suri, schedule } => match schedule {
                None => Step::Finish(
                    Err(
                        Error::MetadataReadError {
                            reason: "Failed to read composable metadata from JSON using serde. Make sure your Cargo.toml follows the composable metadata format".to_owned(),
                        },
                    ),
                ),
                Some(found) => match found.deploy {
                    None => Step::Finish(Err(Error::NothingToDeploy)),
                    Some(targets) => if targets.len() == 0 {
                        Step::Finish(Err(Error::NothingToDeploy))
                    } else {
                        entry_announcement(suri, targets)
                    },
                },
            },
            Resume::Entry { batch } => begin_entry(batch),
            Resume::Advance { batch } => if batch.rest.len() == 0 {
                Step::Finish(
                    Ok(
                        concat(
                            "All components successfully deployed for ",
                            quoted(batch.suri.as_str()).as_str(),
                        ),
                    ),
                )
            } else {
                entry_announcement(batch.suri, batch.rest)
            },
            Resume::Gateway {
                url,
                signer,
                target,
                requester,
                phase,
                value,
                gas_limit,
                data,
            } => contracts_gateway(
                url,
                signer,
                Vec::new(),
                target,
                requester,
                phase,
                value,
                gas_limit,
                data,
            ),
        }
    }
}

impl CodeRequest {
    /// Takes the outcome of reading the bytecode: the path that was tried, and the file's
    /// contents where it could be read.
    pub fn read(self, path: String, contents: Option<Vec<u8>>) -> (next: Step)
        ensures
            next@ == after_code(self@, path@, contents_view(contents)),
    {
        match self.purpose {
            Purpose::Deploy { batch } => match contents {
                None => Step::Finish(Err(Error::CodeNotFound { path })),
                Some(code) => Step::Submit(
                    Submission {
                        url: self.url,
                        signer: self.signer,
                        call: Call::PutCode { code },
                        batch,
                    },
                ),
            },
            Purpose::RuntimeGateway {
                target,
                requester,
                phase,
                value,
                gas_limit,
                data,
            } => match contents {
                None => Step::Finish(Err(Error::CodeNotFound { path })),
                Some(code) => runtime_gateway(
                    self.url,
                    self.signer,
                    code,
                    target,
                    requester,
                    phase,
                    value,
                    gas_limit,
                    data,
                ),
            },
            Purpose::ContractsGateway {
                target,
                requester,
                phase,
                value,
                gas_limit,
                data,
            } => match contents {
                None => Step::Announce(
                    Announcement {
                        line: "Correct code not found. Proceeding with a direct contract call at target_dest".to_owned(),
                        resume: Resume::Gateway {
                            url: self.url,
                            signer: self.signer,
                            target,
                            requester,
                            phase,
                            value,
                            gas_limit,
                            data,
                        },
                    },
                ),
                Some(code) => contracts_gateway(
                    self.url,
                    self.signer,
                    code,
                    target,
                    requester,
                    phase,
                    value,
                    gas_limit,
                    data,
                ),
            },
        }
    }
}

impl Submission {
    /// Takes the node's answer to the call: its text, or the text of its failure.
    pub fn answered(self, result: Result<String, String>) -> (next: Step)
        ensures
            next@ == after_answer(self@, report_view(result)),
    {
        match result {
            Err(text) => Step::Finish(Err(Error::RemoteCallError { text })),
            Ok(answer) => match self.batch {
                Some(batch) => {
                    let line = concat3(
                        batch.current.compose.as_str(),
                        " - successfully deployed byte code with hash:  ",
                        answer.as_str(),
                    );
                    Step::Announce(Announcement { line, resume: Resume::Advance { batch } })
                },
                None => Step::Finish(Ok(concat(self.call.label(), answer.as_str()))),
            },
        }
    }
}

} // verus!
