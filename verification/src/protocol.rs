//! The rules of the dialogue between a command and its host, as mathematics: for each step and
//! each answer of the host, the step that follows.

use crate::account::sr25519_public_key;
use crate::call::{result_label, CallView};
use crate::code::CodeSourceView;
use crate::error::{ErrorView, HexError, KeyRole};
use crate::opts::parsed_url;
use crate::schedule::TargetView;
use crate::step::{
    AnnouncementView, BatchView, CodeRequestView, PurposeView, ResumeView, StepView,
    SubmissionView, ToolView,
};
use crate::text::debug_quoted;
use vstd::prelude::*;

verus! {

/// The line that opens a composable deployment.
pub open spec fn banner() -> Seq<char> {
    "Deploy composable components to appointed urls"@
}

/// Why a composable deployment without a schedule fails.
pub open spec fn missing_schedule_reason() -> Seq<char> {
    "Failed to read composable metadata from JSON using serde. Make sure your Cargo.toml follows the composable metadata format"@
}

/// The line that announces the deployment of `target`.
pub open spec fn deploying_line(target: TargetView) -> Seq<char> {
    "Deploying: DeployTarget { compose: "@ + debug_quoted(target.compose) + ", url: "@
        + debug_quoted(target.url) + " }"@
}

/// The line that reports that `compose` was stored under `hash`.
pub open spec fn deployed_line(compose: Seq<char>, hash: Seq<char>) -> Seq<char> {
    compose + " - successfully deployed byte code with hash:  "@ + hash
}

/// The message that closes a composable deployment signed by `suri`.
pub open spec fn all_deployed_message(suri: Seq<char>) -> Seq<char> {
    "All components successfully deployed for "@ + debug_quoted(suri)
}

/// The warning shown when the contracts gateway is called without code.
pub open spec fn fallback_warning() -> Seq<char> {
    "Correct code not found. Proceeding with a direct contract call at target_dest"@
}

/// The message that reports what `tool` produced.
pub open spec fn tool_message(tool: ToolView, produced: Seq<char>) -> Seq<char> {
    match tool {
        ToolView::Scaffold { .. } => produced,
        ToolView::Build { .. } => "\nYour contract is ready. You can find it here:\n"@ + produced,
        ToolView::ComposableBuild { .. } =>
            "\nYour composable contract(s) is/are ready. You can find it the following directory:\n"@
            + produced,
        ToolView::GenerateMetadata { .. } =>
            "Your metadata file is ready.\nYou can find it here:\n"@ + produced,
    }
}

/// The step that fails a command with `error`.
pub open spec fn fail(error: ErrorView) -> StepView {
    StepView::Finish(Err(error))
}

/// What follows a tool's run: its product in a message, or its failure verbatim.
pub open spec fn after_tool(tool: ToolView, result: Result<Seq<char>, Seq<char>>) -> StepView {
    match result {
        Ok(produced) => StepView::Finish(Ok(tool_message(tool, produced))),
        Err(text) => fail(ErrorView::ToolError { text }),
    }
}

/// What follows the loading of the schedule: the banner, unless the metadata could not be read.
pub open spec fn after_schedule(
    suri: Seq<char>,
    metadata: Result<Option<Option<Seq<TargetView>>>, Seq<char>>,
) -> StepView {
    match metadata {
        Ok(schedule) => StepView::Announce(
            AnnouncementView { line: banner(), resume: ResumeView::Schedule { suri, schedule } },
        ),
        Err(reason) => fail(ErrorView::MetadataReadError { reason }),
    }
}

/// The announcement that opens the deployment of the first of `targets`.
pub open spec fn announce_entry(suri: Seq<char>, targets: Seq<TargetView>) -> StepView
    recommends
        targets.len() > 0,
{
    StepView::Announce(
        AnnouncementView {
            line: deploying_line(targets[0]),
            resume: ResumeView::Entry {
                batch: BatchView { suri, current: targets[0], rest: targets.skip(1) },
            },
        },
    )
}

/// The start of a composable deployment: its first entry, or the failure to find one.
pub open spec fn start_schedule(suri: Seq<char>, schedule: Option<Option<Seq<TargetView>>>) -> StepView {
    match schedule {
        None => fail(ErrorView::MetadataReadError { reason: missing_schedule_reason() }),
        Some(None) => fail(ErrorView::NothingToDeploy),
        Some(Some(targets)) => if targets.len() == 0 {
            fail(ErrorView::NothingToDeploy)
        } else {
            announce_entry(suri, targets)
        },
    }
}

/// The deployment of the current entry of `batch`: its URL is parsed, its signer derived without
/// a password, and its bytecode asked for.
pub open spec fn start_entry(batch: BatchView) -> StepView {
    match parsed_url(batch.current.url) {
        Err(reason) => fail(ErrorView::InvalidUrl { input: batch.current.url, reason }),
        Ok(url) => match sr25519_public_key(batch.suri, None) {
            None => fail(ErrorView::KeyDerivationError { role: KeyRole::Signer }),
            Some(account) => StepView::ReadCode(
                CodeRequestView {
                    source: CodeSourceView::Component { name: batch.current.compose },
                    url,
                    account,
                    purpose: PurposeView::Deploy { batch: Some(batch) },
                },
            ),
        },
    }
}

/// What follows a deployed entry: the next entry, or the closing message.
pub open spec fn advance(batch: BatchView) -> StepView {
    if batch.rest.len() == 0 {
        StepView::Finish(Ok(all_deployed_message(batch.suri)))
    } else {
        announce_entry(batch.suri, batch.rest)
    }
}

/// The call through the contracts gateway: the requester is derived, and the target must be
/// the 32 bytes of an account.
pub open spec fn contracts_gateway_call(
    url: Seq<char>,
    account: Seq<u8>,
    code: Seq<u8>,
    target: Seq<u8>,
    requester: Seq<char>,
    phase: u8,
    value: u128,
    gas_limit: u64,
    data: Seq<u8>,
) -> StepView {
    match sr25519_public_key(requester, None) {
        None => fail(ErrorView::KeyDerivationError { role: KeyRole::Requester }),
        Some(requester_id) => if target.len() != 32 {
            fail(ErrorView::InvalidHexInput { cause: HexError::InvalidStringLength })
        } else {
            StepView::Submit(
                SubmissionView {
                    url,
                    account,
                    call: CallView::ContractsGateway {
                        requester: requester_id,
                        target,
                        phase,
                        code,
                        value,
                        gas_limit,
                        data,
                    },
                    batch: None,
                },
            )
        },
    }
}

/// The call through the runtime gateway: target and requester are derived, in this order.
pub open spec fn runtime_gateway_call(
    url: Seq<char>,
    account: Seq<u8>,
    code: Seq<u8>,
    target: Seq<char>,
    requester: Seq<char>,
    phase: u8,
    value: u128,
    gas_limit: u64,
    data: Seq<u8>,
) -> StepView {
    match sr25519_public_key(target, None) {
        None => fail(ErrorView::KeyDerivationError { role: KeyRole::Target }),
        Some(target_id) => match sr25519_public_key(requester, None) {
            None => fail(ErrorView::KeyDerivationError { role: KeyRole::Requester }),
            Some(requester_id) => StepView::Submit(
                SubmissionView {
                    url,
                    account,
                    call: CallView::RuntimeGateway {
                        requester: requester_id,
                        target: target_id,
                        phase,
                        code,
                        value,
                        gas_limit,
                        data,
                    },
                    batch: None,
                },
            ),
        },
    }
}

/// What follows a shown line.
pub open spec fn after_announcement(announcement: AnnouncementView) -> StepView {
    match announcement.resume {
        ResumeView::Schedule { suri, schedule } => start_schedule(suri, schedule),
        ResumeView::Entry { batch } => start_entry(batch),
        ResumeView::Advance { batch } => advance(batch),
        ResumeView::Gateway {
            url,
            account,
            target,
            requester,
            phase,
            value,
            gas_limit,
            data,
        } => contracts_gateway_call(
            url,
            account,
            Seq::empty(),
            target,
            requester,
            phase,
            value,
            gas_limit,
            data,
        ),
    }
}

/// What follows the reading of bytecode from `path`.
///
/// Missing bytecode fails a deployment and a runtime gateway call with `CodeNotFound`. The
/// contracts gateway alone goes on without it, after a warning.
pub open spec fn after_code(
    request: CodeRequestView,
    path: Seq<char>,
    contents: Option<Seq<u8>>,
) -> StepView {
    match request.purpose {
        PurposeView::Deploy { batch } => match contents {
            None => fail(ErrorView::CodeNotFound { path }),
            Some(code) => StepView::Submit(
                SubmissionView {
                    url: request.url,
                    account: request.account,
                    call: CallView::PutCode { code },
                    batch,
                },
            ),
        },
        PurposeView::RuntimeGateway {
            target,
            requester,
            phase,
            value,
            gas_limit,
            data,
        } => match contents {
            None => fail(ErrorView::CodeNotFound { path }),
            Some(code) => runtime_gateway_call(
                request.url,
                request.account,
                code,
                target,
                requester,
                phase,
                value,
                gas_limit,
                data,
            ),
        },
        PurposeView::ContractsGateway {
            target,
            requester,
            phase,
            value,
            gas_limit,
            data,
        } => match contents {
            None => StepView::Announce(
                AnnouncementView {
                    line: fallback_warning(),
                    resume: ResumeView::Gateway {
                        url: request.url,
                        account: request.account,
                        target,
                        requester,
                        phase,
                        value,
                        gas_limit,
                        data,
                    },
                },
            ),
            Some(code) => contracts_gateway_call(
                request.url,
                request.account,
                code,
                target,
                requester,
                phase,
                value,
                gas_limit,
                data,
            ),
        },
    }
}

/// What follows the node's answer to a call.
///
/// A failure ends the command with the node's text, whatever is left of a schedule. A success
/// ends a single operation with its message, and is announced within a composable deployment.
pub open spec fn after_answer(
    submission: SubmissionView,
    result: Result<Seq<char>, Seq<char>>,
) -> StepView {
    match result {
        Err(text) => fail(ErrorView::RemoteCallError { text }),
        Ok(answer) => match submission.batch {
            Some(batch) => StepView::Announce(
                AnnouncementView {
                    line: deployed_line(batch.current.compose, answer),
                    resume: ResumeView::Advance { batch },
                },
            ),
            None => StepView::Finish(Ok(result_label(submission.call) + answer)),
        },
    }
}

} // verus!
