//! The commands and the step that each of them begins with.

use crate::account::{sr25519_public_key, AccountId};
use crate::call::{Call, CallView};
use crate::code::{CodeSource, CodeSourceView};
use crate::codehash::CodeHash;
use crate::error::{Error, ErrorView, HexError, KeyRole};
use crate::flags::{
    accepted_flags, unknown_options, UnstableFlags, UnstableOptions, Verbosity, VerbosityFlags,
};
use crate::hexdata::HexData;
use crate::opts::{optional_string, ExtrinsicOpts};
use crate::protocol::fail;
use crate::step::{
    CodeRequest, CodeRequestView, Purpose, PurposeView, ScheduleRequest, Step, StepView,
    Submission, SubmissionView, Tool, ToolView,
};
use vstd::prelude::*;

verus! {

/// What the user asked for.
#[derive(Debug, Clone, PartialEq, Eq)]
pub enum Command {
    /// Set up a new contract project.
    New { name: String, target_dir: Option<String> },
    /// Compile the contract.
    Build { verbosity: VerbosityFlags, unstable_options: UnstableOptions },
    /// Compile every contract of the composable schedule.
    ComposableBuild { verbosity: VerbosityFlags, unstable_options: UnstableOptions },
    /// Generate the contract's metadata.
    GenerateMetadata { verbosity: VerbosityFlags, unstable_options: UnstableOptions },
    /// Test the contract off chain.
    Test,
    /// Upload the contract's code.
    Deploy { extrinsic_opts: ExtrinsicOpts, wasm_path: Option<String> },
    /// Upload the code of every entry of the composable schedule.
    ComposableDeploy { suri: String },
    /// Create a contract from uploaded code.
    Instantiate {
        extrinsic_opts: ExtrinsicOpts,
        endowment: u128,
        gas_limit: u64,
        code_hash: CodeHash,
        data: HexData,
    },
    /// Execute through the runtime gateway.
    CallRuntimeGateway {
        extrinsic_opts: ExtrinsicOpts,
        target: String,
        requester: String,
        phase: u8,
        value: u128,
        gas_limit: u64,
        wasm_path: Option<String>,
        data: HexData,
    },
    /// Execute through the contracts gateway.
    CallContractsGateway {
        extrinsic_opts: ExtrinsicOpts,
        target: HexData,
        requester: String,
        phase: u8,
        value: u128,
        gas_limit: u64,
        wasm_path: Option<String>,
        data: HexData,
    },
    /// Call an existing contract directly.
    CallContract {
        extrinsic_opts: ExtrinsicOpts,
        target: HexData,
        value: u128,
        gas_limit: u64,
        data: HexData,
    },
}

/// The view of the bytecode source that an optional path selects.
pub open spec fn source_view(path: Option<String>) -> CodeSourceView {
    match path {
        Some(p) => CodeSourceView::Explicit { path: p@ },
        None => CodeSourceView::PackageDefault,
    }
}

/// The step that follows the validation of a build command's flags: the tool's run, or the
/// first flag error. Contradicting verbosity switches are reported before unknown options.
pub open spec fn validated(
    verbosity: VerbosityFlags,
    options: Seq<Seq<char>>,
    tool: spec_fn(Option<Verbosity>, UnstableFlags) -> ToolView,
) -> StepView {
    if verbosity.quiet && verbosity.verbose {
        fail(ErrorView::ConflictingFlags)
    } else if unknown_options(options).len() > 0 {
        fail(ErrorView::UnknownOption { names: unknown_options(options) })
    } else {
        StepView::RunTool(
            tool(Verbosity::selected(verbosity.quiet, verbosity.verbose), accepted_flags(options)),
        )
    }
}

/// The step that follows the derivation of the signer of `opts`: `step` of the signer's
/// account, or the failure to derive it.
pub open spec fn signed(opts: ExtrinsicOpts, step: spec_fn(Seq<u8>) -> StepView) -> StepView {
    match sr25519_public_key(opts@.suri, opts@.password) {
        None => fail(ErrorView::KeyDerivationError { role: KeyRole::Signer }),
        Some(account) => step(account),
    }
}

/// The step that `cmd` begins with.
pub open spec fn first_step(cmd: Command) -> StepView {
    match cmd {
        Command::New { name, target_dir } => StepView::RunTool(
            ToolView::Scaffold { name: name@, target_dir: optional_string(target_dir) },
        ),
        Command::Build { verbosity, unstable_options } => validated(
            verbosity,
            unstable_options.options.deep_view(),
            |v: Option<Verbosity>, f: UnstableFlags|
                ToolView::Build { verbosity: v, unstable_flags: f },
        ),
        Command::ComposableBuild { verbosity, unstable_options } => validated(
            verbosity,
            unstable_options.options.deep_view(),
            |v: Option<Verbosity>, f: UnstableFlags|
                ToolView::ComposableBuild { verbosity: v, unstable_flags: f },
        ),
        Command::GenerateMetadata { verbosity, unstable_options } => validated(
            verbosity,
            unstable_options.options.deep_view(),
            |v: Option<Verbosity>, f: UnstableFlags|
                ToolView::GenerateMetadata { verbosity: v, unstable_flags: f },
        ),
        Command::Test => fail(ErrorView::Unimplemented),
        Command::Deploy { extrinsic_opts, wasm_path } => signed(
            extrinsic_opts,
            |account: Seq<u8>|
                StepView::ReadCode(
                    CodeRequestView {
                        source: source_view(wasm_path),
                        url: extrinsic_opts.url@,
                        account,
                        purpose: PurposeView::Deploy { batch: None },
                    },
                ),
        ),
        Command::ComposableDeploy { suri } => StepView::LoadSchedule { suri: suri@ },
        Command::Instantiate { extrinsic_opts, endowment, gas_limit, code_hash, data } => signed(
            extrinsic_opts,
            |account: Seq<u8>|
                StepView::Submit(
                    SubmissionView {
                        url: extrinsic_opts.url@,
                        account,
                        call: CallView::Instantiate {
                            endowment,
                            gas_limit,
                            code_hash: code_hash@,
                            data: data@,
                        },
                        batch: None,
                    },
                ),
        ),
        Command::CallRuntimeGateway {
            extrinsic_opts,
            target,
            requester,
            phase,
            value,
            gas_limit,
            wasm_path,
            data,
        } => signed(
            extrinsic_opts,
            |account: Seq<u8>|
                StepView::ReadCode(
                    CodeRequestView {
                        source: source_view(wasm_path),
                        url: extrinsic_opts.url@,
                        account,
                        purpose: PurposeView::RuntimeGateway {
                            target: target@,
                            requester: requester@,
                            phase,
                            value,
                            gas_limit,
                            data: data@,
                        },
                    },
                ),
        ),
        Command::CallContractsGateway {
            extrinsic_opts,
            target,
            requester,
            phase,
            value,
            gas_limit,
            wasm_path,
            data,
        } => signed(
            extrinsic_opts,
            |account: Seq<u8>|
                StepView::ReadCode(
                    CodeRequestView {
                        source: source_view(wasm_path),
                        url: extrinsic_opts.url@,
                        account,
                        purpose: PurposeView::ContractsGateway {
                            target: target@,
                            requester: requester@,
                            phase,
                            value,
                            gas_limit,
                            data: data@,
                        },
                    },
                ),
        ),
        Command::CallContract { extrinsic_opts, target, value, gas_limit, data } => signed(
            extrinsic_opts,
            |account: Seq<u8>|
                if target@.len() != 32 {
                    fail(ErrorView::InvalidHexInput { cause: HexError::InvalidStringLength })
                } else {
                    StepView::Submit(
                        SubmissionView {
                            url: extrinsic_opts.url@,
                            account,
                            call: CallView::Contract {
                                target: target@,
                                value,
                                gas_limit,
                                data: data@,
                            },
                            batch: None,
                        },
                    )
                },
        ),
    }
}

/// Validates the flags of a build command.
fn validate(verbosity: &VerbosityFlags, unstable_options: &UnstableOptions) -> (r: Result<
    (Option<Verbosity>, UnstableFlags),
    Error,
>)
    ensures
        match r {
            Ok((v, f)) => !(verbosity.quiet && verbosity.verbose) && unknown_options(
                unstable_options.options.deep_view(),
            ).len() == 0 && v == Verbosity::selected(verbosity.quiet, verbosity.verbose) && f
                == accepted_flags(unstable_options.options.deep_view()),
            Err(e) => if verbosity.quiet && verbosity.verbose {
                e@ == ErrorView::ConflictingFlags
            } else {
                unknown_options(unstable_options.options.deep_view()).len() > 0 && e@
                    == (ErrorView::UnknownOption {
                    names: unknown_options(unstable_options.options.deep_view()),
                })
            },
        },
{
    let v = match Verbosity::try_from(verbosity) {
        Ok(v) => v,
        Err(e) => {
            return Err(e);
        },
    };
    let f = match UnstableFlags::try_from(unstable_options) {
        Ok(f) => f,
        Err(e) => {
            return Err(e);
        },
    };
    Ok((v, f))
}

/// Begins `cmd`: validates its arguments, derives its signer where it has one, and names the
/// first piece of work for the host.
///
/// Every command maps to one step; flag errors, a secret that yields no key and a target of the
/// wrong length end the command before the host does anything.
pub fn exec(cmd: Command) -> (first: Step)
    ensures
        first@ == first_step(cmd),
{
    match cmd {
        Command::New { name, target_dir } => Step::RunTool(Tool::Scaffold { name, target_dir }),
        Command::Build { verbosity, unstable_options } => match validate(
            &verbosity,
            &unstable_options,
        ) {
            Ok((verbosity, unstable_flags)) => Step::RunTool(
                Tool::Build { verbosity, unstable_flags },
            ),
            Err(e) => Step::Finish(Err(e)),
        },
        Command::ComposableBuild { verbosity, unstable_options } => match validate(
            &verbosity,
            &unstable_options,
        ) {
            Ok((verbosity, unstable_flags)) => Step::RunTool(
                Tool::ComposableBuild { verbosity, unstable_flags },
            ),
            Err(e) => Step::Finish(Err(e)),
        },
        Command::GenerateMetadata { verbosity, unstable_options } => match validate(
            &verbosity,
            &unstable_options,
        ) {
            Ok((verbosity, unstable_flags)) => Step::RunTool(
                Tool::GenerateMetadata { verbosity, unstable_flags },
            ),
            Err(e) => Step::Finish(Err(e)),
        },
        Command::Test => Step::Finish(Err(Error::Unimplemented)),
        Command::Deploy { extrinsic_opts, wasm_path } => match extrinsic_opts.signer() {
            Err(e) => Step::Finish(Err(e)),
            Ok(signer) => Step::ReadCode(
                CodeRequest {
                    source: CodeSource::from_path(wasm_path),
                    url: extrinsic_opts.url,
                    signer,
                    purpose: Purpose::Deploy { batch: None },
                },
            ),
        },
        Command::ComposableDeploy { suri } => Step::LoadSchedule(ScheduleRequest { suri }),
        Command::Instantiate {
            extrinsic_opts,
            endowment,
            gas_limit,
            code_hash,
            data,
        } => match extrinsic_opts.signer() {
            Err(e) => Step::Finish(Err(e)),
            Ok(signer) => Step::Submit(
                Submission {
                    url: extrinsic_opts.url,
                    signer,
                    call: Call::Instantiate { endowment, gas_limit, code_hash, data: data.0 },
                    batch: None,
                },
            ),
        },
        Command::CallRuntimeGateway {
            extrinsic_opts,
            target,
            requester,
            phase,
            value,
            gas_limit,
            wasm_path,
            data,
        } => match extrinsic_opts.signer() {
            Err(e) => Step::Finish(Err(e)),
            Ok(signer) => Step::ReadCode(
                CodeRequest {
                    source: CodeSource::from_path(wasm_path),
                    url: extrinsic_opts.url,
                    signer,
                    purpose: Purpose::RuntimeGateway {
                        target,
                        requester,
                        phase,
                        value,
                        gas_limit,
                        data: data.0,
                    },
                },
            ),
        },
        Command::CallContractsGateway {
            extrinsic_opts,
            target,
            requester,
            phase,
            value,
            gas_limit,
            wasm_path,
            data,
        } => match extrinsic_opts.signer() {
            Err(e) => Step::Finish(Err(e)),
            Ok(signer) => Step::ReadCode(
                CodeRequest {
                    source: CodeSource::from_path(wasm_path),
                    url: extrinsic_opts.url,
                    signer,
                    purpose: Purpose::ContractsGateway {
                        target: target.0,
                        requester,
                        phase,
                        value,
                        gas_limit,
                        data: data.0,
                    },
                },
            ),
        },
        Command::CallContract {
            extrinsic_opts,
            target,
            value,
            gas_limit,
            data,
        } => match extrinsic_opts.signer() {
            Err(e) => Step::Finish(Err(e)),
            Ok(signer) => match AccountId::from_slice(target.0.as_slice()) {
                Err(e) => Step::Finish(Err(e)),
                Ok(target) => Step::Submit(
                    Submission {
                        url: extrinsic_opts.url,
                        signer,
                        call: Call::Contract { target, value, gas_limit, data: data.0 },
                        batch: None,
                    },
                ),
            },
        },
    }
}

} // verus!
