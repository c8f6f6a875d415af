//! The steps of a command: what the host is asked to do, and the state that waits for its
//! answer.
//!
//! A command runs as a dialogue. The library hands the host a [`Step`]; the host does the work
//! that the step names (it runs a tool, reads a file, prints a line, submits a call) and hands
//! the outcome to the step's own continuation, which yields the next step. A command is over
//! when the step is [`Step::Finish`].

use crate::account::Signer;
use crate::call::{Call, CallView};
use crate::code::{CodeSource, CodeSourceView};
use crate::error::{Error, ErrorView};
use crate::flags::{UnstableFlags, Verbosity};
use crate::opts::optional_string;
use crate::schedule::{targets_view, ComposableSchedule, DeployTarget, TargetView};
use vstd::prelude::*;

verus! {

/// A tool outside this library that does the whole work of a command.
#[derive(Debug, Clone, PartialEq, Eq)]
pub enum Tool {
    /// Create a new contract project.
    Scaffold { name: String, target_dir: Option<String> },
    /// Compile the contract.
    Build { verbosity: Option<Verbosity>, unstable_flags: UnstableFlags },
    /// Compile every contract of the composable schedule.
    ComposableBuild { verbosity: Option<Verbosity>, unstable_flags: UnstableFlags },
    /// Generate the contract's metadata.
    GenerateMetadata { verbosity: Option<Verbosity>, unstable_flags: UnstableFlags },
}

/// The mathematical content of a [`Tool`].
pub enum ToolView {
    Scaffold { name: Seq<char>, target_dir: Option<Seq<char>> },
    Build { verbosity: Option<Verbosity>, unstable_flags: UnstableFlags },
    ComposableBuild { verbosity: Option<Verbosity>, unstable_flags: UnstableFlags },
    GenerateMetadata { verbosity: Option<Verbosity>, unstable_flags: UnstableFlags },
}

impl View for Tool {
    type V = ToolView;

    open spec fn view(&self) -> ToolView {
        match self {
            Tool::Scaffold { name, target_dir } => ToolView::Scaffold {
                name: name@,
                target_dir: optional_string(*target_dir),
            },
            Tool::Build { verbosity, unstable_flags } => ToolView::Build {
                verbosity: *verbosity,
                unstable_flags: *unstable_flags,
            },
            Tool::ComposableBuild { verbosity, unstable_flags } => ToolView::ComposableBuild {
                verbosity: *verbosity,
                unstable_flags: *unstable_flags,
            },
            Tool::GenerateMetadata { verbosity, unstable_flags } => ToolView::GenerateMetadata {
                verbosity: *verbosity,
                unstable_flags: *unstable_flags,
            },
        }
    }
}

/// A request for the composable schedule of the project's metadata.
#[derive(Debug, Clone, PartialEq, Eq)]
pub struct ScheduleRequest {
    /// The secret URI that signs every deployment of the schedule.
    pub suri: String,
}

/// A composable deployment in progress: the entry that is being deployed and those that follow.
#[derive(Debug, Clone, PartialEq, Eq)]
pub struct Batch {
    /// The secret URI that signs every deployment of the schedule.
    pub suri: String,
    /// The entry that is being deployed.
    pub current: DeployTarget,
    /// The entries that have not been started, in schedule order.
    pub rest: Vec<DeployTarget>,
}

/// The mathematical content of a [`Batch`].
pub struct BatchView {
    pub suri: Seq<char>,
    pub current: TargetView,
    pub rest: Seq<TargetView>,
}

impl View for Batch {
    type V = BatchView;

    open spec fn view(&self) -> BatchView {
        BatchView { suri: self.suri@, current: self.current@, rest: targets_view(self.rest@) }
    }
}

/// The view of an optional batch.
pub open spec fn optional_batch(batch: Option<Batch>) -> Option<BatchView> {
    match batch {
        Some(b) => Some(b@),
        None => None,
    }
}

/// The view of what the host found of the schedule: nothing, or a schedule.
pub open spec fn optional_schedule(schedule: Option<ComposableSchedule>) -> Option<
    Option<Seq<TargetView>>,
> {
    match schedule {
        Some(s) => Some(s@),
        None => None,
    }
}

/// What a command goes on with once a line has been shown.
pub enum Resume {
    /// Look at the schedule that was loaded.
    Schedule { suri: String, schedule: Option<ComposableSchedule> },
    /// Deploy the batch's current entry.
    Entry { batch: Batch },
    /// The batch's current entry is deployed: go on to the next one, if there is one.
    Advance { batch: Batch },
    /// Call through the contracts gateway without code.
    Gateway {
        url: String,
        signer: Signer,
        target: Vec<u8>,
        requester: String,
        phase: u8,
        value: u128,
        gas_limit: u64,
        data: Vec<u8>,
    },
}

/// The mathematical content of a [`Resume`].
pub enum ResumeView {
    Schedule { suri: Seq<char>, schedule: Option<Option<Seq<TargetView>>> },
    Entry { batch: BatchView },
    Advance { batch: BatchView },
    Gateway {
        url: Seq<char>,
        account: Seq<u8>,
        target: Seq<u8>,
        requester: Seq<char>,
        phase: u8,
        value: u128,
        gas_limit: u64,
        data: Seq<u8>,
    },
}

impl View for Resume {
    type V = ResumeView;

    open spec fn view(&self) -> ResumeView {
        match self {
            Resume::Schedule { suri, schedule } => ResumeView::Schedule {
                suri: suri@,
                schedule: optional_schedule(*schedule),
            },
            Resume::Entry { batch } => ResumeView::Entry { batch: batch@ },
            Resume::Advance { batch } => ResumeView::Advance { batch: batch@ },
            Resume::Gateway {
                url,
                signer,
                target,
                requester,
                phase,
                value,
                gas_limit,
                data,
            } => ResumeView::Gateway {
                url: url@,
                account: signer.account_id()@,
                target: target@,
                requester: requester@,
                phase: *phase,
                value: *value,
                gas_limit: *gas_limit,
                data: data@,
            },
        }
    }
}

/// A line of progress output for the host to show, and what follows it.
pub struct Announcement {
    /// The line to show.
    pub line: String,
    /// What the command goes on with.
    pub resume: Resume,
}

/// The mathematical content of an [`Announcement`].
pub struct AnnouncementView {
    pub line: Seq<char>,
    pub resume: ResumeView,
}

impl View for Announcement {
    type V = AnnouncementView;

    open spec fn view(&self) -> AnnouncementView {
        AnnouncementView { line: self.line@, resume: self.resume@ }
    }
}

/// What the bytecode that is being read is needed for.
#[derive(Debug, Clone, PartialEq, Eq)]
pub enum Purpose {
    /// To be stored on chain; as part of `batch`, where there is one.
    Deploy { batch: Option<Batch> },
    /// To accompany a call through the runtime gateway.
    RuntimeGateway {
        target: String,
        requester: String,
        phase: u8,
        value: u128,
        gas_limit: u64,
        data: Vec<u8>,
    },
    /// To accompany a call through the contracts gateway, which can do without it.
    ContractsGateway {
        target: Vec<u8>,
        requester: String,
        phase: u8,
        value: u128,
        gas_limit: u64,
        data: Vec<u8>,
    },
}

/// The mathematical content of a [`Purpose`].
pub enum PurposeView {
    Deploy { batch: Option<BatchView> },
    RuntimeGateway {
        target: Seq<char>,
        requester: Seq<char>,
        phase: u8,
        value: u128,
        gas_limit: u64,
        data: Seq<u8>,
    },
    ContractsGateway {
        target: Seq<u8>,
        requester: Seq<char>,
        phase: u8,
        value: u128,
        gas_limit: u64,
        data: Seq<u8>,
    },
}

impl View for Purpose {
    type V = PurposeView;

    open spec fn view(&self) -> PurposeView {
        match self {
            Purpose::Deploy { batch } => PurposeView::Deploy { batch: optional_batch(*batch) },
            Purpose::RuntimeGateway {
                target,
                requester,
                phase,
                value,
                gas_limit,
                data,
            } => PurposeView::RuntimeGateway {
                target: target@,
                requester: requester@,
                phase: *phase,
                value: *value,
                gas_limit: *gas_limit,
                data: data@,
            },
            Purpose::ContractsGateway {
                target,
                requester,
                phase,
                value,
                gas_limit,
                data,
            } => PurposeView::ContractsGateway {
                target: target@,
                requester: requester@,
                phase: *phase,
                value: *value,
                gas_limit: *gas_limit,
                data: data@,
            },
        }
    }
}

/// A request for the bytecode of a contract.
pub struct CodeRequest {
    /// Which artifact to read.
    pub source: CodeSource,
    /// The node that the operation goes to.
    pub url: String,
    /// Who signs the operation.
    pub signer: Signer,
    /// What the bytecode is needed for.
    pub purpose: Purpose,
}

/// The mathematical content of a [`CodeRequest`].
pub struct CodeRequestView {
    pub source: CodeSourceView,
    pub url: Seq<char>,
    pub account: Seq<u8>,
    pub purpose: PurposeView,
}

impl View for CodeRequest {
    type V = CodeRequestView;

    open spec fn view(&self) -> CodeRequestView {
        CodeRequestView {
            source: self.source@,
            url: self.url@,
            account: self.signer.account_id()@,
            purpose: self.purpose@,
        }
    }
}

/// A call for the host to sign and submit.
pub struct Submission {
    /// The node that the call goes to.
    pub url: String,
    /// Who signs the call.
    pub signer: Signer,
    /// The call itself.
    pub call: Call,
    /// The composable deployment that the call is part of, where it is part of one.
    pub batch: Option<Batch>,
}

/// The mathematical content of a [`Submission`].
pub struct SubmissionView {
    pub url: Seq<char>,
    pub account: Seq<u8>,
    pub call: CallView,
    pub batch: Option<BatchView>,
}

impl View for Submission {
    type V = SubmissionView;

    open spec fn view(&self) -> SubmissionView {
        SubmissionView {
            url: self.url@,
            account: self.signer.account_id()@,
            call: self.call@,
            batch: optional_batch(self.batch),
        }
    }
}

/// What the host does next.
pub enum Step {
    /// Run a tool and report its outcome with [`Tool::finished`].
    RunTool(Tool),
    /// Load the composable schedule and report it with [`ScheduleRequest::loaded`].
    LoadSchedule(ScheduleRequest),
    /// Show a line and go on with [`Announcement::announced`].
    Announce(Announcement),
    /// Read bytecode and report it with [`CodeRequest::read`].
    ReadCode(CodeRequest),
    /// Submit a call and report the node's answer with [`Submission::answered`].
    Submit(Submission),
    /// The command is over, with a message or an error.
    Finish(Result<String, Error>),
}

/// The mathematical content of a [`Step`].
pub enum StepView {
    RunTool(ToolView),
    LoadSchedule { suri: Seq<char> },
    Announce(AnnouncementView),
    ReadCode(CodeRequestView),
    Submit(SubmissionView),
    Finish(Result<Seq<char>, ErrorView>),
}

/// The view of a command's outcome.
pub open spec fn outcome_view(outcome: Result<String, Error>) -> Result<Seq<char>, ErrorView> {
    match outcome {
        Ok(message) => Ok(message@),
        Err(e) => Err(e@),
    }
}

impl View for Step {
    type V = StepView;

    open spec fn view(&self) -> StepView {
        match self {
            Step::RunTool(tool) => StepView::RunTool(tool@),
            Step::LoadSchedule(request) => StepView::LoadSchedule { suri: request.suri@ },
            Step::Announce(announcement) => StepView::Announce(announcement@),
            Step::ReadCode(request) => StepView::ReadCode(request@),
            Step::Submit(submission) => StepView::Submit(submission@),
            Step::Finish(outcome) => StepView::Finish(outcome_view(*outcome)),
        }
    }
}

} // verus!
