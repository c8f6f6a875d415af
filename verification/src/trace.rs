//! Whole runs of a command against a host, and what holds of every run of a composable
//! deployment.

use crate::account::sr25519_public_key;
use crate::call::CallView;
use crate::error::ErrorView;
use crate::protocol::{
    after_announcement, after_answer, after_code, after_schedule, after_tool,
    all_deployed_message, announce_entry, banner, fail, fallback_warning,
};
use crate::report::message_of;
use crate::schedule::TargetView;
use crate::step::{
    AnnouncementView, BatchView, CodeRequestView, PurposeView, ResumeView, StepView,
    SubmissionView,
};
use vstd::prelude::*;

verus! {

/// One answer of the host.
pub enum Reply {
    /// A tool has run.
    Tool(Result<Seq<char>, Seq<char>>),
    /// The project's metadata was looked at.
    Schedule(Result<Option<Option<Seq<TargetView>>>, Seq<char>>),
    /// A line was shown.
    Announced,
    /// Bytecode was read, or not found, at `path`.
    Code { path: Seq<char>, contents: Option<Seq<u8>> },
    /// The node answered a call.
    Answer(Result<Seq<char>, Seq<char>>),
}

/// Whether `reply` is the kind of answer that `step` waits for.
pub open spec fn accepts(step: StepView, reply: Reply) -> bool {
    match step {
        StepView::RunTool(_) => reply is Tool,
        StepView::LoadSchedule { .. } => reply is Schedule,
        StepView::Announce(_) => reply is Announced,
        StepView::ReadCode(_) => reply is Code,
        StepView::Submit(_) => reply is Answer,
        StepView::Finish(_) => false,
    }
}

/// The step that follows `step` on `reply`; `step` itself where it does not wait for `reply`.
pub open spec fn next_step(step: StepView, reply: Reply) -> StepView {
    match step {
        StepView::RunTool(tool) => match reply {
            Reply::Tool(result) => after_tool(tool, result),
            _ => step,
        },
        StepView::LoadSchedule { suri } => match reply {
            Reply::Schedule(metadata) => after_schedule(suri, metadata),
            _ => step,
        },
        StepView::Announce(announcement) => match reply {
            Reply::Announced => after_announcement(announcement),
            _ => step,
        },
        StepView::ReadCode(request) => match reply {
            Reply::Code { path, contents } => after_code(request, path, contents),
            _ => step,
        },
        StepView::Submit(submission) => match reply {
            Reply::Answer(result) => after_answer(submission, result),
            _ => step,
        },
        StepView::Finish(_) => step,
    }
}

/// The steps that a command goes through from `step` when the host answers with `replies`, in
/// this order. The run ends with the command, with the host's answers, or at an answer of the
/// wrong kind.
pub open spec fn run(step: StepView, replies: Seq<Reply>) -> Seq<StepView>
    decreases replies.len(),
{
    if replies.len() == 0 || !accepts(step, replies[0]) {
        seq![step]
    } else {
        seq![step] + run(next_step(step, replies[0]), replies.drop_first())
    }
}

/// The composable deployment that `step` belongs to, with the entry that it concerns.
pub open spec fn batch_of(step: StepView) -> Option<BatchView> {
    match step {
        StepView::Announce(announcement) => match announcement.resume {
            ResumeView::Entry { batch } => Some(batch),
            ResumeView::Advance { batch } => Some(batch),
            _ => None,
        },
        StepView::ReadCode(request) => match request.purpose {
            PurposeView::Deploy { batch } => batch,
            _ => None,
        },
        StepView::Submit(submission) => submission.batch,
        _ => None,
    }
}

/// Whether `step` announces that the deployment of an entry starts.
pub open spec fn starts_entry(step: StepView) -> bool {
    step matches StepView::Announce(a) && a.resume is Entry
}

/// Whether `step` submits the code of an entry of a schedule.
pub open spec fn submits_entry(step: StepView) -> bool {
    step matches StepView::Submit(s) && s.batch is Some
}

/// Whether `step` announces that an entry was deployed.
pub open spec fn completes_entry(step: StepView) -> bool {
    step matches StepView::Announce(a) && a.resume is Advance
}

/// The entries that the steps of `trace` which satisfy `which` concern, in the order of the
/// trace.
pub open spec fn entries(trace: Seq<StepView>, which: spec_fn(StepView) -> bool) -> Seq<
    TargetView,
>
    decreases trace.len(),
{
    if trace.len() == 0 {
        Seq::empty()
    } else if which(trace[0]) {
        seq![batch_of(trace[0]).unwrap().current] + entries(trace.drop_first(), which)
    } else {
        entries(trace.drop_first(), which)
    }
}

/// The entries whose deployment was started in `trace`.
pub open spec fn started(trace: Seq<StepView>) -> Seq<TargetView> {
    entries(trace, |s: StepView| starts_entry(s))
}

/// The entries whose code was submitted in `trace`.
pub open spec fn submitted(trace: Seq<StepView>) -> Seq<TargetView> {
    entries(trace, |s: StepView| submits_entry(s))
}

/// The entries that were reported as deployed in `trace`.
pub open spec fn completed(trace: Seq<StepView>) -> Seq<TargetView> {
    entries(trace, |s: StepView| completes_entry(s))
}

/// The state of a deployment of `targets` in which entry `k` is the current one.
pub open spec fn batch_at(suri: Seq<char>, targets: Seq<TargetView>, k: int) -> BatchView {
    BatchView { suri, current: targets[k], rest: targets.skip(k + 1) }
}

/// The first step of a composable deployment signed by `suri`.
pub open spec fn composable_deploy(suri: Seq<char>) -> StepView {
    StepView::LoadSchedule { suri }
}

/// Whether a schedule section names nothing to deploy.
pub open spec fn names_nothing(schedule: Option<Seq<TargetView>>) -> bool {
    match schedule {
        None => true,
        Some(targets) => targets.len() == 0,
    }
}

/// A run starts with its first step, and each further step follows from the one before it and
/// the host's answer.
pub proof fn lemma_run_links(step: StepView, replies: Seq<Reply>)
    ensures
        run(step, replies).len() >= 1,
        run(step, replies).len() <= replies.len() + 1,
        run(step, replies)[0] == step,
        forall|i: int|
            1 <= i < run(step, replies).len() ==> #[trigger] run(step, replies)[i] == next_step(
                run(step, replies)[i - 1],
                replies[i - 1],
            ),
    decreases replies.len(),
{
    if replies.len() == 0 || !accepts(step, replies[0]) {
    } else {
        let tail = run(next_step(step, replies[0]), replies.drop_first());
        lemma_run_links(next_step(step, replies[0]), replies.drop_first());
        assert forall|i: int| 1 <= i < run(step, replies).len() implies #[trigger] run(
            step,
            replies,
        )[i] == next_step(run(step, replies)[i - 1], replies[i - 1]) by {
            if i >= 2 {
                assert(run(step, replies)[i] == tail[i - 1]);
                assert(run(step, replies)[i - 1] == tail[i - 2]);
                assert(replies.drop_first()[i - 2] == replies[i - 1]);
            }
        }
    }
}

/// A composable deployment whose schedule names nothing deploys nothing, however the host
/// answers after handing over the schedule: no bytecode is read and no call is submitted, and
/// once the banner is shown the command has failed with `NothingToDeploy`.
pub proof fn lemma_nothing_to_deploy(
    suri: Seq<char>,
    schedule: Option<Seq<TargetView>>,
    replies: Seq<Reply>,
)
    requires
        names_nothing(schedule),
        replies.len() > 0,
        replies[0] == Reply::Schedule(Ok(Some(schedule))),
    ensures
        forall|i: int|
            0 <= i < run(composable_deploy(suri), replies).len() ==> !(#[trigger] run(
                composable_deploy(suri),
                replies,
            )[i] is Submit) && !(run(composable_deploy(suri), replies)[i] is ReadCode),
        replies.len() >= 2 && replies[1] is Announced ==> run(
            composable_deploy(suri),
            replies,
        ) == seq![
            composable_deploy(suri),
            StepView::Announce(
                AnnouncementView {
                    line: banner(),
                    resume: ResumeView::Schedule { suri, schedule: Some(schedule) },
                },
            ),
            fail(ErrorView::NothingToDeploy),
        ],
{
    let first = composable_deploy(suri);
    let second = next_step(first, replies[0]);
    let rest = replies.drop_first();
    assert(run(first, replies) == seq![first] + run(second, rest));
    if rest.len() == 0 || !accepts(second, rest[0]) {
        assert(run(second, rest) == seq![second]);
    } else {
        let third = next_step(second, rest[0]);
        assert(third == fail(ErrorView::NothingToDeploy));
        assert(run(second, rest) == seq![second] + run(third, rest.drop_first()));
        assert(run(third, rest.drop_first()) == seq![third]);
        assert(rest[0] == replies[1]);
        assert(run(first, replies) =~= seq![first, second, third]);
    }
}

/// Whether `found` is the run of `targets` that begins at `from`.
pub open spec fn continues(found: Seq<TargetView>, targets: Seq<TargetView>, from: int) -> bool {
    &&& from + found.len() <= targets.len()
    &&& found == targets.subrange(from, from + found.len())
}

/// Whether `step` is the step of entry `k` of `targets` at `stage`: the announcement of its
/// start (0), the reading of its code (1), its submission (2), the announcement of its
/// deployment (3).
spec fn at_stage(step: StepView, suri: Seq<char>, targets: Seq<TargetView>, k: int, stage: int) -> bool {
    &&& batch_of(step) == Some(batch_at(suri, targets, k))
    &&& stage == 0 ==> starts_entry(step)
    &&& stage == 1 ==> step is ReadCode
    &&& stage == 2 ==> step is Submit
    &&& stage == 3 ==> completes_entry(step)
    &&& 0 <= stage <= 3
}

/// What holds of a trace that begins within entry `k`: see
/// [`lemma_schedule_order_and_fail_fast`].
spec fn well_ordered(
    trace: Seq<StepView>,
    suri: Seq<char>,
    targets: Seq<TargetView>,
    k: int,
    stage: int,
) -> bool {
    let from_started = if stage == 0 {
        k
    } else {
        k + 1
    };
    let from_submitted = if stage <= 2 {
        k
    } else {
        k + 1
    };
    let s = from_started + started(trace).len();
    let b = from_submitted + submitted(trace).len();
    let c = k + completed(trace).len();
    &&& trace.len() >= 1
    &&& continues(started(trace), targets, from_started)
    &&& continues(submitted(trace), targets, from_submitted)
    &&& continues(completed(trace), targets, k)
    &&& c <= b <= s <= c + 1
    &&& trace.last() matches StepView::Finish(Ok(message)) ==> c == targets.len() && message
        == all_deployed_message(suri)
    &&& trace.last() matches StepView::Finish(Err(_)) ==> s == c + 1 && trace.len() >= 2
        && batch_of(trace[trace.len() - 2]) == Some(batch_at(suri, targets, c))
}

/// The entries of a one-step trace.
proof fn lemma_entries_single(step: StepView, which: spec_fn(StepView) -> bool)
    ensures
        entries(seq![step], which) == if which(step) {
            seq![batch_of(step).unwrap().current]
        } else {
            Seq::empty()
        },
{
    let trace = seq![step];
    assert(trace.drop_first() =~= Seq::<StepView>::empty());
    assert(entries(trace.drop_first(), which) =~= Seq::<TargetView>::empty());
    if which(step) {
        assert(entries(trace, which) =~= seq![batch_of(step).unwrap().current]);
    }
}

/// The entries of a trace, from those of its first step and of the rest.
proof fn lemma_entries_cons(step: StepView, tail: Seq<StepView>, which: spec_fn(StepView) -> bool)
    ensures
        entries(seq![step] + tail, which) == if which(step) {
            seq![batch_of(step).unwrap().current] + entries(tail, which)
        } else {
            entries(tail, which)
        },
{
    let trace = seq![step] + tail;
    assert(trace.drop_first() =~= tail);
    assert(trace[0] == step);
}

/// The stage that follows `stage` of entry `k`, and the entry that it belongs to.
spec fn successor(k: int, stage: int) -> (int, int) {
    if stage == 3 {
        (k + 1, 0)
    } else {
        (k, stage + 1)
    }
}

/// From the step of an entry the dialogue goes to the next stage of the schedule, or ends: in
/// an error before the entry is deployed, in success after the last entry.
proof fn lemma_stage_step(
    suri: Seq<char>,
    targets: Seq<TargetView>,
    k: int,
    stage: int,
    step: StepView,
    reply: Reply,
)
    requires
        0 <= k < targets.len(),
        at_stage(step, suri, targets, k, stage),
        accepts(step, reply),
    ensures
        ({
            let next = next_step(step, reply);
            let (k2, stage2) = successor(k, stage);
            if next is Finish {
                if stage == 3 {
                    k + 1 == targets.len() && next == StepView::Finish(
                        Ok(all_deployed_message(suri)),
                    )
                } else {
                    next matches StepView::Finish(Err(_))
                }
            } else {
                k2 < targets.len() && at_stage(next, suri, targets, k2, stage2)
            }
        }),
{
    let batch = batch_at(suri, targets, k);
    if stage == 3 {
        if batch.rest.len() > 0 {
            assert(batch.rest[0] == targets[k + 1]);
            assert(batch.rest.skip(1) =~= targets.skip(k + 2));
        }
    }
}

/// A trace of one step of an entry is well ordered.
proof fn lemma_single_is_ordered(
    suri: Seq<char>,
    targets: Seq<TargetView>,
    k: int,
    stage: int,
    step: StepView,
)
    requires
        0 <= k < targets.len(),
        at_stage(step, suri, targets, k, stage),
    ensures
        well_ordered(seq![step], suri, targets, k, stage),
{
    let trace = seq![step];
    lemma_entries_single(step, |s: StepView| starts_entry(s));
    lemma_entries_single(step, |s: StepView| submits_entry(s));
    lemma_entries_single(step, |s: StepView| completes_entry(s));
    let from_started = if stage == 0 { k } else { k + 1 };
    let from_submitted = if stage <= 2 { k } else { k + 1 };
    assert(started(trace) =~= targets.subrange(from_started, from_started + started(trace).len()));
    assert(submitted(trace) =~= targets.subrange(
        from_submitted,
        from_submitted + submitted(trace).len(),
    ));
    assert(completed(trace) =~= targets.subrange(k, k + completed(trace).len()));
}

/// A trace of one step of an entry and the end of the command is well ordered.
proof fn lemma_ending_is_ordered(
    suri: Seq<char>,
    targets: Seq<TargetView>,
    k: int,
    stage: int,
    step: StepView,
    end: StepView,
)
    requires
        0 <= k < targets.len(),
        at_stage(step, suri, targets, k, stage),
        if stage == 3 {
            k + 1 == targets.len() && end == StepView::Finish(Ok(all_deployed_message(suri)))
        } else {
            end matches StepView::Finish(Err(_))
        },
    ensures
        well_ordered(seq![step] + seq![end], suri, targets, k, stage),
{
    let tail = seq![end];
    let trace = seq![step] + tail;
    lemma_entries_cons(step, tail, |s: StepView| starts_entry(s));
    lemma_entries_cons(step, tail, |s: StepView| submits_entry(s));
    lemma_entries_cons(step, tail, |s: StepView| completes_entry(s));
    lemma_entries_single(end, |s: StepView| starts_entry(s));
    lemma_entries_single(end, |s: StepView| submits_entry(s));
    lemma_entries_single(end, |s: StepView| completes_entry(s));
    let from_started = if stage == 0 { k } else { k + 1 };
    let from_submitted = if stage <= 2 { k } else { k + 1 };
    assert(started(trace) =~= targets.subrange(from_started, from_started + started(trace).len()));
    assert(submitted(trace) =~= targets.subrange(
        from_submitted,
        from_submitted + submitted(trace).len(),
    ));
    assert(completed(trace) =~= targets.subrange(k, k + completed(trace).len()));
    assert(trace.last() == end);
    assert(trace[trace.len() - 2] == step);
}

/// A well-ordered trace stays well ordered when the step before it is put in front.
proof fn lemma_longer_is_ordered(
    suri: Seq<char>,
    targets: Seq<TargetView>,
    k: int,
    stage: int,
    step: StepView,
    tail: Seq<StepView>,
)
    requires
        0 <= k < targets.len(),
        at_stage(step, suri, targets, k, stage),
        successor(k, stage).0 < targets.len(),
        well_ordered(tail, suri, targets, successor(k, stage).0, successor(k, stage).1),
        at_stage(tail[0], suri, targets, successor(k, stage).0, successor(k, stage).1),
    ensures
        well_ordered(seq![step] + tail, suri, targets, k, stage),
{
    let trace = seq![step] + tail;
    lemma_entries_cons(step, tail, |s: StepView| starts_entry(s));
    lemma_entries_cons(step, tail, |s: StepView| submits_entry(s));
    lemma_entries_cons(step, tail, |s: StepView| completes_entry(s));
    let from_started = if stage == 0 { k } else { k + 1 };
    let from_submitted = if stage <= 2 { k } else { k + 1 };
    assert(started(trace) =~= targets.subrange(from_started, from_started + started(trace).len()));
    assert(submitted(trace) =~= targets.subrange(
        from_submitted,
        from_submitted + submitted(trace).len(),
    ));
    assert(completed(trace) =~= targets.subrange(k, k + completed(trace).len()));
    assert(trace.last() == tail.last());
    if tail.len() >= 2 {
        assert(trace[trace.len() - 2] == tail[tail.len() - 2]);
    } else {
        assert(tail.last() == tail[0]);
    }
}

/// The induction behind [`lemma_schedule_order_and_fail_fast`].
proof fn lemma_entry_runs(
    suri: Seq<char>,
    targets: Seq<TargetView>,
    k: int,
    stage: int,
    step: StepView,
    replies: Seq<Reply>,
)
    requires
        0 <= k < targets.len(),
        at_stage(step, suri, targets, k, stage),
    ensures
        well_ordered(run(step, replies), suri, targets, k, stage),
    decreases replies.len(),
{
    if replies.len() == 0 || !accepts(step, replies[0]) {
        lemma_single_is_ordered(suri, targets, k, stage, step);
    } else {
        let next = next_step(step, replies[0]);
        let tail = run(next, replies.drop_first());
        assert(run(step, replies) == seq![step] + tail);
        lemma_stage_step(suri, targets, k, stage, step, replies[0]);
        lemma_run_links(next, replies.drop_first());
        if next is Finish {
            assert(tail == seq![next]);
            lemma_ending_is_ordered(suri, targets, k, stage, step, next);
        } else {
            let (k2, stage2) = successor(k, stage);
            lemma_entry_runs(suri, targets, k2, stage2, next, replies.drop_first());
            lemma_longer_is_ordered(suri, targets, k, stage, step, tail);
        }
    }
}

/// However the host answers, a composable deployment takes the entries of its schedule in
/// order, one at a time, and stops at the first failure.
///
/// Of every run over the schedule `targets`: the entries started, those submitted and those
/// reported as deployed are each the first so many entries of the schedule, in schedule order;
/// an entry is started only when every entry before it is deployed. Where the run ends in an
/// error, the error comes from the step of the last entry started, every entry before that one
/// is deployed and none after it was started. Where it ends in success, every entry is
/// deployed and the message names the secret URI.
pub proof fn lemma_schedule_order_and_fail_fast(
    suri: Seq<char>,
    targets: Seq<TargetView>,
    replies: Seq<Reply>,
)
    requires
        targets.len() > 0,
        replies.len() > 0,
        replies[0] == Reply::Schedule(Ok(Some(Some(targets)))),
    ensures
        ({
            let trace = run(composable_deploy(suri), replies);
            let s = started(trace).len() as int;
            let b = submitted(trace).len() as int;
            let c = completed(trace).len() as int;
            &&& continues(started(trace), targets, 0)
            &&& continues(submitted(trace), targets, 0)
            &&& continues(completed(trace), targets, 0)
            &&& c <= b <= s <= c + 1
            &&& trace.last() matches StepView::Finish(Ok(message)) ==> c == targets.len()
                && message == all_deployed_message(suri)
            &&& trace.last() matches StepView::Finish(Err(_)) ==> s == c + 1 && batch_of(
                trace[trace.len() - 2],
            ) == Some(batch_at(suri, targets, c)) && trace.last() == next_step(
                trace[trace.len() - 2],
                replies[trace.len() - 2],
            )
        }),
{
    let first = composable_deploy(suri);
    let trace = run(first, replies);
    let is_start = |s: StepView| starts_entry(s);
    let is_submit = |s: StepView| submits_entry(s);
    let is_done = |s: StepView| completes_entry(s);
    let second = next_step(first, replies[0]);
    let rest = replies.drop_first();
    let after_banner = run(second, rest);
    lemma_run_links(first, replies);
    assert(trace == seq![first] + after_banner);
    lemma_entries_cons(first, after_banner, is_start);
    lemma_entries_cons(first, after_banner, is_submit);
    lemma_entries_cons(first, after_banner, is_done);
    if rest.len() == 0 || !accepts(second, rest[0]) {
        assert(after_banner == seq![second]);
        lemma_entries_single(second, is_start);
        lemma_entries_single(second, is_submit);
        lemma_entries_single(second, is_done);
        assert(started(trace) =~= targets.subrange(0, 0));
        assert(submitted(trace) =~= targets.subrange(0, 0));
        assert(completed(trace) =~= targets.subrange(0, 0));
    } else {
        let third = next_step(second, rest[0]);
        let from_first_entry = run(third, rest.drop_first());
        assert(after_banner == seq![second] + from_first_entry);
        lemma_entries_cons(second, from_first_entry, is_start);
        lemma_entries_cons(second, from_first_entry, is_submit);
        lemma_entries_cons(second, from_first_entry, is_done);
        assert(third == announce_entry(suri, targets));
        assert(targets.skip(1) =~= targets.skip(0int + 1));
        assert(at_stage(third, suri, targets, 0, 0));
        lemma_entry_runs(suri, targets, 0, 0, third, rest.drop_first());
        lemma_run_links(third, rest.drop_first());
        assert(trace.last() == from_first_entry.last());
        assert(from_first_entry.len() >= 2 ==> trace[trace.len() - 2]
            == from_first_entry[from_first_entry.len() - 2]);
    }
}

/// Missing bytecode ends a deployment and a runtime gateway call with `CodeNotFound` for the
/// path that was tried. A contracts gateway call alone goes on: a warning is shown, and the
/// call is then built without code.
pub proof fn lemma_missing_code(request: CodeRequestView, path: Seq<char>)
    ensures
        request.purpose is ContractsGateway ==> (after_code(request, path, None)
            matches StepView::Announce(warning) && warning.line == fallback_warning()
            && warning.resume is Gateway),
        !(request.purpose is ContractsGateway) ==> after_code(request, path, None) == fail(
            ErrorView::CodeNotFound { path },
        ),
{
}

/// A contracts gateway call with a requester that has a key and a target of 32 bytes does not
/// depend on its bytecode being there: without it the call is submitted with empty code, and
/// the command ends as the node answers, in its message or with its error.
pub proof fn lemma_contracts_gateway_without_code(
    request: CodeRequestView,
    path: Seq<char>,
    answer: Result<Seq<char>, Seq<char>>,
)
    requires
        request.purpose matches PurposeView::ContractsGateway { target, requester, .. }
            && target.len() == 32 && sr25519_public_key(requester, None) is Some,
    ensures
        ({
            let trace = run(
                StepView::ReadCode(request),
                seq![Reply::Code { path, contents: None }, Reply::Announced, Reply::Answer(answer)],
            );
            &&& trace.len() == 4
            &&& trace[2] matches StepView::Submit(submission) && submission.batch is None
                && submission.url == request.url && submission.account == request.account
                && (submission.call matches CallView::ContractsGateway { code, .. } && code.len()
                == 0)
            &&& trace[3] == match answer {
                Ok(text) => StepView::Finish(Ok("CallRuntimeGateway result: "@ + text)),
                Err(text) => fail(ErrorView::RemoteCallError { text }),
            }
        }),
{
    let first = StepView::ReadCode(request);
    let replies = seq![
        Reply::Code { path, contents: None },
        Reply::Announced,
        Reply::Answer(answer),
    ];
    let second = next_step(first, replies[0]);
    let third = next_step(second, Reply::Announced);
    let fourth = next_step(third, Reply::Answer(answer));
    let after_first = replies.drop_first();
    let after_second = after_first.drop_first();
    let after_third = after_second.drop_first();
    assert(after_first[0] == Reply::Announced);
    assert(after_second[0] == Reply::Answer(answer));
    assert(after_third.len() == 0);
    assert(run(fourth, after_third) == seq![fourth]);
    assert(run(third, after_second) == seq![third] + run(fourth, after_third));
    assert(run(second, after_first) == seq![second] + run(third, after_second));
    assert(run(first, replies) == seq![first] + run(second, after_first));
    assert(run(first, replies) =~= seq![first, second, third, fourth]);
}

/// What the node says of a failed call reaches the user unchanged, within a schedule and
/// without: the command ends with `RemoteCallError`, whose text is the node's.
pub proof fn lemma_remote_failure_is_verbatim(submission: SubmissionView, text: Seq<char>)
    ensures
        after_answer(submission, Err(text)) == fail(ErrorView::RemoteCallError { text }),
        message_of(ErrorView::RemoteCallError { text }) == text,
{
}

} // verus!
