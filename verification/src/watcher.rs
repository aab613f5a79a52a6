//! Wake decisions for an idle agent with attached jobs.
//!
//! While the agent is idle, the session polls its job records; these
//! functions decide from the polled snapshots whether the agent must be
//! woken, why, and which records to mark so the same outcome never wakes it
//! twice.

use vstd::prelude::*;
use crate::clock::now_millis;
use crate::record::{
    lemma_observed_history, observed_history, runtime_ratio_text, target_display, with_history,
    with_marks, JobRecord, JobRecordView, RuntimeRatio, StateObservationView, WakePolicy,
};
use crate::snapshot::{has_suspicious, overrun_at, signature_of, suspicious_signature, JobSnapshot};
use crate::state::{display_state, is_terminal_phase, opt_view, JobPhase, JobStateView};
use crate::text::{decimal, join, join_strings, owned, push_decimal, push_ratio_wide, push_str, views};
use crate::polling::{backoff, next_poll_interval, INITIAL_POLL_INTERVAL_NANOS, MAX_DURATION_NANOS};

verus! {

broadcast use vstd::string::group_string_axioms;

/// What a wake-up is about; carries the snapshot indices whose records must
/// be marked so the same outcome never wakes the agent twice.
#[derive(Debug, PartialEq, Eq)]
pub enum WakeCause {
    /// A job whose completion wakes on its own (`each` policy), or a batch
    /// member that failed: failures always wake immediately.
    Terminal { indices: Vec<usize> },
    /// Every batch (sweep) job is terminal.
    BatchComplete { indices: Vec<usize> },
    /// New suspicious log lines.
    Suspicious { indices: Vec<usize> },
    /// A running job far past its expected runtime.
    Overrun { indices: Vec<usize> },
    /// Periodic "still running" check-in; marks nothing.
    CheckIn,
}

pub enum WakeCauseView {
    Terminal(Seq<usize>),
    BatchComplete(Seq<usize>),
    Suspicious(Seq<usize>),
    Overrun(Seq<usize>),
    CheckIn,
}

impl View for WakeCause {
    type V = WakeCauseView;

    open spec fn view(&self) -> WakeCauseView {
        match self {
            WakeCause::Terminal { indices } => WakeCauseView::Terminal(indices@),
            WakeCause::BatchComplete { indices } => WakeCauseView::BatchComplete(indices@),
            WakeCause::Suspicious { indices } => WakeCauseView::Suspicious(indices@),
            WakeCause::Overrun { indices } => WakeCauseView::Overrun(indices@),
            WakeCause::CheckIn => WakeCauseView::CheckIn,
        }
    }
}

pub open spec fn cause_indices(c: WakeCauseView) -> Seq<usize> {
    match c {
        WakeCauseView::Terminal(i) => i,
        WakeCauseView::BatchComplete(i) => i,
        WakeCauseView::Suspicious(i) => i,
        WakeCauseView::Overrun(i) => i,
        WakeCauseView::CheckIn => Seq::empty(),
    }
}

impl WakeCause {
    /// The snapshot indices whose records this wake-up is about.
    pub fn notified_indices(&self) -> (r: &[usize])
        ensures
            r@ == cause_indices(self@),
    {
        match self {
            WakeCause::Terminal { indices } => indices.as_slice(),
            WakeCause::BatchComplete { indices } => indices.as_slice(),
            WakeCause::Suspicious { indices } => indices.as_slice(),
            WakeCause::Overrun { indices } => indices.as_slice(),
            WakeCause::CheckIn => &[],
        }
    }
}

/// The snapshot conditions the decision looks for.
#[derive(Clone, Copy)]
pub enum Criterion {
    /// Terminal, and either an `each` job or a failure.
    Immediate,
    /// A `batch` job.
    Batch,
    /// Suspicious lines not yet reported (their signature differs from the
    /// recorded one).
    Suspicious,
    /// An unreported overrun at the given time.
    Overrun(i64),
    /// A failed job.
    Failed,
    /// A terminal job.
    Terminal,
    /// Any suspicious lines, reported or not.
    AnySuspicious,
    /// A job whose state is unknown.
    Unknown,
}

pub open spec fn meets(c: Criterion, s: JobSnapshot) -> bool {
    match c {
        Criterion::Immediate => is_terminal_phase(s.state.phase) && (s.record.wake_policy
            == WakePolicy::Each || s.state.phase == JobPhase::Failed),
        Criterion::Batch => s.record.wake_policy == WakePolicy::Batch,
        Criterion::Suspicious => has_suspicious(s.log_tails@) && opt_view(
            s.record.suspicious_signature,
        ) != Some(signature_of(s.log_tails@)),
        Criterion::Overrun(now) => overrun_at(s, now) is Some,
        Criterion::Failed => s.state.phase == JobPhase::Failed,
        Criterion::Terminal => is_terminal_phase(s.state.phase),
        Criterion::AnySuspicious => has_suspicious(s.log_tails@),
        Criterion::Unknown => s.state.phase == JobPhase::Unknown,
    }
}

/// The indices of the snapshots that meet `c`, in increasing order.
pub open spec fn indices_meeting(snaps: Seq<JobSnapshot>, c: Criterion) -> Seq<usize>
    decreases snaps.len(),
{
    if snaps.len() == 0 {
        Seq::empty()
    } else {
        let prev = indices_meeting(snaps.drop_last(), c);
        if meets(c, snaps.last()) {
            prev.push((snaps.len() - 1) as usize)
        } else {
            prev
        }
    }
}

pub proof fn lemma_indices_in_range(snaps: Seq<JobSnapshot>, c: Criterion)
    requires
        snaps.len() <= usize::MAX,
    ensures
        forall|k: int| 0 <= k < indices_meeting(snaps, c).len() ==> #[trigger] indices_meeting(snaps, c)[k] < snaps.len(),
        forall|k: int| 0 <= k < indices_meeting(snaps, c).len() ==> meets(c, snaps[#[trigger] indices_meeting(snaps, c)[k] as int]),
    decreases snaps.len(),
{
    if snaps.len() > 0 {
        lemma_indices_in_range(snaps.drop_last(), c);
        let prev = indices_meeting(snaps.drop_last(), c);
        let cur = indices_meeting(snaps, c);
        assert forall|k: int| 0 <= k < cur.len() implies cur[k] < snaps.len() && meets(c, snaps[cur[k] as int]) by {
            if k < prev.len() {
                assert(cur[k] == prev[k]);
                assert(prev[k] < snaps.drop_last().len());
                assert(snaps[prev[k] as int] == snaps.drop_last()[prev[k] as int]);
            } else {
                assert(cur[k] == snaps.len() - 1);
                assert(snaps[snaps.len() - 1] == snaps.last());
            }
        }
    }
}

/// `TARGET reached terminal state STATE`.
pub open spec fn terminal_reason(s: JobSnapshot) -> Seq<char> {
    target_display(s.record.target@) + " reached terminal state "@ + display_state(s.state@)
}

/// `TARGET has been running RATIOx its expected runtime; check for a hang`.
pub open spec fn overrun_reason(s: JobSnapshot, r: RuntimeRatio) -> Seq<char> {
    target_display(s.record.target@) + " has been running "@ + runtime_ratio_text(r)
        + "x its expected runtime; check for a hang"@
}

pub open spec fn all_terminal(snaps: Seq<JobSnapshot>, idx: Seq<usize>) -> bool {
    forall|k: int| 0 <= k < idx.len() ==> is_terminal_phase(#[trigger] snaps[idx[k] as int].state.phase)
}

/// Whether a poll at `now` gets past every wake-up that the jobs cause
/// (terminal jobs, a finished batch, suspicious lines, overruns) to the
/// check-in.
pub open spec fn reaches_check_in(snaps: Seq<JobSnapshot>, now: i64) -> bool {
    let batch = indices_meeting(snaps, Criterion::Batch);
    &&& indices_meeting(snaps, Criterion::Immediate).len() == 0
    &&& !(batch.len() > 0 && all_terminal(snaps, batch))
    &&& indices_meeting(snaps, Criterion::Suspicious).len() == 0
    &&& indices_meeting(snaps, Criterion::Overrun(now)).len() == 0
}

/// Where a poll reaches a due check-in, the doubled threshold still fits a
/// duration.
pub open spec fn check_in_fits(snaps: Seq<JobSnapshot>, idle: nat, check_in: Option<u128>, now: i64) -> bool {
    reaches_check_in(snaps, now) ==> match check_in {
        Some(iv) => iv <= idle ==> iv * 2 <= MAX_DURATION_NANOS,
        None => true,
    }
}

/// What the decision is, and the next check-in threshold. Immediate wakes
/// come first (one terminal job names it; several are counted), then a
/// wholly terminal batch, then unreported suspicious lines, then unreported
/// overruns, then an elapsed check-in interval (whose threshold then
/// doubles).
pub open spec fn wake_decided(
    snaps: Seq<JobSnapshot>,
    idle: nat,
    check_in: Option<u128>,
    now: i64,
) -> (Option<(Seq<char>, WakeCauseView)>, Option<u128>) {
    let imm = indices_meeting(snaps, Criterion::Immediate);
    let batch = indices_meeting(snaps, Criterion::Batch);
    let susp = indices_meeting(snaps, Criterion::Suspicious);
    let over = indices_meeting(snaps, Criterion::Overrun(now));
    if imm.len() == 1 {
        (Some((terminal_reason(snaps[imm[0] as int]), WakeCauseView::Terminal(imm))), check_in)
    } else if imm.len() > 1 {
        (
            Some(
                (
                    decimal(imm.len()) + " jobs reached terminal states"@,
                    WakeCauseView::Terminal(imm),
                ),
            ),
            check_in,
        )
    } else if batch.len() > 0 && all_terminal(snaps, batch) {
        let reason = if batch.len() == 1 {
            terminal_reason(snaps[batch[0] as int])
        } else {
            "all "@ + decimal(batch.len()) + " batch jobs reached terminal states"@
        };
        (Some((reason, WakeCauseView::BatchComplete(batch))), check_in)
    } else if susp.len() > 0 {
        (
            Some(
                (
                    "suspicious log lines appeared for "@ + target_display(
                        snaps[susp[0] as int].record.target@,
                    ),
                    WakeCauseView::Suspicious(susp),
                ),
            ),
            check_in,
        )
    } else if over.len() > 0 {
        let s = snaps[over[0] as int];
        (
            Some((overrun_reason(s, overrun_at(s, now)->Some_0), WakeCauseView::Overrun(over))),
            check_in,
        )
    } else {
        match check_in {
            Some(iv) => if idle >= iv {
                (
                    Some(
                        (
                            "check-in: jobs still running after "@ + decimal(
                                idle / 1_000_000_000 / 60,
                            ) + " min idle"@,
                            WakeCauseView::CheckIn,
                        ),
                    ),
                    Some((iv + iv) as u128),
                )
            } else {
                (None, check_in)
            },
            None => (None, check_in),
        }
    }
}

pub open spec fn decision_view(r: Option<(String, WakeCause)>) -> Option<(Seq<char>, WakeCauseView)> {
    match r {
        Some((reason, cause)) => Some((reason@, cause@)),
        None => None,
    }
}

pub(crate) fn meets_exec(c: Criterion, s: &JobSnapshot) -> (r: bool)
    ensures
        r == meets(c, *s),
{
    match c {
        Criterion::Immediate => s.state.is_terminal() && (s.record.wake_policy == WakePolicy::Each
            || s.state.phase == JobPhase::Failed),
        Criterion::Batch => s.record.wake_policy == WakePolicy::Batch,
        Criterion::Suspicious => {
            if !s.has_suspicious_logs() {
                return false;
            }
            let sig = suspicious_signature(s);
            match &s.record.suspicious_signature {
                Some(recorded) => !(*recorded == sig),
                None => true,
            }
        },
        Criterion::Overrun(now) => s.unreported_overrun_at(now).is_some(),
        Criterion::Failed => s.state.phase == JobPhase::Failed,
        Criterion::Terminal => s.state.is_terminal(),
        Criterion::AnySuspicious => s.has_suspicious_logs(),
        Criterion::Unknown => s.state.phase == JobPhase::Unknown,
    }
}

pub(crate) fn indices_meeting_exec(snaps: &[JobSnapshot], c: Criterion) -> (r: Vec<usize>)
    ensures
        r@ == indices_meeting(snaps@, c),
{
    let mut r: Vec<usize> = Vec::new();
    let mut i: usize = 0;
    while i < snaps.len()
        invariant
            i <= snaps@.len(),
            r@ == indices_meeting(snaps@.take(i as int), c),
        decreases snaps@.len() - i,
    {
        proof {
            assert(snaps@.take(i + 1).drop_last() =~= snaps@.take(i as int));
            assert(snaps@.take(i + 1).last() == snaps@[i as int]);
        }
        if meets_exec(c, &snaps[i]) {
            r.push(i);
        }
        i = i + 1;
    }
    proof {
        assert(snaps@.take(i as int) =~= snaps@);
    }
    r
}

fn batch_all_terminal(snapshots: &[JobSnapshot], batch: &Vec<usize>) -> (r: bool)
    requires
        forall|j: int| 0 <= j < batch@.len() ==> #[trigger] batch@[j] < snapshots@.len(),
    ensures
        r == all_terminal(snapshots@, batch@),
{
    let ghost snaps = snapshots@;
    let mut all = true;
    let mut k: usize = 0;
    while k < batch.len()
        invariant
            k <= batch@.len(),
            snaps == snapshots@,
            forall|j: int| 0 <= j < batch@.len() ==> #[trigger] batch@[j] < snaps.len(),
            all == forall|j: int| 0 <= j < k ==> is_terminal_phase(#[trigger] snaps[batch@[j] as int].state.phase),
        decreases batch@.len() - k,
    {
        let t = snapshots[batch[k]].state.is_terminal();
        proof {
            if all && t {
                assert forall|j: int| 0 <= j < k + 1 implies is_terminal_phase(#[trigger] snaps[batch@[j] as int].state.phase) by {
                    if j == k {
                    }
                }
            }
        }
        all = all && t;
        k = k + 1;
    }
    all
}

/// Whether a poll at `now` (milliseconds since the epoch) gets past every
/// wake-up that the jobs cause to the check-in.
pub fn reaches_check_in_at(snapshots: &[JobSnapshot], now: i64) -> (r: bool)
    ensures
        r == reaches_check_in(snapshots@, now),
{
    let count = snapshots.len();
    proof {
        lemma_indices_in_range(snapshots@, Criterion::Batch);
    }
    if indices_meeting_exec(snapshots, Criterion::Immediate).len() > 0 {
        return false;
    }
    let batch = indices_meeting_exec(snapshots, Criterion::Batch);
    if batch.len() > 0 && batch_all_terminal(snapshots, &batch) {
        return false;
    }
    indices_meeting_exec(snapshots, Criterion::Suspicious).len() == 0
        && indices_meeting_exec(snapshots, Criterion::Overrun(now)).len() == 0
}

pub(crate) fn terminal_reason_exec(s: &JobSnapshot) -> (r: String)
    ensures
        r@ == terminal_reason(*s),
{
    let mut r = s.record.target.display();
    push_str(&mut r, " reached terminal state ");
    let shown = s.state.display();
    push_str(&mut r, shown.as_str());
    r
}

/// Decides whether the idle agent should be woken at `now` (milliseconds
/// since the epoch), after `idle_for` nanoseconds idle, and why.
pub fn wake_decision_at(
    snapshots: &[JobSnapshot],
    idle_for: u128,
    next_check_in: &mut Option<u128>,
    now: i64,
) -> (r: Option<(String, WakeCause)>)
    requires
        idle_for <= MAX_DURATION_NANOS,
        check_in_fits(snapshots@, idle_for as nat, *old(next_check_in), now),
    ensures
        (decision_view(r), *final(next_check_in)) == wake_decided(
            snapshots@,
            idle_for as nat,
            *old(next_check_in),
            now,
        ),
{
    let ghost snaps = snapshots@;
    let count = snapshots.len();
    proof {
        lemma_indices_in_range(snaps, Criterion::Immediate);
        lemma_indices_in_range(snaps, Criterion::Batch);
        lemma_indices_in_range(snaps, Criterion::Suspicious);
        lemma_indices_in_range(snaps, Criterion::Overrun(now));
    }
    let immediate = indices_meeting_exec(snapshots, Criterion::Immediate);
    if immediate.len() == 1 {
        let reason = terminal_reason_exec(&snapshots[immediate[0]]);
        return Some((reason, WakeCause::Terminal { indices: immediate }));
    }
    if immediate.len() > 1 {
        let mut reason = String::new();
        push_decimal(&mut reason, immediate.len() as u64);
        push_str(&mut reason, " jobs reached terminal states");
        return Some((reason, WakeCause::Terminal { indices: immediate }));
    }
    let batch = indices_meeting_exec(snapshots, Criterion::Batch);
    if batch.len() > 0 {
        if batch_all_terminal(snapshots, &batch) {
            let reason = if batch.len() == 1 {
                terminal_reason_exec(&snapshots[batch[0]])
            } else {
                let mut reason = String::new();
                push_str(&mut reason, "all ");
                push_decimal(&mut reason, batch.len() as u64);
                push_str(&mut reason, " batch jobs reached terminal states");
                reason
            };
            return Some((reason, WakeCause::BatchComplete { indices: batch }));
        }
    }
    let suspicious = indices_meeting_exec(snapshots, Criterion::Suspicious);
    if suspicious.len() > 0 {
        let mut reason = String::new();
        push_str(&mut reason, "suspicious log lines appeared for ");
        let target = snapshots[suspicious[0]].record.target.display();
        push_str(&mut reason, target.as_str());
        return Some((reason, WakeCause::Suspicious { indices: suspicious }));
    }
    let overrun = indices_meeting_exec(snapshots, Criterion::Overrun(now));
    if overrun.len() > 0 {
        let s = &snapshots[overrun[0]];
        let mut reason = s.record.target.display();
        push_str(&mut reason, " has been running ");
        match s.unreported_overrun_at(now) {
            Some(ratio) => push_ratio_wide(&mut reason, ratio.elapsed_millis as u128, 1000 * (ratio.expected_seconds as u128)),
            None => {},
        }
        push_str(&mut reason, "x its expected runtime; check for a hang");
        return Some((reason, WakeCause::Overrun { indices: overrun }));
    }
    match *next_check_in {
        Some(interval) => {
            if idle_for >= interval {
                *next_check_in = Some(interval + interval);
                let mut reason = String::new();
                push_str(&mut reason, "check-in: jobs still running after ");
                push_decimal(&mut reason, (idle_for / 1_000_000_000 / 60) as u64);
                push_str(&mut reason, " min idle");
                Some((reason, WakeCause::CheckIn))
            } else {
                None
            }
        },
        None => None,
    }
}

/// Decides whether the idle agent should be woken now, after `idle_for`
/// nanoseconds idle, and why.
pub fn wake_decision(
    snapshots: &[JobSnapshot],
    idle_for: u128,
    next_check_in: &mut Option<u128>,
) -> (r: Option<(String, WakeCause)>)
    requires
        idle_for <= MAX_DURATION_NANOS,
        forall|now: i64| #[trigger] check_in_fits(snapshots@, idle_for as nat, *old(next_check_in), now),
    ensures
        exists|now: i64|
            (decision_view(r), *final(next_check_in)) == #[trigger] wake_decided(
                snapshots@,
                idle_for as nat,
                *old(next_check_in),
                now,
            ),
{
    let now = now_millis();
    wake_decision_at(snapshots, idle_for, next_check_in, now)
}


/// The record of the snapshot at a wake-up index after that wake-up at
/// `now`: a terminal wake marks it notified (and records the signature of
/// any suspicious lines shown with it); a suspicious wake records the
/// signature; an overrun wake marks the overrun reported; a check-in marks
/// nothing.
pub open spec fn wake_marked(s: JobSnapshot, cause: WakeCauseView, now: i64) -> JobRecordView {
    let r = s.record@;
    let sig = Some(signature_of(s.log_tails@));
    match cause {
        WakeCauseView::Terminal(_) | WakeCauseView::BatchComplete(_) => with_marks(
            r,
            Some(now),
            if has_suspicious(s.log_tails@) {
                sig
            } else {
                r.suspicious_signature
            },
            r.overrun_notified,
        ),
        WakeCauseView::Suspicious(_) => with_marks(r, r.notified_at, sig, r.overrun_notified),
        WakeCauseView::Overrun(_) => with_marks(r, r.notified_at, r.suspicious_signature, true),
        WakeCauseView::CheckIn => r,
    }
}

/// The record to persist for `snapshot` once a wake-up with `cause` is sent
/// at `now` (milliseconds since the epoch). It is marked before the agent is
/// woken, so a failed wake cannot produce a wake loop.
pub fn wake_marked_record(snapshot: &JobSnapshot, cause: &WakeCause, now: i64) -> (r: JobRecord)
    ensures
        r@ == wake_marked(*snapshot, cause@, now),
{
    let mut record = snapshot.record.copy();
    match cause {
        WakeCause::Terminal { .. } | WakeCause::BatchComplete { .. } => {
            record.notified_at = Some(now);
            if snapshot.has_suspicious_logs() {
                record.suspicious_signature = Some(suspicious_signature(snapshot));
            }
        },
        WakeCause::Suspicious { .. } => {
            record.suspicious_signature = Some(suspicious_signature(snapshot));
        },
        WakeCause::Overrun { .. } => {
            record.overrun_notified = true;
        },
        WakeCause::CheckIn => {},
    }
    record
}

/// `[job monitor] REASON. Update memory.md and continue the workflow.`
pub open spec fn wake_text(reason: Seq<char>) -> Seq<char> {
    "[job monitor] "@ + reason + ". Update memory.md and continue the workflow."@
}

/// The injected wake-up message. Deliberately minimal: the agent already
/// knows the campaign context, and the reason line names the job and
/// outcome.
pub fn wake_message(reason: &str) -> (r: String)
    ensures
        r@ == wake_text(reason@),
{
    let mut r = owned("[job monitor] ");
    push_str(&mut r, reason);
    push_str(&mut r, ". Update memory.md and continue the workflow.");
    r
}

/// Below this context size, compact-before-wake is skipped: the wake turn is
/// cheap anyway and the raw history is worth more than the summary.
pub const COMPACT_BEFORE_WAKE_MIN_TOKENS: i64 = 50_000;

/// Whether to compact the history before a wake-up: only when enabled and
/// the last request's context reached [`COMPACT_BEFORE_WAKE_MIN_TOKENS`].
pub fn should_compact_before_wake(enabled: bool, context_tokens: Option<i64>) -> (r: bool)
    ensures
        r == (enabled && match context_tokens {
            Some(t) => t >= COMPACT_BEFORE_WAKE_MIN_TOKENS,
            None => false,
        }),
{
    enabled && match context_tokens {
        Some(tokens) => tokens >= COMPACT_BEFORE_WAKE_MIN_TOKENS,
        None => false,
    }
}

/// Whether the watcher compacts the history before waking: only while the
/// session is still alive and the agent still idle, and only when
/// [`should_compact_before_wake`] says so for the configured flag and the
/// last request's context size.
pub fn compact_now(session_alive: bool, enabled: bool, context_tokens: Option<i64>, agent_idle: bool) -> (r: bool)
    ensures
        r == (session_alive && agent_idle && enabled && match context_tokens {
            Some(t) => t >= COMPACT_BEFORE_WAKE_MIN_TOKENS,
            None => false,
        }),
{
    session_alive && should_compact_before_wake(enabled, context_tokens) && agent_idle
}

/// ` (LABEL)`, or nothing.
pub open spec fn label_part(label: Option<Seq<char>>) -> Seq<char> {
    match label {
        Some(l) => " ("@ + l + ")"@,
        None => Seq::empty(),
    }
}

/// `TARGET (LABEL) last seen STATE` for one tracked record.
pub open spec fn briefing_part(r: JobRecordView) -> Seq<char> {
    target_display(r.target) + label_part(r.label) + " last seen "@ + if r.history.len() == 0 {
        "never probed"@
    } else {
        display_state(r.history.last().state)
    }
}

/// A record's briefing line shows the state of its newest observation,
/// whatever the earlier ones were; so after an observation of `state` the
/// line shows `state`.
pub proof fn lemma_briefing_shows_newest_state(
    r: JobRecordView,
    h: Seq<StateObservationView>,
    newest: StateObservationView,
    state: JobStateView,
    at: i64,
)
    ensures
        briefing_part(with_history(r, h.push(newest))) == target_display(r.target) + label_part(
            r.label,
        ) + " last seen "@ + display_state(newest.state),
        briefing_part(with_history(r, observed_history(r.history, state, at))) == target_display(
            r.target,
        ) + label_part(r.label) + " last seen "@ + display_state(state),
{
    assert(h.push(newest).last() == newest);
    lemma_observed_history(r.history, state, at, at);
}

/// How many records the briefing names.
pub const BRIEFING_LIMIT: usize = 8;

/// A session resumed with one tracked job is briefed on that job's newest
/// observed state (or that it was never probed).
pub proof fn lemma_single_job_briefing(rec: JobRecord)
    ensures
        rec@.history.len() > 0 ==> briefing(seq![rec]) == "[jobs] 1 tracked job(s) from earlier work: "@
            + target_display(rec@.target) + label_part(rec@.label) + " last seen "@ + display_state(
            rec@.history.last().state,
        ) + ". jobs.job_status re-probes them."@,
        rec@.history.len() == 0 ==> briefing(seq![rec]) == "[jobs] 1 tracked job(s) from earlier work: "@
            + target_display(rec@.target) + label_part(rec@.label) + " last seen never probed"@
            + ". jobs.job_status re-probes them."@,
{
    let parts = seq![rec].map_values(|r: JobRecord| briefing_part(r@));
    assert(parts =~= seq![briefing_part(rec@)]);
    assert(decimal(1) =~= "1"@) by {
        reveal_strlit("1");
    }
    assert(("[jobs] "@ + "1"@ + " tracked job(s) from earlier work: "@) =~= "[jobs] 1 tracked job(s) from earlier work: "@) by {
        reveal_strlit("[jobs] ");
        reveal_strlit("1");
        reveal_strlit(" tracked job(s) from earlier work: ");
        reveal_strlit("[jobs] 1 tracked job(s) from earlier work: ");
    }
    assert((" last seen "@ + "never probed"@) =~= " last seen never probed"@) by {
        reveal_strlit(" last seen ");
        reveal_strlit("never probed");
        reveal_strlit(" last seen never probed");
    }
}

/// The one-line briefing for a session that starts with tracked jobs.
pub open spec fn briefing(rs: Seq<JobRecord>) -> Seq<char> {
    let shown = if rs.len() > BRIEFING_LIMIT {
        rs.take(BRIEFING_LIMIT as int)
    } else {
        rs
    };
    "[jobs] "@ + decimal(rs.len()) + " tracked job(s) from earlier work: "@ + join(
        shown.map_values(|r: JobRecord| briefing_part(r@)),
        "; "@,
    ) + if rs.len() > BRIEFING_LIMIT {
        "; and "@ + decimal((rs.len() - BRIEFING_LIMIT) as nat) + " more"@
    } else {
        Seq::empty()
    } + ". jobs.job_status re-probes them."@
}

fn briefing_part_exec(r: &JobRecord) -> (s: String)
    ensures
        s@ == briefing_part(r@),
{
    let mut s = r.target.display();
    match &r.label {
        Some(label) => {
            push_str(&mut s, " (");
            push_str(&mut s, label.as_str());
            push_str(&mut s, ")");
        },
        None => {},
    }
    push_str(&mut s, " last seen ");
    match r.latest_state() {
        Some(state) => {
            let shown = state.display();
            push_str(&mut s, shown.as_str());
        },
        None => push_str(&mut s, "never probed"),
    }
    proof {
        assert(label_part(r@.label) == match r.label {
            Some(l) => " ("@ + l@ + ")"@,
            None => Seq::<char>::empty(),
        });
    }
    s
}

/// One line shown when a session starts with jobs already tracked (a
/// resume), so neither the user nor the model has to remember to ask. States
/// are the last observed ones.
pub fn session_start_briefing(records: &[JobRecord]) -> (r: String)
    ensures
        r@ == briefing(records@),
{
    let n = records.len();
    let shown_count = if n > BRIEFING_LIMIT {
        BRIEFING_LIMIT
    } else {
        n
    };
    let ghost shown = if n > BRIEFING_LIMIT {
        records@.take(BRIEFING_LIMIT as int)
    } else {
        records@
    };
    let ghost parts_view = shown.map_values(|r: JobRecord| briefing_part(r@));
    let mut parts: Vec<String> = Vec::new();
    let mut i: usize = 0;
    while i < shown_count
        invariant
            i <= shown_count,
            shown_count == shown.len(),
            shown_count <= records@.len(),
            forall|k: int| 0 <= k < shown.len() ==> shown[k] == records@[k],
            parts_view == shown.map_values(|r: JobRecord| briefing_part(r@)),
            views(parts@) == parts_view.take(i as int),
        decreases shown_count - i,
    {
        let part = briefing_part_exec(&records[i]);
        let ghost prev = parts@;
        let ghost pv = part@;
        parts.push(part);
        proof {
            assert(views(parts@) =~= views(prev).push(pv));
            assert(parts_view.take(i + 1) =~= parts_view.take(i as int).push(parts_view[i as int]));
        }
        i = i + 1;
    }
    proof {
        assert(parts_view.take(i as int) =~= parts_view);
    }
    let mut r = owned("[jobs] ");
    push_decimal(&mut r, n as u64);
    push_str(&mut r, " tracked job(s) from earlier work: ");
    let joined = join_strings(parts.as_slice(), "; ");
    push_str(&mut r, joined.as_str());
    if n > BRIEFING_LIMIT {
        push_str(&mut r, "; and ");
        push_decimal(&mut r, (n - BRIEFING_LIMIT) as u64);
        push_str(&mut r, " more");
    }
    push_str(&mut r, ". jobs.job_status re-probes them.");
    proof {
        if n > BRIEFING_LIMIT {
            assert(r@ =~= briefing(records@));
        } else {
            assert(r@ =~= briefing(records@));
        }
    }
    r
}


/// What the idle-session watcher carries between polls.
pub struct WatchState {
    /// Nanoseconds to sleep before the next poll.
    pub poll_interval: u128,
    /// Nanoseconds the agent has been idle in this idle period.
    pub idle_for: u128,
    /// The idle time after which the next check-in wakes the agent, if
    /// check-ins are configured.
    pub next_check_in: Option<u128>,
    /// Automatic wake-ups sent in this session.
    pub auto_continues: u32,
}

impl WatchState {
    /// The state at the start of a session: no wake-ups sent yet.
    pub fn new(check_in: Option<u128>) -> (r: Self)
        ensures
            r.poll_interval == INITIAL_POLL_INTERVAL_NANOS,
            r.idle_for == 0,
            r.next_check_in == check_in,
            r.auto_continues == 0,
    {
        WatchState {
            poll_interval: INITIAL_POLL_INTERVAL_NANOS,
            idle_for: 0,
            next_check_in: check_in,
            auto_continues: 0,
        }
    }

    /// Starts a new idle period: polling starts fast again, the idle time
    /// and check-in threshold start over; the wake-up count carries on.
    pub fn restart(&mut self, check_in: Option<u128>)
        ensures
            final(self).poll_interval == INITIAL_POLL_INTERVAL_NANOS,
            final(self).idle_for == 0,
            final(self).next_check_in == check_in,
            final(self).auto_continues == old(self).auto_continues,
    {
        self.poll_interval = INITIAL_POLL_INTERVAL_NANOS;
        self.idle_for = 0;
        self.next_check_in = check_in;
    }

    /// A full poll interval was slept: the idle time grows by it and the
    /// interval backs off.
    pub fn slept(&mut self)
        requires
            old(self).idle_for + old(self).poll_interval <= MAX_DURATION_NANOS,
            old(self).poll_interval * 3 <= MAX_DURATION_NANOS,
        ensures
            final(self).idle_for == old(self).idle_for + old(self).poll_interval,
            final(self).poll_interval == backoff(old(self).poll_interval as nat),
            final(self).next_check_in == old(self).next_check_in,
            final(self).auto_continues == old(self).auto_continues,
    {
        self.idle_for = self.idle_for + self.poll_interval;
        self.poll_interval = next_poll_interval(self.poll_interval);
    }
}

/// What the watcher does after a poll.
pub enum WatchAction {
    /// Sleep this many nanoseconds, or until the agent's status changes, and
    /// poll again.
    Sleep { nanos: u128 },
    /// Persist the marked records, then wake the agent with the message.
    Wake { message: String, marked: Vec<JobRecord> },
    /// The cap on automatic wake-ups is reached: stop watching.
    Stop,
}

pub enum WatchActionView {
    Sleep(u128),
    Wake(Seq<char>, Seq<JobRecordView>),
    Stop,
}

impl View for WatchAction {
    type V = WatchActionView;

    open spec fn view(&self) -> WatchActionView {
        match self {
            WatchAction::Sleep { nanos } => WatchActionView::Sleep(*nanos),
            WatchAction::Wake { message, marked } => WatchActionView::Wake(
                message@,
                marked@.map_values(|r: JobRecord| r@),
            ),
            WatchAction::Stop => WatchActionView::Stop,
        }
    }
}

/// The records a wake-up marks, in the order of its indices.
pub open spec fn marked_records(snaps: Seq<JobSnapshot>, cause: WakeCauseView, now: i64) -> Seq<JobRecordView> {
    cause_indices(cause).map_values(|i: usize| wake_marked(snaps[i as int], cause, now))
}

/// One watcher poll at `now`: the decision, under the cap of
/// `max_auto_continues` wake-ups. Returns the next check-in threshold and
/// wake-up count with the action.
pub open spec fn watch_stepped(
    poll: u128,
    idle: u128,
    check_in: Option<u128>,
    count: u32,
    snaps: Seq<JobSnapshot>,
    max_auto_continues: u32,
    now: i64,
) -> (Option<u128>, u32, WatchActionView) {
    let (decision, check2) = wake_decided(snaps, idle as nat, check_in, now);
    match decision {
        Some((reason, cause)) => if count >= max_auto_continues {
            (check2, count, WatchActionView::Stop)
        } else {
            (
                check2,
                (count + 1) as u32,
                WatchActionView::Wake(wake_text(reason), marked_records(snaps, cause, now)),
            )
        },
        None => (check2, count, WatchActionView::Sleep(poll)),
    }
}

proof fn lemma_cause_in_range(snaps: Seq<JobSnapshot>, idle: nat, check_in: Option<u128>, now: i64)
    requires
        snaps.len() <= usize::MAX,
    ensures
        wake_decided(snaps, idle, check_in, now).0 matches Some((_, c)) ==> forall|k: int|
            0 <= k < cause_indices(c).len() ==> #[trigger] cause_indices(c)[k] < snaps.len(),
{
    lemma_indices_in_range(snaps, Criterion::Immediate);
    lemma_indices_in_range(snaps, Criterion::Batch);
    lemma_indices_in_range(snaps, Criterion::Suspicious);
    lemma_indices_in_range(snaps, Criterion::Overrun(now));
}

/// One poll of the idle-session watcher at `now` (milliseconds since the
/// epoch): wake the agent (with the records to mark first), stop at the
/// wake-up cap, or sleep the current interval.
pub fn watch_step(state: &mut WatchState, snapshots: &[JobSnapshot], max_auto_continues: u32, now: i64) -> (r: WatchAction)
    requires
        old(state).idle_for <= MAX_DURATION_NANOS,
        check_in_fits(snapshots@, old(state).idle_for as nat, old(state).next_check_in, now),
    ensures
        (final(state).next_check_in, final(state).auto_continues, r@) == watch_stepped(
            old(state).poll_interval,
            old(state).idle_for,
            old(state).next_check_in,
            old(state).auto_continues,
            snapshots@,
            max_auto_continues,
            now,
        ),
        final(state).poll_interval == old(state).poll_interval,
        final(state).idle_for == old(state).idle_for,
{
    let n = snapshots.len();
    proof {
        lemma_cause_in_range(snapshots@, state.idle_for as nat, state.next_check_in, now);
    }
    let decision = wake_decision_at(snapshots, state.idle_for, &mut state.next_check_in, now);
    match decision {
        Some((reason, cause)) => {
            if state.auto_continues >= max_auto_continues {
                return WatchAction::Stop;
            }
            state.auto_continues = state.auto_continues + 1;
            let indices = cause.notified_indices();
            let ghost want = marked_records(snapshots@, cause@, now);
            let mut marked: Vec<JobRecord> = Vec::new();
            let mut k: usize = 0;
            while k < indices.len()
                invariant
                    k <= indices@.len(),
                    indices@ == cause_indices(cause@),
                    forall|j: int| 0 <= j < indices@.len() ==> #[trigger] indices@[j] < snapshots@.len(),
                    want == marked_records(snapshots@, cause@, now),
                    marked@.map_values(|r: JobRecord| r@) == want.take(k as int),
                decreases indices@.len() - k,
            {
                let rec = wake_marked_record(&snapshots[indices[k]], &cause, now);
                let ghost before = marked@;
                marked.push(rec);
                proof {
                    assert(marked@.map_values(|r: JobRecord| r@) =~= before.map_values(|r: JobRecord| r@).push(want[k as int]));
                    assert(want.take(k + 1) =~= want.take(k as int).push(want[k as int]));
                }
                k = k + 1;
            }
            proof {
                assert(want.take(k as int) =~= want);
            }
            let message = wake_message(reason.as_str());
            WatchAction::Wake { message, marked }
        },
        None => WatchAction::Sleep { nanos: state.poll_interval },
    }
}

/// The records the watcher keeps polling: those not yet notified.
pub open spec fn watched(rs: Seq<JobRecord>) -> Seq<JobRecord> {
    rs.filter(|r: JobRecord| r.notified_at is None)
}

/// Keeps the records whose terminal state was not yet notified.
pub fn watched_records(records: Vec<JobRecord>) -> (r: Vec<JobRecord>)
    ensures
        r@ == watched(records@),
{
    let mut out: Vec<JobRecord> = Vec::new();
    let mut rest = records;
    let ghost all = rest@;
    let mut i: usize = 0;
    let n = rest.len();
    proof {
        assert(all.take(0).filter(|r: JobRecord| r.notified_at is None) =~= Seq::<JobRecord>::empty());
    }
    while i < n
        invariant
            i <= n,
            n == all.len(),
            rest@.len() == n - i,
            forall|j: int| 0 <= j < rest@.len() ==> rest@[j] == all[(n - rest@.len()) + j],
            out@ == all.take(i as int).filter(|r: JobRecord| r.notified_at is None),
        decreases n - i,
    {
        let r = rest.remove(0);
        proof {
            assert(r == all[i as int]);
            assert(all.take(i + 1).drop_last() =~= all.take(i as int));
            reveal(Seq::filter);
        }
        if r.notified_at.is_none() {
            out.push(r);
        }
        i = i + 1;
    }
    proof {
        assert(all.take(n as int) =~= all);
    }
    out
}


/// Each outcome wakes the agent at most once: once a wake-up's records are
/// marked, a later poll that sees the same job in the same state with the
/// same log evidence does not wake the agent again for it. A terminal or
/// batch wake-up marks the job notified, so the watcher stops polling it; a
/// suspicious-lines wake-up records their signature; an overrun wake-up
/// records the overrun as reported.
pub proof fn lemma_wake_marks_prevent_rewake(s: JobSnapshot, later: JobSnapshot, cause: WakeCauseView, now: i64, then: i64)
    requires
        later.state == s.state,
        later.log_tails == s.log_tails,
        later.record@ == wake_marked(s, cause, now),
    ensures
        (cause is Terminal || cause is BatchComplete) ==> later.record.notified_at is Some,
        (cause is Terminal || cause is BatchComplete || cause is Suspicious) ==> !meets(
            Criterion::Suspicious,
            later,
        ),
        cause is Overrun ==> overrun_at(later, then) is None,
{
}

/// The watcher only polls records that were not yet notified.
pub proof fn lemma_watched_not_notified(rs: Seq<JobRecord>)
    ensures
        forall|i: int| 0 <= i < watched(rs).len() ==> (#[trigger] watched(rs)[i]).notified_at is None,
        forall|i: int| 0 <= i < rs.len() && rs[i].notified_at is None ==> watched(rs).contains(#[trigger] rs[i]),
{
    assert forall|i: int| 0 <= i < watched(rs).len() implies (#[trigger] watched(rs)[i]).notified_at is None by {
        rs.lemma_filter_pred(|r: JobRecord| r.notified_at is None, i);
    }
    assert forall|i: int| 0 <= i < rs.len() && rs[i].notified_at is None implies watched(rs).contains(#[trigger] rs[i]) by {
        rs.lemma_filter_contains(|r: JobRecord| r.notified_at is None, i);
    }
}

/// A terminal wake-up that is not a whole batch names only jobs that are
/// terminal and either wake on their own (`each`) or failed: a batch job
/// that merely completed waits for the rest of its batch.
pub proof fn lemma_terminal_wakes_are_immediate(snaps: Seq<JobSnapshot>, idle: nat, check_in: Option<u128>, now: i64)
    requires
        snaps.len() <= usize::MAX,
    ensures
        wake_decided(snaps, idle, check_in, now).0 matches Some((_, WakeCauseView::Terminal(idx))) ==> forall|k: int|
            0 <= k < idx.len() ==> {
                let s = #[trigger] snaps[idx[k] as int];
                is_terminal_phase(s.state.phase) && (s.record.wake_policy == WakePolicy::Each
                    || s.state.phase == JobPhase::Failed)
            },
        wake_decided(snaps, idle, check_in, now).0 matches Some((_, WakeCauseView::BatchComplete(idx))) ==> forall|k: int|
            0 <= k < snaps.len() && snaps[k].record.wake_policy == WakePolicy::Batch ==> is_terminal_phase(
                #[trigger] snaps[k].state.phase,
            ),
{
    lemma_indices_in_range(snaps, Criterion::Immediate);
    lemma_indices_in_range(snaps, Criterion::Batch);
    lemma_indices_complete(snaps, Criterion::Batch);
}

/// Every snapshot that meets `c` is listed.
pub proof fn lemma_indices_complete(snaps: Seq<JobSnapshot>, c: Criterion)
    requires
        snaps.len() <= usize::MAX,
    ensures
        forall|i: int| 0 <= i < snaps.len() && meets(c, #[trigger] snaps[i]) ==> indices_meeting(snaps, c).contains(
            i as usize,
        ),
    decreases snaps.len(),
{
    if snaps.len() > 0 {
        lemma_indices_complete(snaps.drop_last(), c);
        let prev = indices_meeting(snaps.drop_last(), c);
        let cur = indices_meeting(snaps, c);
        assert forall|i: int| 0 <= i < snaps.len() && meets(c, #[trigger] snaps[i]) implies cur.contains(i as usize) by {
            if i < snaps.len() - 1 {
                assert(snaps.drop_last()[i] == snaps[i]);
                let j = choose|j: int| 0 <= j < prev.len() && prev[j] == i as usize;
                if meets(c, snaps.last()) {
                    assert(cur[j] == prev[j]);
                } else {
                    assert(cur[j] == prev[j]);
                }
            } else {
                assert(snaps[i] == snaps.last());
                assert(cur[cur.len() - 1] == i as usize);
            }
        }
    }
}


/// `max_auto_continues` bounds the automatic wake-ups of a session: a
/// wake-up is only sent below the cap, and counting never passes it.
pub proof fn lemma_wake_cap(
    poll: u128,
    idle: u128,
    check_in: Option<u128>,
    count: u32,
    snaps: Seq<JobSnapshot>,
    max_auto_continues: u32,
    now: i64,
)
    requires
        count <= max_auto_continues,
    ensures
        ({
            let (_, count2, action) = watch_stepped(poll, idle, check_in, count, snaps, max_auto_continues, now);
            &&& count2 <= max_auto_continues
            &&& action is Wake ==> count < max_auto_continues && count2 == count + 1
            &&& !(action is Wake) ==> count2 == count
        }),
{
}


/// The indices meeting a criterion are listed in increasing order.
pub proof fn lemma_indices_ascending(snaps: Seq<JobSnapshot>, c: Criterion)
    requires
        snaps.len() <= usize::MAX,
    ensures
        forall|k: int, l: int| 0 <= k < l < indices_meeting(snaps, c).len() ==> #[trigger] indices_meeting(snaps, c)[k]
            < #[trigger] indices_meeting(snaps, c)[l],
    decreases snaps.len(),
{
    if snaps.len() > 0 {
        lemma_indices_ascending(snaps.drop_last(), c);
        lemma_indices_in_range(snaps.drop_last(), c);
        let prev = indices_meeting(snaps.drop_last(), c);
        let cur = indices_meeting(snaps, c);
        assert forall|k: int, l: int| 0 <= k < l < cur.len() implies #[trigger] cur[k] < #[trigger] cur[l] by {
            assert(cur[k] == prev[k]);
            if l < prev.len() {
                assert(cur[l] == prev[l]);
            } else {
                assert(prev[k] < snaps.drop_last().len());
            }
        }
    }
}

/// `idx` lists exactly the snapshot positions that meet `c`.
proof fn lemma_exactly_meeting(snaps: Seq<JobSnapshot>, c: Criterion)
    requires
        snaps.len() <= usize::MAX,
    ensures
        forall|k: int| 0 <= k < indices_meeting(snaps, c).len() ==> #[trigger] indices_meeting(snaps, c)[k] < snaps.len(),
        forall|i: int| 0 <= i < snaps.len() ==> (indices_meeting(snaps, c).contains(i as usize) <==> meets(c, #[trigger] snaps[i])),
{
    lemma_indices_in_range(snaps, c);
    lemma_indices_complete(snaps, c);
    let idx = indices_meeting(snaps, c);
    assert forall|i: int| 0 <= i < snaps.len() && idx.contains(i as usize) implies meets(c, #[trigger] snaps[i]) by {
        let k = choose|k: int| 0 <= k < idx.len() && idx[k] == i as usize;
        assert(meets(c, snaps[idx[k] as int]));
    }
}

/// A wake-up is about exactly the jobs that caused it: a terminal wake-up
/// lists every job that reached a terminal state and wakes on its own
/// (`each` policy, or a failure), a finished sweep lists every batch job,
/// a suspicious-lines wake-up lists every job with suspicious lines not yet
/// reported, and an overrun wake-up every job with an unreported overrun.
/// So each of them is marked, and none wakes the agent again for the same
/// cause.
pub proof fn lemma_wake_lists_every_cause(snaps: Seq<JobSnapshot>, idle: nat, check_in: Option<u128>, now: i64)
    requires
        snaps.len() <= usize::MAX,
    ensures
        wake_decided(snaps, idle, check_in, now).0 matches Some((_, c)) ==> forall|k: int|
            0 <= k < cause_indices(c).len() ==> #[trigger] cause_indices(c)[k] < snaps.len(),
        wake_decided(snaps, idle, check_in, now).0 matches Some((_, WakeCauseView::Terminal(idx)))
            ==> forall|i: int| 0 <= i < snaps.len() ==> (idx.contains(i as usize) <==> (
            is_terminal_phase(#[trigger] snaps[i].state.phase) && (snaps[i].record.wake_policy
                == WakePolicy::Each || snaps[i].state.phase == JobPhase::Failed))),
        wake_decided(snaps, idle, check_in, now).0 matches Some((_, WakeCauseView::BatchComplete(idx)))
            ==> forall|i: int| 0 <= i < snaps.len() ==> (idx.contains(i as usize) <==> (
            #[trigger] snaps[i].record.wake_policy == WakePolicy::Batch)),
        wake_decided(snaps, idle, check_in, now).0 matches Some((_, WakeCauseView::Suspicious(idx)))
            ==> forall|i: int| 0 <= i < snaps.len() ==> (idx.contains(i as usize) <==> (has_suspicious(
            #[trigger] snaps[i].log_tails@,
        ) && opt_view(snaps[i].record.suspicious_signature) != Some(signature_of(snaps[i].log_tails@)))),
        wake_decided(snaps, idle, check_in, now).0 matches Some((_, WakeCauseView::Overrun(idx)))
            ==> forall|i: int| 0 <= i < snaps.len() ==> (idx.contains(i as usize) <==> overrun_at(
            #[trigger] snaps[i],
            now,
        ) is Some),
{
    lemma_exactly_meeting(snaps, Criterion::Immediate);
    lemma_exactly_meeting(snaps, Criterion::Batch);
    lemma_exactly_meeting(snaps, Criterion::Suspicious);
    lemma_exactly_meeting(snaps, Criterion::Overrun(now));
}

/// The first listed index is the first position that meets `c`.
pub(crate) proof fn lemma_first_listed(snaps: Seq<JobSnapshot>, c: Criterion, f: int)
    requires
        snaps.len() <= usize::MAX,
        0 <= f < snaps.len(),
        meets(c, snaps[f]),
        forall|j: int| 0 <= j < f ==> !meets(c, #[trigger] snaps[j]),
    ensures
        indices_meeting(snaps, c).len() > 0,
        indices_meeting(snaps, c)[0] == f,
{
    lemma_indices_in_range(snaps, c);
    lemma_indices_complete(snaps, c);
    lemma_indices_ascending(snaps, c);
    let idx = indices_meeting(snaps, c);
    assert(idx.contains(f as usize));
    let k = choose|k: int| 0 <= k < idx.len() && idx[k] == f as usize;
    assert(meets(c, snaps[idx[0] as int]));
    assert(idx[0] >= f);
    if k > 0 {
        assert(idx[0] < idx[k]);
    }
}

/// No position meeting `c` leaves the index list empty.
pub(crate) proof fn lemma_none_listed(snaps: Seq<JobSnapshot>, c: Criterion)
    requires
        snaps.len() <= usize::MAX,
        forall|j: int| 0 <= j < snaps.len() ==> !meets(c, #[trigger] snaps[j]),
    ensures
        indices_meeting(snaps, c).len() == 0,
{
    lemma_indices_in_range(snaps, c);
    let idx = indices_meeting(snaps, c);
    if idx.len() > 0 {
        assert(meets(c, snaps[idx[0] as int]));
    }
}

/// While no job has ended and none has unreported suspicious lines or an
/// unreported overrun, the agent is woken only by the check-in: once it has
/// been idle for the threshold, with the minutes idle, and the threshold
/// then doubles; before that, or without a check-in, nothing happens.
pub proof fn lemma_check_in_doubles(snaps: Seq<JobSnapshot>, idle: nat, check_in: Option<u128>, now: i64)
    requires
        snaps.len() <= usize::MAX,
        forall|i: int| 0 <= i < snaps.len() ==> !is_terminal_phase(#[trigger] snaps[i].state.phase),
        forall|i: int| 0 <= i < snaps.len() ==> !meets(Criterion::Suspicious, #[trigger] snaps[i]),
        forall|i: int| 0 <= i < snaps.len() ==> overrun_at(#[trigger] snaps[i], now) is None,
    ensures
        check_in matches Some(iv) && idle >= iv ==> wake_decided(snaps, idle, check_in, now) == (
            Some(
                (
                    "check-in: jobs still running after "@ + decimal(idle / 1_000_000_000 / 60)
                        + " min idle"@,
                    WakeCauseView::CheckIn,
                ),
            ),
            Some((2 * check_in->Some_0) as u128),
        ),
        !(check_in matches Some(iv) && idle >= iv) ==> wake_decided(snaps, idle, check_in, now) == (
            None::<(Seq<char>, WakeCauseView)>,
            check_in,
        ),
{
    assert forall|j: int| 0 <= j < snaps.len() implies !meets(Criterion::Immediate, #[trigger] snaps[j]) by {
        assert(!is_terminal_phase(snaps[j].state.phase));
    }
    assert forall|j: int| 0 <= j < snaps.len() implies !meets(Criterion::Overrun(now), #[trigger] snaps[j]) by {
        assert(overrun_at(snaps[j], now) is None);
    }
    lemma_none_listed(snaps, Criterion::Immediate);
    lemma_none_listed(snaps, Criterion::Suspicious);
    lemma_none_listed(snaps, Criterion::Overrun(now));
    lemma_indices_in_range(snaps, Criterion::Batch);
    let batch = indices_meeting(snaps, Criterion::Batch);
    if batch.len() > 0 {
        assert(!is_terminal_phase(snaps[batch[0] as int].state.phase));
        assert(!all_terminal(snaps, batch));
    }
}

/// While no job has ended, a wake-up for suspicious lines names the first
/// job whose suspicious lines are not yet reported.
pub proof fn lemma_suspicious_wake_names_first(snaps: Seq<JobSnapshot>, idle: nat, check_in: Option<u128>, now: i64, f: int)
    requires
        snaps.len() <= usize::MAX,
        forall|i: int| 0 <= i < snaps.len() ==> !is_terminal_phase(#[trigger] snaps[i].state.phase),
        0 <= f < snaps.len(),
        has_suspicious(snaps[f].log_tails@),
        opt_view(snaps[f].record.suspicious_signature) != Some(signature_of(snaps[f].log_tails@)),
        forall|j: int| 0 <= j < f ==> !meets(Criterion::Suspicious, #[trigger] snaps[j]),
    ensures
        wake_decided(snaps, idle, check_in, now).0 matches Some((reason, WakeCauseView::Suspicious(_)))
            && reason == "suspicious log lines appeared for "@ + target_display(snaps[f].record.target@),
        wake_decided(snaps, idle, check_in, now).1 == check_in,
{
    assert forall|j: int| 0 <= j < snaps.len() implies !meets(Criterion::Immediate, #[trigger] snaps[j]) by {
        assert(!is_terminal_phase(snaps[j].state.phase));
    }
    lemma_none_listed(snaps, Criterion::Immediate);
    lemma_indices_in_range(snaps, Criterion::Batch);
    let batch = indices_meeting(snaps, Criterion::Batch);
    if batch.len() > 0 {
        assert(!is_terminal_phase(snaps[batch[0] as int].state.phase));
        assert(!all_terminal(snaps, batch));
    }
    lemma_first_listed(snaps, Criterion::Suspicious, f);
}

/// Terminal jobs that wake on their own (`each` jobs, and failures of any
/// policy) wake the agent before anything else: the reason names the job
/// when there is one and counts them otherwise, the wake-up is about exactly
/// those jobs, listed in increasing order, and the check-in threshold does
/// not move.
pub proof fn lemma_immediate_wake(snaps: Seq<JobSnapshot>, idle: nat, check_in: Option<u128>, now: i64)
    requires
        snaps.len() <= usize::MAX,
        indices_meeting(snaps, Criterion::Immediate).len() > 0,
    ensures
        ({
            let imm = indices_meeting(snaps, Criterion::Immediate);
            &&& wake_decided(snaps, idle, check_in, now) == (
                Some(
                    (
                        if imm.len() == 1 {
                            terminal_reason(snaps[imm[0] as int])
                        } else {
                            decimal(imm.len()) + " jobs reached terminal states"@
                        },
                        WakeCauseView::Terminal(imm),
                    ),
                ),
                check_in,
            )
            &&& forall|i: int| 0 <= i < snaps.len() ==> (imm.contains(i as usize) <==> is_terminal_phase(
                #[trigger] snaps[i].state.phase,
            ) && (snaps[i].record.wake_policy == WakePolicy::Each || snaps[i].state.phase
                == JobPhase::Failed))
            &&& forall|k: int, l: int| 0 <= k < l < imm.len() ==> #[trigger] imm[k] < #[trigger] imm[l]
        }),
{
    let imm = indices_meeting(snaps, Criterion::Immediate);
    lemma_indices_in_range(snaps, Criterion::Immediate);
    lemma_indices_complete(snaps, Criterion::Immediate);
    lemma_indices_ascending(snaps, Criterion::Immediate);
    assert forall|i: int| 0 <= i < snaps.len() implies (imm.contains(i as usize) <==> is_terminal_phase(
        #[trigger] snaps[i].state.phase,
    ) && (snaps[i].record.wake_policy == WakePolicy::Each || snaps[i].state.phase == JobPhase::Failed)) by {
        if imm.contains(i as usize) {
            let k = choose|k: int| 0 <= k < imm.len() && imm[k] == i as usize;
            assert(meets(Criterion::Immediate, snaps[imm[k] as int]));
        }
        if meets(Criterion::Immediate, snaps[i]) {
        }
    }
}


/// One poll the watcher makes: the snapshots, the poll interval and idle
/// time then, and the time of the poll.
pub struct WatchPoll {
    pub snapshots: Seq<JobSnapshot>,
    pub poll_interval: u128,
    pub idle_for: u128,
    pub now: i64,
}

/// How many of `polls`, stepped in order from the check-in threshold and
/// wake-up count given, wake the agent.
pub open spec fn wakes_over(polls: Seq<WatchPoll>, check_in: Option<u128>, count: u32, max_auto_continues: u32) -> nat
    decreases polls.len(),
{
    if polls.len() == 0 {
        0
    } else {
        let p = polls[0];
        let (check2, count2, action) = watch_stepped(
            p.poll_interval,
            p.idle_for,
            check_in,
            count,
            p.snapshots,
            max_auto_continues,
            p.now,
        );
        (if action is Wake {
            1nat
        } else {
            0nat
        }) + wakes_over(polls.drop_first(), check2, count2, max_auto_continues)
    }
}

/// Over a whole session, however the polls go, the watcher wakes the agent
/// at most `max_auto_continues` times (fewer by the wake-ups already sent).
pub proof fn lemma_wakes_capped_over_a_watch(
    polls: Seq<WatchPoll>,
    check_in: Option<u128>,
    count: u32,
    max_auto_continues: u32,
)
    requires
        count <= max_auto_continues,
    ensures
        wakes_over(polls, check_in, count, max_auto_continues) <= max_auto_continues - count,
    decreases polls.len(),
{
    if polls.len() > 0 {
        let p = polls[0];
        lemma_wake_cap(p.poll_interval, p.idle_for, check_in, count, p.snapshots, max_auto_continues, p.now);
        let (check2, count2, action) = watch_stepped(
            p.poll_interval,
            p.idle_for,
            check_in,
            count,
            p.snapshots,
            max_auto_continues,
            p.now,
        );
        lemma_wakes_capped_over_a_watch(polls.drop_first(), check2, count2, max_auto_continues);
    }
}

} // verus!
