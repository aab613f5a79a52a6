//! The decisions and texts of the `jobs` tools (`job_attach`, `job_status`,
//! `job_await`).
//!
//! The tool runtime parses arguments, persists records, polls and sleeps;
//! what the tools decide and reply is computed here.

use vstd::prelude::*;
use crate::clock::now_millis;
use crate::record::{
    elapsed_seconds, history_view, run_started, target_display, with_marks, JobRecord,
    JobRecordView, StateObservation, StateObservationView, WakePolicy,
};
use crate::snapshot::{has_suspicious, overrun_at, signature_of, suspicious_signature, JobSnapshot};
use crate::state::{display_state, is_terminal_phase, opt_view, JobPhase};
use crate::tail::LogTail;
use crate::text::{
    decimal, join, join_strings, owned, push_decimal, push_ratio, push_rounded, push_str,
    ratio_text, rounded_whole, views,
};
use crate::watcher::{label_part, meets, Criterion};

verus! {

broadcast use vstd::string::group_string_axioms;

/// The namespace of the job tools.
pub const NAMESPACE: &'static str = "jobs";

/// Default `job_await` wait budget, in seconds.
pub const DEFAULT_AWAIT_BUDGET_SECONDS: u64 = 1800;

/// Longest `job_await` wait budget, in seconds.
pub const MAX_AWAIT_BUDGET_SECONDS: u64 = 43200;

/// How many history entries and suspicious lines a snapshot report shows.
pub const REPORT_HISTORY_LIMIT: usize = 6;

pub const REPORT_SUSPICIOUS_LIMIT: usize = 10;

/// What `chrono` prints for the UTC instant `millis` (milliseconds since the
/// epoch) with the format `%Y-%m-%dT%H:%M:%SZ`, or `None` when the instant is
/// out of its range.
pub uninterp spec fn utc_second_text(millis: i64) -> Option<Seq<char>>;

/// `chrono::DateTime::from_timestamp_millis(millis)` formatted with
/// `%Y-%m-%dT%H:%M:%SZ`. Claims only that the result is `utc_second_text` of
/// the argument.
#[verifier::external_body]
fn format_utc_second(millis: i64) -> (r: Option<String>)
    ensures
        opt_view(r) == utc_second_text(millis),
{
    chrono::DateTime::from_timestamp_millis(millis).map(
        |t| t.format("%Y-%m-%dT%H:%M:%SZ").to_string(),
    )
}

/// A duration for humans: whole seconds below two minutes, whole minutes
/// below two hours, hours with one decimal beyond.
pub open spec fn duration_text(seconds: nat) -> Seq<char> {
    if seconds < 120 {
        decimal(seconds) + "s"@
    } else if seconds < 7200 {
        decimal(seconds / 60) + "m"@
    } else {
        ratio_text(seconds, 3600) + "h"@
    }
}

pub fn format_duration_secs(seconds: u64) -> (r: String)
    ensures
        r@ == duration_text(seconds as nat),
{
    let mut r = String::new();
    if seconds < 120 {
        push_decimal(&mut r, seconds);
        push_str(&mut r, "s");
    } else if seconds < 7200 {
        push_decimal(&mut r, seconds / 60);
        push_str(&mut r, "m");
    } else {
        push_ratio(&mut r, seconds, 3600);
        push_str(&mut r, "h");
    }
    r
}

/// The `Debug` name of a phase.
pub open spec fn phase_name(p: JobPhase) -> Seq<char> {
    match p {
        JobPhase::Active => "Active"@,
        JobPhase::Completed => "Completed"@,
        JobPhase::Failed => "Failed"@,
        JobPhase::Unknown => "Unknown"@,
    }
}

fn push_phase_name(s: &mut String, p: JobPhase)
    ensures
        final(s)@ == old(s)@ + phase_name(p),
{
    match p {
        JobPhase::Active => push_str(s, "Active"),
        JobPhase::Completed => push_str(s, "Completed"),
        JobPhase::Failed => push_str(s, "Failed"),
        JobPhase::Unknown => push_str(s, "Unknown"),
    }
}

/// `TARGET (LABEL): STATE [Phase]` and a newline.
pub open spec fn report_header(s: JobSnapshot) -> Seq<char> {
    target_display(s.record.target@) + label_part(opt_view(s.record.label)) + ": "@
        + display_state(s.state@) + " ["@ + phase_name(s.state.phase) + "]\n"@
}

/// The runtime line: shown for a running job with an expected runtime once
/// it was seen running.
pub open spec fn report_runtime(s: JobSnapshot, now: i64) -> Seq<char> {
    match (s.record.expected_runtime_seconds, run_started(s.record@.history)) {
        (Some(expected), Some(start)) => if is_terminal_phase(s.state.phase) {
            Seq::empty()
        } else {
            let elapsed = elapsed_seconds(start, now);
            "runtime: "@ + duration_text(elapsed) + " of ~"@ + duration_text(expected as nat)
                + " expected"@ + if elapsed > 0 && elapsed >= 2 * expected {
                " \u{2014} "@ + ratio_text(elapsed, expected as nat) + "x over; check for a hang"@
            } else {
                Seq::empty()
            } + "\n"@
        },
        _ => Seq::empty(),
    }
}

/// How an observation time is shown.
pub open spec fn time_text(at: i64) -> Seq<char> {
    match utc_second_text(at) {
        Some(t) => t,
        None => "(invalid time)"@,
    }
}

/// History lines, newest first: `  TIME TOKEN` and a newline each, for the
/// newest `n` observations of `h`.
pub open spec fn history_lines(h: Seq<StateObservationView>, n: nat) -> Seq<char>
    decreases n,
{
    if n == 0 || h.len() == 0 {
        Seq::empty()
    } else {
        "  "@ + time_text(h.last().at) + " "@ + h.last().state.token + "\n"@ + history_lines(
            h.drop_last(),
            (n - 1) as nat,
        )
    }
}

pub open spec fn report_history(h: Seq<StateObservationView>) -> Seq<char> {
    if h.len() == 0 {
        Seq::empty()
    } else {
        "state history (newest first):\n"@ + history_lines(h, REPORT_HISTORY_LIMIT as nat)
    }
}

/// `  LINE` and a newline for each of the first `n` lines.
pub open spec fn indented_lines(ls: Seq<Seq<char>>, n: nat) -> Seq<char>
    decreases ls.len(),
{
    if ls.len() == 0 || n == 0 {
        Seq::empty()
    } else {
        "  "@ + ls[0] + "\n"@ + indented_lines(ls.drop_first(), (n - 1) as nat)
    }
}

/// The suspicious lines of each tail that has some, under a heading.
pub open spec fn report_suspicious(ts: Seq<LogTail>) -> Seq<char>
    decreases ts.len(),
{
    if ts.len() == 0 {
        Seq::empty()
    } else {
        let t = ts[0];
        let here = if t.suspicious_lines@.len() > 0 {
            "suspicious lines in "@ + t.path@ + ":\n"@ + indented_lines(
                views(t.suspicious_lines@),
                REPORT_SUSPICIOUS_LIMIT as nat,
            )
        } else {
            Seq::empty()
        };
        here + report_suspicious(ts.drop_first())
    }
}

/// The first non-empty tail, with its path and file length.
pub open spec fn report_tail(ts: Seq<LogTail>) -> Seq<char>
    decreases ts.len(),
{
    if ts.len() == 0 {
        Seq::empty()
    } else if ts[0].tail@.len() > 0 {
        "log tail of "@ + ts[0].path@ + " ("@ + decimal(ts[0].file_len as nat)
            + " bytes total):\n"@ + ts[0].tail@ + "\n"@
    } else {
        report_tail(ts.drop_first())
    }
}

/// The report of one snapshot at `now`.
pub open spec fn snapshot_report(s: JobSnapshot, now: i64) -> Seq<char> {
    report_header(s) + report_runtime(s, now) + report_history(s.record@.history)
        + report_suspicious(s.log_tails@) + report_tail(s.log_tails@)
}

fn push_time(out: &mut String, at: i64)
    ensures
        final(out)@ == old(out)@ + time_text(at),
{
    match format_utc_second(at) {
        Some(t) => push_str(out, t.as_str()),
        None => push_str(out, "(invalid time)"),
    }
}

fn push_header(text: &mut String, snapshot: &JobSnapshot)
    ensures
        final(text)@ == old(text)@ + report_header(*snapshot),
{
    let record = &snapshot.record;
    let target = record.target.display();
    push_str(text, target.as_str());
    match &record.label {
        Some(label) => {
            push_str(text, " (");
            push_str(text, label.as_str());
            push_str(text, ")");
        },
        None => {},
    }
    push_str(text, ": ");
    let shown = snapshot.state.display();
    push_str(text, shown.as_str());
    push_str(text, " [");
    push_phase_name(text, snapshot.state.phase);
    push_str(text, "]\n");
    proof {
        assert(final(text)@ =~= old(text)@ + report_header(*snapshot));
    }
}

fn push_runtime(text: &mut String, snapshot: &JobSnapshot, now: i64)
    ensures
        final(text)@ == old(text)@ + report_runtime(*snapshot, now),
{
    let record = &snapshot.record;
    match (record.expected_runtime_seconds, record.run_started_at()) {
        (Some(expected), Some(start)) => {
            if !snapshot.state.is_terminal() {
                let elapsed: u64 = if now > start {
                    (((now as i128) - (start as i128)) / 1000) as u64
                } else {
                    0
                };
                push_str(text, "runtime: ");
                let e = format_duration_secs(elapsed);
                push_str(text, e.as_str());
                push_str(text, " of ~");
                let x = format_duration_secs(expected);
                push_str(text, x.as_str());
                push_str(text, " expected");
                if elapsed > 0 && expected <= u64::MAX / 2 && elapsed >= 2 * expected {
                    push_str(text, " \u{2014} ");
                    push_ratio(text, elapsed, expected);
                    push_str(text, "x over; check for a hang");
                }
                push_str(text, "\n");
            }
        },
        _ => {},
    }
    proof {
        assert(final(text)@ =~= old(text)@ + report_runtime(*snapshot, now));
    }
}

fn push_history(text: &mut String, history: &Vec<StateObservation>)
    ensures
        final(text)@ == old(text)@ + report_history(history_view(history@)),
{
    let ghost h = history_view(history@);
    let n = history.len();
    if n > 0 {
        push_str(text, "state history (newest first):\n");
        let ghost base = text@;
        let mut k: usize = 0;
        proof {
            assert(h.take(n as int) =~= h);
        }
        while k < n && k < REPORT_HISTORY_LIMIT
            invariant
                k <= n,
                k <= REPORT_HISTORY_LIMIT,
                n == h.len(),
                h == history_view(history@),
                text@ + history_lines(h.take(n - k), (REPORT_HISTORY_LIMIT - k) as nat) == base
                    + history_lines(h, REPORT_HISTORY_LIMIT as nat),
            decreases n - k,
        {
            let o = &history[n - 1 - k];
            let ghost hk = h.take(n - k);
            proof {
                assert(hk.last() == h[n - 1 - k]);
                assert(hk.drop_last() =~= h.take(n - k - 1));
            }
            push_str(text, "  ");
            push_time(text, o.at);
            push_str(text, " ");
            push_str(text, o.state.token.as_str());
            push_str(text, "\n");
            proof {
                assert((REPORT_HISTORY_LIMIT - k - 1) as nat == ((REPORT_HISTORY_LIMIT - k) as nat - 1) as nat);
            }
            k = k + 1;
        }
        proof {
            if k == n {
                assert(h.take(0).len() == 0);
            }
            assert(history_lines(h.take(n - k), (REPORT_HISTORY_LIMIT - k) as nat) =~= Seq::<char>::empty());
        }
    }
    proof {
        assert(final(text)@ =~= old(text)@ + report_history(h));
    }
}

fn push_suspicious(text: &mut String, tails: &Vec<LogTail>)
    ensures
        final(text)@ == old(text)@ + report_suspicious(tails@),
{
    let ghost tv = tails@;
    let ghost start = text@;
    let mut i: usize = 0;
    proof {
        assert(tv.skip(0) =~= tv);
    }
    while i < tails.len()
        invariant
            i <= tv.len(),
            tv == tails@,
            text@ + report_suspicious(tv.skip(i as int)) == start + report_suspicious(tv),
        decreases tv.len() - i,
    {
        let t = &tails[i];
        proof {
            assert(tv.skip(i as int)[0] == tv[i as int]);
            assert(tv.skip(i as int).drop_first() =~= tv.skip(i + 1));
        }
        if t.suspicious_lines.len() > 0 {
            push_str(text, "suspicious lines in ");
            push_str(text, t.path.as_str());
            push_str(text, ":\n");
            let ls = &t.suspicious_lines;
            let ghost lv = views(ls@);
            let ghost pre = text@;
            let mut m: usize = 0;
            proof {
                assert(lv.skip(0) =~= lv);
            }
            while m < ls.len() && m < REPORT_SUSPICIOUS_LIMIT
                invariant
                    m <= ls@.len(),
                    m <= REPORT_SUSPICIOUS_LIMIT,
                    lv == views(ls@),
                    text@ + indented_lines(lv.skip(m as int), (REPORT_SUSPICIOUS_LIMIT - m) as nat)
                        == pre + indented_lines(lv, REPORT_SUSPICIOUS_LIMIT as nat),
                decreases ls@.len() - m,
            {
                proof {
                    assert(lv.skip(m as int)[0] == ls@[m as int]@);
                    assert(lv.skip(m as int).drop_first() =~= lv.skip(m + 1));
                }
                push_str(text, "  ");
                push_str(text, ls[m].as_str());
                push_str(text, "\n");
                m = m + 1;
            }
            proof {
                assert(indented_lines(lv.skip(m as int), (REPORT_SUSPICIOUS_LIMIT - m) as nat) =~= Seq::<char>::empty());
            }
        }
        i = i + 1;
    }
    proof {
        assert(tv.skip(i as int) =~= Seq::<LogTail>::empty());
    }
}

fn push_tail(text: &mut String, tails: &Vec<LogTail>)
    ensures
        final(text)@ == old(text)@ + report_tail(tails@),
{
    let ghost tv = tails@;
    let mut j: usize = 0;
    proof {
        assert(tv.skip(0) =~= tv);
    }
    while j < tails.len()
        invariant
            j <= tv.len(),
            tv == tails@,
            text@ == old(text)@,
            report_tail(tv) == report_tail(tv.skip(j as int)),
        decreases tv.len() - j,
    {
        proof {
            assert(tv.skip(j as int)[0] == tv[j as int]);
            assert(tv.skip(j as int).drop_first() =~= tv.skip(j + 1));
        }
        let t = &tails[j];
        if !t.tail.as_str().is_empty() {
            push_str(text, "log tail of ");
            push_str(text, t.path.as_str());
            push_str(text, " (");
            push_decimal(text, t.file_len);
            push_str(text, " bytes total):\n");
            push_str(text, t.tail.as_str());
            push_str(text, "\n");
            proof {
                assert(final(text)@ =~= old(text)@ + report_tail(tails@));
            }
            return;
        }
        j = j + 1;
    }
    proof {
        assert(tv.skip(j as int) =~= Seq::<LogTail>::empty());
    }
}

/// Renders the state, runtime, history, suspicious lines and log tail of a
/// snapshot at `now` (milliseconds since the epoch).
pub fn format_snapshot(snapshot: &JobSnapshot, now: i64) -> (r: String)
    ensures
        r@ == snapshot_report(*snapshot, now),
{
    let mut text = String::new();
    push_header(&mut text, snapshot);
    push_runtime(&mut text, snapshot, now);
    push_history(&mut text, &snapshot.record.history);
    push_suspicious(&mut text, &snapshot.log_tails);
    push_tail(&mut text, &snapshot.log_tails);
    proof {
        assert(text@ =~= snapshot_report(*snapshot, now));
    }
    text
}


/// What `snapshot` marks once it was shown to the agent at `now`: a terminal
/// job as notified, its suspicious lines as reported, an overrun as
/// reported. `None` when it shows none of these, so nothing is persisted.
pub open spec fn reported_marks(s: JobSnapshot, now: i64) -> Option<JobRecordView> {
    let terminal = is_terminal_phase(s.state.phase);
    let suspicious = has_suspicious(s.log_tails@);
    let overrun = overrun_at(s, now) is Some;
    if !terminal && !suspicious && !overrun {
        None
    } else {
        let r = s.record@;
        Some(
            with_marks(
                r,
                if terminal {
                    Some(now)
                } else {
                    r.notified_at
                },
                if suspicious {
                    Some(signature_of(s.log_tails@))
                } else {
                    r.suspicious_signature
                },
                overrun || r.overrun_notified,
            ),
        )
    }
}

pub open spec fn opt_record_view(r: Option<JobRecord>) -> Option<JobRecordView> {
    match r {
        Some(x) => Some(x@),
        None => None,
    }
}

/// The record to persist once `snapshot` was shown to the agent at `now`
/// (milliseconds since the epoch), so the idle-session watcher never wakes
/// the agent again for the same terminal state, suspicious lines or
/// overrun. Every reply that shows a snapshot is such a notification.
pub fn reported_record_at(snapshot: &JobSnapshot, now: i64) -> (r: Option<JobRecord>)
    ensures
        opt_record_view(r) == reported_marks(*snapshot, now),
{
    let terminal = snapshot.state.is_terminal();
    let suspicious = snapshot.has_suspicious_logs();
    let overrun = snapshot.unreported_overrun_at(now).is_some();
    if !terminal && !suspicious && !overrun {
        return None;
    }
    let mut record = snapshot.record.copy();
    if terminal {
        record.notified_at = Some(now);
    }
    if suspicious {
        record.suspicious_signature = Some(suspicious_signature(snapshot));
    }
    if overrun {
        record.overrun_notified = true;
    }
    Some(record)
}

/// The record to persist once `snapshot` was shown to the agent now.
pub fn reported_record(snapshot: &JobSnapshot) -> (r: Option<JobRecord>)
    ensures
        exists|now: i64| opt_record_view(r) == #[trigger] reported_marks(*snapshot, now),
{
    reported_record_at(snapshot, now_millis())
}

/// A reply that showed a snapshot counts as its notification: once the
/// record is marked, a later poll of the same job in the same state with the
/// same log evidence does not wake the agent for what the reply showed: the
/// terminal state (the job is marked notified), the suspicious lines, or the
/// overrun. A snapshot with none of these marks nothing.
pub proof fn lemma_replies_count_as_notification(s: JobSnapshot, later: JobSnapshot, now: i64, then: i64)
    requires
        later.state == s.state,
        later.log_tails == s.log_tails,
        reported_marks(s, now) matches Some(r) && later.record@ == r,
    ensures
        is_terminal_phase(s.state.phase) ==> later.record.notified_at is Some,
        !meets(Criterion::Suspicious, later),
        overrun_at(s, now) is Some ==> overrun_at(later, then) is None,
{
}

/// The reports of several snapshots, each followed by an empty line.
pub open spec fn reports(snaps: Seq<JobSnapshot>, now: i64) -> Seq<char>
    decreases snaps.len(),
{
    if snaps.len() == 0 {
        Seq::empty()
    } else {
        reports(snaps.drop_last(), now) + snapshot_report(snaps.last(), now) + "\n"@
    }
}

fn push_reports(text: &mut String, snapshots: &[JobSnapshot], now: i64)
    ensures
        final(text)@ == old(text)@ + reports(snapshots@, now),
{
    let mut i: usize = 0;
    proof {
        assert(snapshots@.take(0) =~= Seq::<JobSnapshot>::empty());
    }
    while i < snapshots.len()
        invariant
            i <= snapshots@.len(),
            text@ == old(text)@ + reports(snapshots@.take(i as int), now),
        decreases snapshots@.len() - i,
    {
        proof {
            assert(snapshots@.take(i + 1).drop_last() =~= snapshots@.take(i as int));
            assert(snapshots@.take(i + 1).last() == snapshots@[i as int]);
        }
        let one = format_snapshot(&snapshots[i], now);
        push_str(text, one.as_str());
        push_str(text, "\n");
        proof {
            assert(text@ =~= old(text)@ + reports(snapshots@.take(i + 1), now));
        }
        i = i + 1;
    }
    proof {
        assert(snapshots@.take(i as int) =~= snapshots@);
    }
}

/// The `job_status` reply when no job is attached.
pub const NO_JOBS_STATUS: &'static str = "No jobs are attached in this thread. Submit via the shell, then jobs.job_attach.";

/// The `job_await` error when no job is attached.
pub const NO_JOBS_AWAIT: &'static str = "no jobs are attached in this thread; submit via the shell, then jobs.job_attach";

pub open spec fn status_text(snaps: Seq<JobSnapshot>, now: i64) -> Seq<char> {
    if snaps.len() == 0 {
        NO_JOBS_STATUS@
    } else {
        reports(snaps, now)
    }
}

/// The `job_status` reply for the snapshots of the attached jobs at `now`.
pub fn status_reply(snapshots: &[JobSnapshot], now: i64) -> (r: String)
    ensures
        r@ == status_text(snapshots@, now),
{
    if snapshots.len() == 0 {
        return owned(NO_JOBS_STATUS);
    }
    let mut text = String::new();
    push_reports(&mut text, snapshots, now);
    text
}

/// `Attached TARGET.` and the report, for each snapshot.
pub open spec fn attached_reports(snaps: Seq<JobSnapshot>, now: i64) -> Seq<char>
    decreases snaps.len(),
{
    if snaps.len() == 0 {
        Seq::empty()
    } else {
        attached_reports(snaps.drop_last(), now) + "Attached "@ + target_display(
            snaps.last().record.target@,
        ) + ".\n"@ + snapshot_report(snaps.last(), now)
    }
}

/// The closing advice of a `job_attach` reply.
pub open spec fn attach_footer(any_terminal: bool, sweep: bool) -> Seq<char> {
    if any_terminal {
        "\nA job is already terminal: diagnose or resubmit instead of awaiting.\n"@
    } else if sweep {
        "\nCall jobs.job_await to wait; batch jobs return on first failure, suspicious logs, or when the whole sweep is done.\n"@
    } else {
        "\nCall jobs.job_await to wait for completion.\n"@
    }
}

pub open spec fn attach_text(snaps: Seq<JobSnapshot>, policy: WakePolicy, now: i64) -> Seq<char> {
    attached_reports(snaps, now) + attach_footer(
        exists|i: int| 0 <= i < snaps.len() && is_terminal_phase(#[trigger] snaps[i].state.phase),
        snaps.len() > 1 || policy == WakePolicy::Batch,
    )
}

/// The `job_attach` reply for the first snapshots of the attached jobs at
/// `now`, attached with `wake_policy`.
pub fn attach_reply(snapshots: &[JobSnapshot], wake_policy: WakePolicy, now: i64) -> (r: String)
    ensures
        r@ == attach_text(snapshots@, wake_policy, now),
{
    let mut text = String::new();
    let mut any_terminal = false;
    let mut i: usize = 0;
    proof {
        assert(snapshots@.take(0) =~= Seq::<JobSnapshot>::empty());
    }
    while i < snapshots.len()
        invariant
            i <= snapshots@.len(),
            text@ == attached_reports(snapshots@.take(i as int), now),
            any_terminal == exists|j: int| 0 <= j < i && is_terminal_phase(#[trigger] snapshots@[j].state.phase),
        decreases snapshots@.len() - i,
    {
        proof {
            assert(snapshots@.take(i + 1).drop_last() =~= snapshots@.take(i as int));
            assert(snapshots@.take(i + 1).last() == snapshots@[i as int]);
        }
        let s = &snapshots[i];
        if s.state.is_terminal() {
            any_terminal = true;
        }
        push_str(&mut text, "Attached ");
        let target = s.record.target.display();
        push_str(&mut text, target.as_str());
        push_str(&mut text, ".\n");
        let one = format_snapshot(s, now);
        push_str(&mut text, one.as_str());
        proof {
            assert(text@ =~= attached_reports(snapshots@.take(i + 1), now));
        }
        i = i + 1;
    }
    proof {
        assert(snapshots@.take(i as int) =~= snapshots@);
    }
    if any_terminal {
        push_str(&mut text, "\nA job is already terminal: diagnose or resubmit instead of awaiting.\n");
    } else if snapshots.len() > 1 || wake_policy == WakePolicy::Batch {
        push_str(
            &mut text,
            "\nCall jobs.job_await to wait; batch jobs return on first failure, suspicious logs, or when the whole sweep is done.\n",
        );
    } else {
        push_str(&mut text, "\nCall jobs.job_await to wait for completion.\n");
    }
    text
}

/// The wait budget of a `job_await` call, in seconds: as asked, by default
/// [`DEFAULT_AWAIT_BUDGET_SECONDS`], kept between 1 and
/// [`MAX_AWAIT_BUDGET_SECONDS`].
pub open spec fn await_budget(max_wait_seconds: Option<u64>) -> u64 {
    let b = match max_wait_seconds {
        Some(b) => b,
        None => DEFAULT_AWAIT_BUDGET_SECONDS,
    };
    if b < 1 {
        1
    } else if b > MAX_AWAIT_BUDGET_SECONDS {
        MAX_AWAIT_BUDGET_SECONDS
    } else {
        b
    }
}

pub fn await_budget_seconds(max_wait_seconds: Option<u64>) -> (r: u64)
    ensures
        r == await_budget(max_wait_seconds),
{
    let b = match max_wait_seconds {
        Some(b) => b,
        None => DEFAULT_AWAIT_BUDGET_SECONDS,
    };
    if b < 1 {
        1
    } else if b > MAX_AWAIT_BUDGET_SECONDS {
        MAX_AWAIT_BUDGET_SECONDS
    } else {
        b
    }
}

/// The first five targets joined by `, `, and how many more there are.
pub open spec fn waiting_on(targets: Seq<Seq<char>>) -> Seq<char> {
    if targets.len() > 5 {
        join(targets.take(5), ", "@) + " and "@ + decimal((targets.len() - 5) as nat) + " more"@
    } else {
        join(targets, ", "@)
    }
}

pub open spec fn record_targets(rs: Seq<JobRecord>) -> Seq<Seq<char>> {
    rs.map_values(|r: JobRecord| target_display(r.target@))
}

/// The notice shown while a wait is parked.
pub open spec fn await_notice(rs: Seq<JobRecord>, budget_seconds: nat) -> Seq<char> {
    "[jobs] awaiting "@ + waiting_on(record_targets(rs)) + "; budget "@ + decimal(budget_seconds)
        + "s, polling 15s\u{2192}300s; new input interrupts the wait"@
}

/// The notice shown while a wait on `records` with the given budget is
/// parked.
pub fn await_notice_text(records: &[JobRecord], budget_seconds: u64) -> (r: String)
    ensures
        r@ == await_notice(records@, budget_seconds as nat),
{
    let mut names: Vec<String> = Vec::new();
    let mut i: usize = 0;
    while i < records.len() && i < 5
        invariant
            i <= records@.len(),
            i <= 5,
            views(names@) == record_targets(records@).take(i as int),
        decreases records@.len() - i,
    {
        let ghost before = names@;
        names.push(records[i].target.display());
        proof {
            assert(views(names@) =~= views(before).push(target_display(records@[i as int].target@)));
            assert(record_targets(records@).take(i + 1) =~= record_targets(records@).take(i as int).push(
                target_display(records@[i as int].target@),
            ));
        }
        i = i + 1;
    }
    let mut r = owned("[jobs] awaiting ");
    let joined = join_strings(names.as_slice(), ", ");
    push_str(&mut r, joined.as_str());
    if records.len() > 5 {
        push_str(&mut r, " and ");
        push_decimal(&mut r, (records.len() - 5) as u64);
        push_str(&mut r, " more");
    } else {
        proof {
            assert(record_targets(records@).take(i as int) =~= record_targets(records@));
        }
    }
    push_str(&mut r, "; budget ");
    push_decimal(&mut r, budget_seconds);
    push_str(&mut r, "s, polling 15s\u{2192}300s; new input interrupts the wait");
    r
}

/// What new input cut a wait short.
#[derive(Debug, Clone, Copy, PartialEq, Eq, Structural)]
pub enum Interruption {
    /// The user typed while the agent waited.
    Steer,
    /// Another agent sent a message.
    Mailbox,
}

/// The first line of a `job_await` reply.
pub open spec fn await_reason(interrupted: Option<Interruption>, stop: Option<Seq<char>>) -> Seq<char> {
    match interrupted {
        Some(Interruption::Steer) => "Wait interrupted by new user input."@,
        Some(Interruption::Mailbox) => "Wait interrupted by an incoming agent message; the jobs keep running \u{2014} handle the message, then job_await again."@,
        None => match stop {
            Some(r) => r,
            None => "wait ended"@,
        },
    }
}

/// The `job_await` reply: why it returned, how long it waited (whole
/// seconds, rounded), and each job's report.
pub open spec fn await_text(
    interrupted: Option<Interruption>,
    stop: Option<Seq<char>>,
    waited_nanos: nat,
    snaps: Seq<JobSnapshot>,
    now: i64,
) -> Seq<char> {
    await_reason(interrupted, stop) + "\nWaited "@ + decimal(rounded_whole(waited_nanos, 1_000_000_000))
        + "s.\n"@ + reports(snaps, now)
}

/// The `job_await` reply after waiting `waited_nanos` nanoseconds.
pub fn await_reply(
    interrupted: Option<Interruption>,
    stop_reason: Option<String>,
    waited_nanos: u128,
    snapshots: &[JobSnapshot],
    now: i64,
) -> (r: String)
    ensures
        r@ == await_text(interrupted, opt_view(stop_reason), waited_nanos as nat, snapshots@, now),
{
    let mut text = match interrupted {
        Some(Interruption::Steer) => owned("Wait interrupted by new user input."),
        Some(Interruption::Mailbox) => owned(
            "Wait interrupted by an incoming agent message; the jobs keep running \u{2014} handle the message, then job_await again.",
        ),
        None => match stop_reason {
            Some(r) => r,
            None => owned("wait ended"),
        },
    };
    push_str(&mut text, "\nWaited ");
    push_rounded(&mut text, waited_nanos, 1_000_000_000);
    push_str(&mut text, "s.\n");
    push_reports(&mut text, snapshots, now);
    text
}

/// The `job_attach` tool.
pub struct JobAttachHandler;

/// The `job_status` tool.
pub struct JobStatusHandler;

/// The `job_await` tool.
pub struct JobAwaitHandler;

impl JobAttachHandler {
    /// The tool's namespace and name.
    pub fn tool_name(&self) -> (r: (&'static str, &'static str))
        ensures
            r.0@ == NAMESPACE@,
            r.1@ == "job_attach"@,
    {
        (NAMESPACE, "job_attach")
    }
}

impl JobStatusHandler {
    /// The tool's namespace and name.
    pub fn tool_name(&self) -> (r: (&'static str, &'static str))
        ensures
            r.0@ == NAMESPACE@,
            r.1@ == "job_status"@,
    {
        (NAMESPACE, "job_status")
    }
}

impl JobAwaitHandler {
    /// The tool's namespace and name.
    pub fn tool_name(&self) -> (r: (&'static str, &'static str))
        ensures
            r.0@ == NAMESPACE@,
            r.1@ == "job_await"@,
    {
        (NAMESPACE, "job_await")
    }
}


/// How a tool parameter is typed in its JSON schema.
#[derive(Debug, Clone, Copy, PartialEq, Eq, Structural)]
pub enum ParameterKind {
    /// A string.
    Text,
    /// An array of strings.
    TextList,
    /// A number.
    Number,
}

/// One optional parameter of a tool.
pub struct ToolParameter {
    pub name: &'static str,
    pub kind: ParameterKind,
    pub description: String,
}

/// What the model is shown of a tool: the namespace it lives in, its name
/// and description, and its optional parameters in name order. Unknown
/// parameters are rejected.
pub struct ToolDefinition {
    pub namespace: &'static str,
    pub namespace_description: &'static str,
    pub name: &'static str,
    pub description: &'static str,
    pub parameters: Vec<ToolParameter>,
}

pub struct ToolParameterView {
    pub name: Seq<char>,
    pub kind: ParameterKind,
    pub description: Seq<char>,
}

pub struct ToolDefinitionView {
    pub namespace: Seq<char>,
    pub namespace_description: Seq<char>,
    pub name: Seq<char>,
    pub description: Seq<char>,
    pub parameters: Seq<ToolParameterView>,
}

impl View for ToolDefinition {
    type V = ToolDefinitionView;

    open spec fn view(&self) -> ToolDefinitionView {
        ToolDefinitionView {
            namespace: self.namespace@,
            namespace_description: self.namespace_description@,
            name: self.name@,
            description: self.description@,
            parameters: self.parameters@.map_values(
                |p: ToolParameter| ToolParameterView { name: p.name@, kind: p.kind, description: p.description@ },
            ),
        }
    }
}

/// What the `jobs` namespace is for.
pub const NAMESPACE_DESCRIPTION: &'static str = "Deterministic monitoring of long-running jobs (SLURM or detached PIDs); submit through the shell, then attach and await here instead of polling.";

/// The `job` parameter of `job_attach`.
pub const JOB_PARAMETER_DESCRIPTION: &'static str = "Job to act on: `slurm:<job-id>` for a scheduler job (an array parent ID tracks all of its tasks) or `pid:<pid>` for a detached process (the real process, not a wrapper shell).";

/// The `jobs` parameter of `job_attach`.
pub const JOBS_PARAMETER_DESCRIPTION: &'static str = "Attach a whole sweep in one call: several `slurm:<id>`/`pid:<pid>` specs. Defaults them to `batch` waking (failures wake immediately; completions wake when the whole sweep is done).";

/// The `label` parameter of `job_attach`.
pub const LABEL_PARAMETER_DESCRIPTION: &'static str = "Short human label for the job, e.g. `meep production N=4096`.";

/// The `log_paths` parameter of `job_attach`.
pub const LOG_PATHS_PARAMETER_DESCRIPTION: &'static str = "Absolute paths of log or output files to tail and scan while awaiting. With `jobs`, pass one path per job (same order) or none.";

/// The `expected_runtime` parameter of `job_attach`.
pub const EXPECTED_RUNTIME_PARAMETER_DESCRIPTION: &'static str = "Expected wall-clock runtime once running, e.g. `90s`, `45m`, `6h`. A job running far past this is reported once as suspicious (possible hang).";

/// The `watch_patterns` parameter of `job_attach`.
pub const WATCH_PATTERNS_PARAMETER_DESCRIPTION: &'static str = "Extra regexes scanned in log tails alongside the built-in failure patterns (NaN, OOM, crash). Add campaign-specific anomalies worth waking for, e.g. `Fermi level not converged`.";

/// The `wake_policy` parameter of `job_attach`.
pub const WAKE_POLICY_PARAMETER_DESCRIPTION: &'static str = "`each` (default for a single job): completion wakes on its own. `batch` (default for a `jobs` sweep): failures wake immediately, completions wake when every batch job is terminal.";

/// What `job_attach` does.
pub const ATTACH_DESCRIPTION: &'static str = "Register already-submitted long-running jobs for deterministic monitoring. Submit via the shell first; then attach the SLURM job ID (an array parent ID like `slurm:12345` tracks every task) or the detached process PID, with log paths. For a parameter sweep, attach all jobs in one call via `jobs`. Returns the initial state; a job that is already dead should be debugged, not awaited.";

/// The `job` parameter of `job_status`.
pub const STATUS_JOB_PARAMETER_DESCRIPTION: &'static str = "Optional `slurm:<id>` or `pid:<pid>` to check one job; omit to list every job attached in this thread.";

/// What `job_status` does.
pub const STATUS_DESCRIPTION: &'static str = "Instantly report the current state, state history, and bounded log tail of attached jobs, without waiting. Use after a resume to reattach to work that ran while the session was closed.";

/// The `job` parameter of `job_await`.
pub const AWAIT_JOB_PARAMETER_DESCRIPTION: &'static str = "Optional `slurm:<id>` or `pid:<pid>` to await one job; omit to await every attached job that is still active.";

/// What `job_await` does.
pub const AWAIT_DESCRIPTION: &'static str = "Wait for attached jobs with deterministic, adaptive polling (no agent turns are spent while waiting). Returns when a job reaches a terminal state (batch/sweep jobs: on first failure or once the whole sweep is done), a suspicious or watched log line appears (NaN, OOM, crash, your watch_patterns), a job runs far past its expected_runtime, the scheduler stops answering, new user input arrives, or the wait budget elapses. If you instead end your turn with jobs running, a deterministic watcher wakes you when they complete.";

/// The `max_wait_seconds` parameter of `job_await`, with the default and
/// the longest budget.
pub open spec fn max_wait_description() -> Seq<char> {
    "Wait budget for this call in seconds (default "@ + decimal(DEFAULT_AWAIT_BUDGET_SECONDS as nat) + ", max "@ + decimal(
        MAX_AWAIT_BUDGET_SECONDS as nat,
    ) + "). On expiry the call returns `still running`; simply call job_await again."@
}

pub open spec fn parameter_view(name: &'static str, kind: ParameterKind, description: Seq<char>) -> ToolParameterView {
    ToolParameterView { name: name@, kind, description }
}

fn parameter(name: &'static str, kind: ParameterKind, description: &'static str) -> (r: ToolParameter)
    ensures
        r.name == name,
        r.kind == kind,
        r.description@ == description@,
{
    ToolParameter { name, kind, description: owned(description) }
}

impl JobAttachHandler {
    /// What the model is shown of `job_attach`.
    pub fn definition(&self) -> (r: ToolDefinition)
        ensures
            r.namespace == NAMESPACE,
            r.namespace_description == NAMESPACE_DESCRIPTION,
            r.name@ == "job_attach"@,
            r.description == ATTACH_DESCRIPTION,
            r@.parameters == seq![
                parameter_view("expected_runtime", ParameterKind::Text, EXPECTED_RUNTIME_PARAMETER_DESCRIPTION@),
                parameter_view("job", ParameterKind::Text, JOB_PARAMETER_DESCRIPTION@),
                parameter_view("jobs", ParameterKind::TextList, JOBS_PARAMETER_DESCRIPTION@),
                parameter_view("label", ParameterKind::Text, LABEL_PARAMETER_DESCRIPTION@),
                parameter_view("log_paths", ParameterKind::TextList, LOG_PATHS_PARAMETER_DESCRIPTION@),
                parameter_view("wake_policy", ParameterKind::Text, WAKE_POLICY_PARAMETER_DESCRIPTION@),
                parameter_view("watch_patterns", ParameterKind::TextList, WATCH_PATTERNS_PARAMETER_DESCRIPTION@),
            ],
    {
        let mut parameters: Vec<ToolParameter> = Vec::new();
        parameters.push(parameter("expected_runtime", ParameterKind::Text, EXPECTED_RUNTIME_PARAMETER_DESCRIPTION));
        parameters.push(parameter("job", ParameterKind::Text, JOB_PARAMETER_DESCRIPTION));
        parameters.push(parameter("jobs", ParameterKind::TextList, JOBS_PARAMETER_DESCRIPTION));
        parameters.push(parameter("label", ParameterKind::Text, LABEL_PARAMETER_DESCRIPTION));
        parameters.push(parameter("log_paths", ParameterKind::TextList, LOG_PATHS_PARAMETER_DESCRIPTION));
        parameters.push(parameter("wake_policy", ParameterKind::Text, WAKE_POLICY_PARAMETER_DESCRIPTION));
        parameters.push(parameter("watch_patterns", ParameterKind::TextList, WATCH_PATTERNS_PARAMETER_DESCRIPTION));
        let r = ToolDefinition {
            namespace: NAMESPACE,
            namespace_description: NAMESPACE_DESCRIPTION,
            name: "job_attach",
            description: ATTACH_DESCRIPTION,
            parameters,
        };
        proof {
            assert(r@.parameters =~= seq![
                parameter_view("expected_runtime", ParameterKind::Text, EXPECTED_RUNTIME_PARAMETER_DESCRIPTION@),
                parameter_view("job", ParameterKind::Text, JOB_PARAMETER_DESCRIPTION@),
                parameter_view("jobs", ParameterKind::TextList, JOBS_PARAMETER_DESCRIPTION@),
                parameter_view("label", ParameterKind::Text, LABEL_PARAMETER_DESCRIPTION@),
                parameter_view("log_paths", ParameterKind::TextList, LOG_PATHS_PARAMETER_DESCRIPTION@),
                parameter_view("wake_policy", ParameterKind::Text, WAKE_POLICY_PARAMETER_DESCRIPTION@),
                parameter_view("watch_patterns", ParameterKind::TextList, WATCH_PATTERNS_PARAMETER_DESCRIPTION@),
            ]);
        }
        r
    }
}

impl JobStatusHandler {
    /// What the model is shown of `job_status`.
    pub fn definition(&self) -> (r: ToolDefinition)
        ensures
            r.namespace == NAMESPACE,
            r.namespace_description == NAMESPACE_DESCRIPTION,
            r.name@ == "job_status"@,
            r.description == STATUS_DESCRIPTION,
            r@.parameters == seq![
                parameter_view("job", ParameterKind::Text, STATUS_JOB_PARAMETER_DESCRIPTION@),
            ],
    {
        let mut parameters: Vec<ToolParameter> = Vec::new();
        parameters.push(parameter("job", ParameterKind::Text, STATUS_JOB_PARAMETER_DESCRIPTION));
        let r = ToolDefinition {
            namespace: NAMESPACE,
            namespace_description: NAMESPACE_DESCRIPTION,
            name: "job_status",
            description: STATUS_DESCRIPTION,
            parameters,
        };
        proof {
            assert(r@.parameters =~= seq![
                parameter_view("job", ParameterKind::Text, STATUS_JOB_PARAMETER_DESCRIPTION@),
            ]);
        }
        r
    }
}

impl JobAwaitHandler {
    /// What the model is shown of `job_await`.
    pub fn definition(&self) -> (r: ToolDefinition)
        ensures
            r.namespace == NAMESPACE,
            r.namespace_description == NAMESPACE_DESCRIPTION,
            r.name@ == "job_await"@,
            r.description == AWAIT_DESCRIPTION,
            r@.parameters == seq![
                parameter_view("job", ParameterKind::Text, AWAIT_JOB_PARAMETER_DESCRIPTION@),
                parameter_view("max_wait_seconds", ParameterKind::Number, max_wait_description()),
            ],
    {
        let mut parameters: Vec<ToolParameter> = Vec::new();
        parameters.push(parameter("job", ParameterKind::Text, AWAIT_JOB_PARAMETER_DESCRIPTION));
        parameters.push(ToolParameter { name: "max_wait_seconds", kind: ParameterKind::Number, description: max_wait_text() });
        let r = ToolDefinition {
            namespace: NAMESPACE,
            namespace_description: NAMESPACE_DESCRIPTION,
            name: "job_await",
            description: AWAIT_DESCRIPTION,
            parameters,
        };
        proof {
            assert(r@.parameters =~= seq![
                parameter_view("job", ParameterKind::Text, AWAIT_JOB_PARAMETER_DESCRIPTION@),
                parameter_view("max_wait_seconds", ParameterKind::Number, max_wait_description()),
            ]);
        }
        r
    }
}

fn max_wait_text() -> (r: String)
    ensures
        r@ == max_wait_description(),
{
    let mut r = owned("Wait budget for this call in seconds (default ");
    push_decimal(&mut r, DEFAULT_AWAIT_BUDGET_SECONDS);
    push_str(&mut r, ", max ");
    push_decimal(&mut r, MAX_AWAIT_BUDGET_SECONDS);
    push_str(&mut r, "). On expiry the call returns `still running`; simply call job_await again.");
    r
}

} // verus!
