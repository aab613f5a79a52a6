//! Deterministic probe decisions for SLURM jobs and detached processes.
//!
//! Running `sacct`/`squeue` and asking the kernel about a PID are done by the
//! caller; these functions turn what came back into job states.

use vstd::prelude::*;
use crate::record::{JobRecord, StateObservationView};
use crate::state::{
    classify_sacct_output, classify_squeue_output, classified, sacct_states, squeue_states,
    state_view, unknown_state, JobPhase, JobState, JobStateView,
};
use crate::text::{chars_eq, chars_of, copy_range, first_word, first_word_chars, lines, owned};

verus! {

broadcast use vstd::string::group_string_axioms;

/// One scheduler command's answer.
#[derive(Debug, Clone, PartialEq, Eq)]
pub enum QueryOutcome {
    /// Exit status zero; stdout, possibly empty.
    Success(String),
    /// Non-zero exit status; stderr, which tells "job unknown" from
    /// "controller down".
    Failed(String),
    /// Missing binary, spawn failure, or timeout.
    Unavailable,
}

/// What the scheduler knows about one job.
#[derive(Debug, Clone, PartialEq, Eq)]
pub enum SlurmProbe {
    /// A recognizable state from `sacct` or `squeue`.
    State(JobState),
    /// The controller answered but has no record of the job ID. Without an
    /// accounting database a job vanishes `MinJobAge` seconds (300 by
    /// default) after it ends, so this is how every finished job eventually
    /// looks where `AccountingStorageType=none`, or the ID is wrong.
    NotFound,
    /// No usable answer: controller unreachable, commands missing or timing
    /// out, or an unrecognized state token.
    Unavailable,
}

/// slurmctld's `ESLURM_INVALID_JOB_ID` message: the controller answered, and
/// it has no record of the job.
pub open spec fn invalid_job_id_message() -> Seq<char> {
    "Invalid job id specified"@
}

/// Whether `needle` occurs in `hay`.
pub open spec fn contains_text(hay: Seq<char>, needle: Seq<char>) -> bool {
    exists|i: int| 0 <= i <= hay.len() - needle.len() && #[trigger] hay.subrange(i, i + needle.len()) == needle
}

fn contains_chars(hay: &[char], needle: &[char]) -> (r: bool)
    ensures
        r == contains_text(hay@, needle@),
{
    if needle.len() > hay.len() {
        return false;
    }
    let m = needle.len();
    let n = hay.len();
    let last = n - m;
    let mut i: usize = 0;
    while i <= last
        invariant
            m == needle@.len(),
            n == hay@.len(),
            m <= n,
            last == n - m,
            i <= last,
            forall|j: int| 0 <= j < i ==> #[trigger] hay@.subrange(j, j + needle@.len()) != needle@,
        decreases last - i,
    {
        let window = copy_range(hay, i, i + m);
        if chars_eq(window.as_slice(), needle) {
            return true;
        }
        if i == last {
            return false;
        }
        i = i + 1;
    }
    false
}

/// What a sacct answer decides: a state, when its output holds a
/// recognizable state for the job.
pub open spec fn sacct_decision(outcome: QueryOutcome, job_id: Seq<char>) -> Option<JobStateView> {
    match outcome {
        QueryOutcome::Success(stdout) => {
            let st = classified(sacct_states(lines(stdout@), job_id));
            if st.phase == JobPhase::Unknown {
                None
            } else {
                Some(st)
            }
        },
        _ => None,
    }
}

/// The probe an squeue answer gives.
pub open spec fn squeue_decision(outcome: QueryOutcome) -> Option<JobStateView> {
    match outcome {
        QueryOutcome::Success(stdout) => {
            let st = classified(squeue_states(lines(stdout@)));
            if st.phase == JobPhase::Unknown {
                None
            } else {
                Some(st)
            }
        },
        _ => None,
    }
}

pub open spec fn squeue_not_found(outcome: QueryOutcome) -> bool {
    match outcome {
        QueryOutcome::Failed(stderr) => contains_text(stderr@, invalid_job_id_message()),
        _ => false,
    }
}

/// `sacct -n -P -o JobID,State -j <id>` is asked first, since it knows
/// finished jobs wherever accounting is configured; its answer decides when
/// it holds a recognizable state for the job. Otherwise `squeue` is asked.
pub fn sacct_probe(outcome: &QueryOutcome, job_id: &str) -> (r: Option<SlurmProbe>)
    ensures
        match r {
            Some(p) => exists|st: JobState| p == SlurmProbe::State(st) && sacct_decision(*outcome, job_id@) == Some(st@),
            None => sacct_decision(*outcome, job_id@) is None,
        },
{
    match outcome {
        QueryOutcome::Success(stdout) => {
            let st = classify_sacct_output(stdout.as_str(), job_id);
            match st.phase {
                JobPhase::Unknown => None,
                _ => Some(SlurmProbe::State(st)),
            }
        },
        _ => None,
    }
}

/// The probe that `squeue -h --states=all -j <id> -o %T` gives: its states,
/// or `NotFound` when the controller says the ID is invalid, or
/// `Unavailable`. `--states=all` keeps jobs that finished within
/// `MinJobAge` visible.
pub fn squeue_probe(outcome: &QueryOutcome) -> (r: SlurmProbe)
    ensures
        match squeue_decision(*outcome) {
            Some(st) => exists|s: JobState| r == SlurmProbe::State(s) && s@ == st,
            None => r == if squeue_not_found(*outcome) {
                SlurmProbe::NotFound
            } else {
                SlurmProbe::Unavailable
            },
        },
{
    match outcome {
        QueryOutcome::Success(stdout) => {
            let st = classify_squeue_output(stdout.as_str());
            match st.phase {
                JobPhase::Unknown => SlurmProbe::Unavailable,
                _ => SlurmProbe::State(st),
            }
        },
        QueryOutcome::Failed(stderr) => {
            let hay = chars_of(stderr.as_str());
            let needle = chars_of("Invalid job id specified");
            if contains_chars(hay.as_slice(), needle.as_slice()) {
                SlurmProbe::NotFound
            } else {
                SlurmProbe::Unavailable
            }
        },
        QueryOutcome::Unavailable => SlurmProbe::Unavailable,
    }
}

/// Whether the history ever observed the job active.
pub open spec fn seen_active(h: Seq<StateObservationView>) -> bool {
    exists|i: int| 0 <= i < h.len() && #[trigger] h[i].state.phase == JobPhase::Active
}

/// The detail of a vanished job that was seen active.
pub open spec fn vanished_detail() -> Seq<char> {
    "gone from the scheduler; the log must tell success from failure"@
}

/// The job state a probe means for a job with record `r`: a scheduler state
/// as is; no answer is unknown; a vanished job that was seen active has
/// exited (a terminal `EXITED`), and one never seen active is `NOT_FOUND`
/// (a wrong ID, or one that ended and aged out before attach).
pub open spec fn resolved_state(probe: SlurmProbe, h: Seq<StateObservationView>) -> JobStateView {
    match probe {
        SlurmProbe::State(st) => st@,
        SlurmProbe::Unavailable => unknown_state(),
        SlurmProbe::NotFound => if seen_active(h) {
            JobStateView {
                token: "EXITED"@,
                phase: JobPhase::Completed,
                detail: Some(vanished_detail()),
            }
        } else {
            state_view("NOT_FOUND"@, JobPhase::Failed)
        },
    }
}

/// A scheduler answer is taken as it is, and no answer is `UNKNOWN`. A job
/// that leaves the scheduler after any observation saw it active, at
/// whatever position in its history, has exited: a terminal `EXITED`, the
/// log deciding success. One that no observation ever saw active is
/// `NOT_FOUND`, a failure.
pub proof fn lemma_vanished_job_resolution(h: Seq<StateObservationView>)
    ensures
        forall|st: JobState| #[trigger] resolved_state(SlurmProbe::State(st), h) == st@,
        resolved_state(SlurmProbe::Unavailable, h).token == "UNKNOWN"@,
        resolved_state(SlurmProbe::Unavailable, h).phase == JobPhase::Unknown,
        (exists|i: int| 0 <= i < h.len() && #[trigger] h[i].state.phase == JobPhase::Active)
            ==> resolved_state(SlurmProbe::NotFound, h) == (JobStateView {
            token: "EXITED"@,
            phase: JobPhase::Completed,
            detail: Some("gone from the scheduler; the log must tell success from failure"@),
        }),
        (forall|i: int| 0 <= i < h.len() ==> #[trigger] h[i].state.phase != JobPhase::Active)
            ==> resolved_state(SlurmProbe::NotFound, h).token == "NOT_FOUND"@
            && resolved_state(SlurmProbe::NotFound, h).phase == JobPhase::Failed,
{
    if exists|i: int| 0 <= i < h.len() && #[trigger] h[i].state.phase == JobPhase::Active {
        let i = choose|i: int| 0 <= i < h.len() && #[trigger] h[i].state.phase == JobPhase::Active;
        assert(seen_active(h));
    } else {
        assert(!seen_active(h));
    }
}

/// Turns what the scheduler said into the job's state, using the record to
/// tell a finished job that aged out of the scheduler from a wrong ID.
pub fn resolve_slurm_probe(probe: SlurmProbe, record: &JobRecord) -> (r: JobState)
    ensures
        r@ == resolved_state(probe, record@.history),
{
    match probe {
        SlurmProbe::State(st) => st,
        SlurmProbe::Unavailable => JobState::unknown(),
        SlurmProbe::NotFound => {
            let ghost h = record@.history;
            let mut seen = false;
            let mut i: usize = 0;
            while i < record.history.len()
                invariant
                    i <= record.history@.len(),
                    h == record@.history,
                    seen == exists|j: int| 0 <= j < i && #[trigger] h[j].state.phase == JobPhase::Active,
                decreases record.history@.len() - i,
            {
                let active = match record.history[i].state.phase {
                    JobPhase::Active => true,
                    _ => false,
                };
                proof {
                    assert(h[i as int].state.phase == record.history@[i as int].state.phase);
                    if active {
                        assert(h[i as int].state.phase == JobPhase::Active);
                    }
                    if !seen && !active {
                        assert forall|j: int| 0 <= j < i + 1 implies #[trigger] h[j].state.phase != JobPhase::Active by {
                            if j < i {
                            }
                        }
                    }
                }
                seen = seen || active;
                i = i + 1;
            }
            if seen {
                JobState {
                    token: owned("EXITED"),
                    phase: JobPhase::Completed,
                    detail: Some(
                        owned("gone from the scheduler; the log must tell success from failure"),
                    ),
                }
            } else {
                JobState::failed("NOT_FOUND")
            }
        },
    }
}

/// Index of the last `c` in `s`, or -1.
pub open spec fn last_index(s: Seq<char>, c: char) -> int
    decreases s.len(),
{
    if s.len() == 0 {
        -1
    } else if s.last() == c {
        s.len() - 1
    } else {
        last_index(s.drop_last(), c)
    }
}

/// Whether a `/proc/<pid>/stat` text reports a zombie or dead task. The text
/// reads `pid (comm) STATE ...`; `comm` may itself contain spaces or
/// parentheses, so the state is the first field after the last `)`.
pub open spec fn stat_is_zombie(stat: Seq<char>) -> bool {
    let k = last_index(stat, ')');
    k >= 0 && {
        let state = first_word(stat.skip(k + 1));
        state == "Z"@ || state == "X"@
    }
}

/// Whether a `/proc/<pid>/stat` text reports a zombie (exited, not yet
/// reaped by its parent) or dead task.
pub fn is_zombie(stat: &str) -> (r: bool)
    ensures
        r == stat_is_zombie(stat@),
{
    let v = chars_of(stat);
    let mut k: usize = v.len();
    proof {
        assert(v@.take(k as int) =~= v@);
    }
    while k > 0 && v[k - 1] != ')'
        invariant
            k <= v@.len(),
            last_index(v@, ')') == last_index(v@.take(k as int), ')'),
        decreases k,
    {
        proof {
            assert(v@.take(k as int).drop_last() =~= v@.take(k - 1));
        }
        k = k - 1;
    }
    if k == 0 {
        proof {
            assert(v@.take(0).len() == 0);
        }
        return false;
    }
    proof {
        assert(v@.take(k as int).last() == v@[k - 1]);
        assert(last_index(v@, ')') == k - 1);
        assert(v@.skip(k as int) =~= v@.subrange(k as int, v@.len() as int));
    }
    let rest = copy_range(v.as_slice(), k, v.len());
    let state = first_word_chars(rest.as_slice());
    let z = chars_of("Z");
    let x = chars_of("X");
    chars_eq(state.as_slice(), z.as_slice()) || chars_eq(state.as_slice(), x.as_slice())
}

/// Whether `pid` can name a process: a positive value that fits a signed
/// process ID. No process has PID 0, and larger values would address
/// process groups once converted.
pub open spec fn valid_pid(pid: u32) -> bool {
    0 < pid <= i32::MAX
}

/// The process ID to signal for `pid`, or `None` when no process can have
/// it.
pub fn signal_target(pid: u32) -> (r: Option<i32>)
    ensures
        match r {
            Some(p) => valid_pid(pid) && p == pid,
            None => !valid_pid(pid),
        },
{
    if pid > 0 && pid <= 2147483647u32 {
        Some(pid as i32)
    } else {
        None
    }
}

/// Whether the detached process `pid` is still alive, given whether it
/// answers `kill(pid, 0)` (EPERM counts as existing) and its
/// `/proc/<pid>/stat` text when that could be read. A PID no process can
/// have is never alive; a zombie still answers the signal, but the job it
/// ran is over.
pub fn pid_alive(pid: u32, process_exists: bool, proc_stat: Option<&str>) -> (r: bool)
    ensures
        r == (valid_pid(pid) && process_exists && !(match proc_stat {
            Some(s) => stat_is_zombie(s@),
            None => false,
        })),
{
    signal_target(pid).is_some() && process_exists && !match proc_stat {
        Some(s) => is_zombie(s),
        None => false,
    }
}

/// The state of a PID job: `RUNNING` while alive, a terminal `EXITED` once
/// gone (a dead PID cannot tell success from failure; the logs must).
pub open spec fn pid_state(alive: bool) -> JobStateView {
    if alive {
        state_view("RUNNING"@, JobPhase::Active)
    } else {
        state_view("EXITED"@, JobPhase::Completed)
    }
}

pub fn pid_job_state(alive: bool) -> (r: JobState)
    ensures
        r@ == pid_state(alive),
{
    if alive {
        JobState::active("RUNNING")
    } else {
        JobState { token: owned("EXITED"), phase: JobPhase::Completed, detail: None }
    }
}

} // verus!
