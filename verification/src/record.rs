//! Job targets and durable job records.
//!
//! A record holds everything the monitor knows of one job: what is watched,
//! the observed state history, and which outcomes were already reported to
//! the agent.

use vstd::prelude::*;
use crate::clock::now_millis;
use crate::state::{JobState, JobStateView};
use crate::text::{
    lemma_decimal_parses, lemma_first_index_is, lemma_trim_unchanged, ratio_text,
    after, after_char, before, before_char, chars_eq, chars_of, decimal, is_digit, owned,
    parse_unsigned, parse_unsigned_chars, push_chars, push_decimal, push_str, string_of, trim,
    trim_chars, views,
};

verus! {

broadcast use vstd::string::group_string_axioms;

/// What is being watched.
#[derive(Debug, Clone, PartialEq, Eq)]
pub enum JobTarget {
    Slurm { job_id: String },
    Pid { pid: u32 },
}

/// The mathematical value of a [`JobTarget`].
pub enum JobTargetView {
    Slurm { job_id: Seq<char> },
    Pid { pid: u32 },
}

impl View for JobTarget {
    type V = JobTargetView;

    open spec fn view(&self) -> JobTargetView {
        match self {
            JobTarget::Slurm { job_id } => JobTargetView::Slurm { job_id: job_id@ },
            JobTarget::Pid { pid } => JobTargetView::Pid { pid: *pid },
        }
    }
}

/// Whether `c` may appear in a SLURM job ID spec: an ASCII digit or `_`.
pub open spec fn is_job_id_char(c: char) -> bool {
    is_digit(c) || c == '_'
}

/// The meaning of a job spec, `slurm:<id>` or `pid:<pid>`, or the error
/// message for it.
pub open spec fn parsed_target(spec: Seq<char>) -> Result<JobTargetView, Seq<char>> {
    let shape = "job spec `"@ + spec + "` must look like slurm:<id> or pid:<pid>"@;
    match after(spec, ':') {
        None => Err(shape),
        Some(rest) => {
            let kind = trim(before(spec, ':'));
            let value = trim(rest);
            if kind == "slurm"@ && value.len() > 0 && forall|i: int|
                0 <= i < value.len() ==> is_job_id_char(#[trigger] value[i]) {
                Ok(JobTargetView::Slurm { job_id: value })
            } else if kind == "pid"@ {
                match parse_unsigned(value, u32::MAX as nat) {
                    Some(p) if p > 0 => Ok(JobTargetView::Pid { pid: p as u32 }),
                    _ => Err("invalid pid in job spec `"@ + spec + "`"@),
                }
            } else {
                Err(shape)
            }
        },
    }
}

/// The file key of a target: `slurm-<id>` or `pid-<pid>`.
pub open spec fn target_key(t: JobTargetView) -> Seq<char> {
    match t {
        JobTargetView::Slurm { job_id } => "slurm-"@ + job_id,
        JobTargetView::Pid { pid } => "pid-"@ + decimal(pid as nat),
    }
}

/// How a target is shown: `slurm:<id>` or `pid:<pid>`.
pub open spec fn target_display(t: JobTargetView) -> Seq<char> {
    match t {
        JobTargetView::Slurm { job_id } => "slurm:"@ + job_id,
        JobTargetView::Pid { pid } => "pid:"@ + decimal(pid as nat),
    }
}

/// Whether a target is one a spec can name: a non-empty SLURM job ID of
/// digits and `_`, or a positive PID.
pub open spec fn valid_target(t: JobTargetView) -> bool {
    match t {
        JobTargetView::Slurm { job_id } => job_id.len() > 0 && forall|i: int|
            0 <= i < job_id.len() ==> is_job_id_char(#[trigger] job_id[i]),
        JobTargetView::Pid { pid } => pid > 0,
    }
}

/// Distinct targets have distinct file keys, so records never overwrite
/// each other; the same holds of their display forms.
pub proof fn lemma_keys_identify_targets(a: JobTargetView, b: JobTargetView)
    ensures
        target_key(a) == target_key(b) ==> a == b,
        target_display(a) == target_display(b) ==> a == b,
{
    reveal_strlit("slurm-");
    reveal_strlit("pid-");
    reveal_strlit("slurm:");
    reveal_strlit("pid:");
    match (a, b) {
        (JobTargetView::Slurm { job_id: x }, JobTargetView::Slurm { job_id: y }) => {
            if target_key(a) == target_key(b) {
                assert(x =~= target_key(a).skip(6));
                assert(y =~= target_key(b).skip(6));
            }
            if target_display(a) == target_display(b) {
                assert(x =~= target_display(a).skip(6));
                assert(y =~= target_display(b).skip(6));
            }
        },
        (JobTargetView::Pid { pid: p }, JobTargetView::Pid { pid: q }) => {
            lemma_decimal_parses(p as nat, p as nat);
            lemma_decimal_parses(q as nat, q as nat);
            if target_key(a) == target_key(b) {
                assert(decimal(p as nat) =~= target_key(a).skip(4));
                assert(decimal(q as nat) =~= target_key(b).skip(4));
            }
            if target_display(a) == target_display(b) {
                assert(decimal(p as nat) =~= target_display(a).skip(4));
                assert(decimal(q as nat) =~= target_display(b).skip(4));
            }
        },
        (JobTargetView::Slurm { .. }, JobTargetView::Pid { .. }) => {
            assert(target_key(a)[0] != target_key(b)[0]);
            assert(target_display(a)[0] != target_display(b)[0]);
        },
        (JobTargetView::Pid { .. }, JobTargetView::Slurm { .. }) => {
            assert(target_key(a)[0] != target_key(b)[0]);
            assert(target_display(a)[0] != target_display(b)[0]);
        },
    }
}

/// Every target a spec parses to is one a spec can name.
pub proof fn lemma_parsed_targets_are_valid(spec: Seq<char>)
    ensures
        parsed_target(spec) matches Ok(t) ==> valid_target(t),
{
}

/// A target's display form is a job spec that parses back to the target.
pub proof fn lemma_display_parses(t: JobTargetView)
    requires
        valid_target(t),
    ensures
        parsed_target(target_display(t)) == Ok::<JobTargetView, Seq<char>>(t),
{
    reveal_strlit("slurm:");
    reveal_strlit("slurm");
    reveal_strlit("pid:");
    reveal_strlit("pid");
    match t {
        JobTargetView::Slurm { job_id } => {
            let s = target_display(t);
            assert(s == "slurm:"@ + job_id);
            assert forall|j: int| 0 <= j < s.len() && j < 5 implies s[j] != ':' by {}
            lemma_first_index_is(s, ':', 5);
            assert(before(s, ':') =~= "slurm"@);
            assert(after(s, ':') == Some(job_id)) by {
                assert(s.skip(6) =~= job_id);
            }
            lemma_trim_unchanged("slurm"@);
            assert(is_job_id_char(job_id[0]));
            assert(is_job_id_char(job_id.last()));
            lemma_trim_unchanged(job_id);
        },
        JobTargetView::Pid { pid } => {
            let d = decimal(pid as nat);
            lemma_decimal_parses(pid as nat, u32::MAX as nat);
            let s = target_display(t);
            assert(s == "pid:"@ + d);
            lemma_first_index_is(s, ':', 3);
            assert(before(s, ':') =~= "pid"@);
            assert(after(s, ':') == Some(d)) by {
                assert(s.skip(4) =~= d);
            }
            lemma_trim_unchanged("pid"@);
            assert(is_digit(d[0]));
            assert(is_digit(d.last()));
            lemma_trim_unchanged(d);
            assert("pid"@ != "slurm"@);
        },
    }
}

fn job_spec_error(spec: &[char], before_spec: &str, after_spec: &str) -> (e: String)
    ensures
        e@ == before_spec@ + spec@ + after_spec@,
{
    let mut e = String::new();
    push_str(&mut e, before_spec);
    push_chars(&mut e, spec);
    push_str(&mut e, after_spec);
    e
}

impl JobTarget {
    /// Parses `"slurm:12345"` or `"pid:4242"`.
    pub fn parse(spec: &str) -> (r: Result<Self, String>)
        ensures
            match r {
                Ok(t) => parsed_target(spec@) == Ok::<JobTargetView, Seq<char>>(t@),
                Err(e) => parsed_target(spec@) == Err::<JobTargetView, Seq<char>>(e@),
            },
    {
        let all = chars_of(spec);
        let rest = match after_char(all.as_slice(), ':') {
            Some(rest) => rest,
            None => {
                return Err(
                    job_spec_error(
                        all.as_slice(),
                        "job spec `",
                        "` must look like slurm:<id> or pid:<pid>",
                    ),
                );
            },
        };
        let kind = trim_chars(before_char(all.as_slice(), ':').as_slice());
        let value = trim_chars(rest.as_slice());
        let slurm = chars_of("slurm");
        let pid = chars_of("pid");
        if chars_eq(kind.as_slice(), slurm.as_slice()) && value.len() > 0 {
            let mut ok = true;
            let mut i: usize = 0;
            while i < value.len()
                invariant
                    i <= value@.len(),
                    ok == forall|j: int| 0 <= j < i ==> is_job_id_char(#[trigger] value@[j]),
                decreases value@.len() - i,
            {
                let c = value[i];
                ok = ok && (('0' <= c && c <= '9') || c == '_');
                i = i + 1;
            }
            if ok {
                return Ok(JobTarget::Slurm { job_id: string_of(value.as_slice()) });
            }
        }
        if chars_eq(kind.as_slice(), pid.as_slice()) {
            match parse_unsigned_chars(value.as_slice(), 4294967295u64) {
                Some(p) => {
                    if p > 0 {
                        return Ok(JobTarget::Pid { pid: p as u32 });
                    }
                },
                None => {},
            }
            return Err(job_spec_error(all.as_slice(), "invalid pid in job spec `", "`"));
        }
        Err(job_spec_error(all.as_slice(), "job spec `", "` must look like slurm:<id> or pid:<pid>"))
    }

    pub fn key(&self) -> (r: String)
        ensures
            r@ == target_key(self@),
    {
        match self {
            JobTarget::Slurm { job_id } => {
                let mut r = owned("slurm-");
                push_str(&mut r, job_id.as_str());
                r
            },
            JobTarget::Pid { pid } => {
                let mut r = owned("pid-");
                push_decimal(&mut r, *pid as u64);
                r
            },
        }
    }

    pub fn display(&self) -> (r: String)
        ensures
            r@ == target_display(self@),
    {
        match self {
            JobTarget::Slurm { job_id } => {
                let mut r = owned("slurm:");
                push_str(&mut r, job_id.as_str());
                r
            },
            JobTarget::Pid { pid } => {
                let mut r = owned("pid:");
                push_decimal(&mut r, *pid as u64);
                r
            },
        }
    }

    /// A copy with the same value.
    pub fn copy(&self) -> (r: Self)
        ensures
            r@ == self@,
    {
        match self {
            JobTarget::Slurm { job_id } => JobTarget::Slurm { job_id: job_id.clone() },
            JobTarget::Pid { pid } => JobTarget::Pid { pid: *pid },
        }
    }
}


/// How a job's terminal state wakes the agent.
#[derive(Debug, Clone, Copy, PartialEq, Eq, Structural)]
pub enum WakePolicy {
    /// Completion wakes on its own.
    Each,
    /// A sweep member: failures wake at once, completions only when every
    /// batch job is terminal.
    Batch,
}

/// One observed state, timestamped.
#[derive(Debug, Clone, PartialEq, Eq)]
pub struct StateObservation {
    /// Milliseconds since the Unix epoch (UTC).
    pub at: i64,
    pub state: JobState,
}

pub struct StateObservationView {
    pub at: i64,
    pub state: JobStateView,
}

impl View for StateObservation {
    type V = StateObservationView;

    open spec fn view(&self) -> StateObservationView {
        StateObservationView { at: self.at, state: self.state@ }
    }
}

/// The most observations a record keeps; older ones are dropped first.
pub const MAX_HISTORY: usize = 100;

/// A monitored job's durable record.
#[derive(Debug, Clone, PartialEq, Eq)]
pub struct JobRecord {
    pub target: JobTarget,
    /// Short human label, e.g. "meep production N=4096".
    pub label: Option<String>,
    /// Log or output files to tail and scan for events.
    pub log_paths: Vec<String>,
    /// Milliseconds since the Unix epoch (UTC).
    pub attached_at: i64,
    /// Newest last; consecutive duplicates collapsed; an observation that
    /// adds an entry keeps at most [`MAX_HISTORY`] entries.
    pub history: Vec<StateObservation>,
    /// When the agent was woken for (or shown) this job's terminal state; a
    /// notified job is never woken for again.
    pub notified_at: Option<i64>,
    /// Fingerprint of the suspicious log lines already reported, so repeated
    /// idle polls do not re-wake the agent for the same lines.
    pub suspicious_signature: Option<String>,
    pub wake_policy: WakePolicy,
    /// Expected wall-clock runtime once running, in seconds.
    pub expected_runtime_seconds: Option<u64>,
    /// Extra log regexes scanned alongside the built-in failure patterns.
    pub watch_patterns: Vec<String>,
    /// Whether an expected-runtime overrun was already reported.
    pub overrun_notified: bool,
}

pub struct JobRecordView {
    pub target: JobTargetView,
    pub label: Option<Seq<char>>,
    pub log_paths: Seq<Seq<char>>,
    pub attached_at: i64,
    pub history: Seq<StateObservationView>,
    pub notified_at: Option<i64>,
    pub suspicious_signature: Option<Seq<char>>,
    pub wake_policy: WakePolicy,
    pub expected_runtime_seconds: Option<u64>,
    pub watch_patterns: Seq<Seq<char>>,
    pub overrun_notified: bool,
}

pub open spec fn history_view(h: Seq<StateObservation>) -> Seq<StateObservationView> {
    h.map_values(|o: StateObservation| o@)
}

impl View for JobRecord {
    type V = JobRecordView;

    open spec fn view(&self) -> JobRecordView {
        JobRecordView {
            target: self.target@,
            label: crate::state::opt_view(self.label),
            log_paths: views(self.log_paths@),
            attached_at: self.attached_at,
            history: history_view(self.history@),
            notified_at: self.notified_at,
            suspicious_signature: crate::state::opt_view(self.suspicious_signature),
            wake_policy: self.wake_policy,
            expected_runtime_seconds: self.expected_runtime_seconds,
            watch_patterns: views(self.watch_patterns@),
            overrun_notified: self.overrun_notified,
        }
    }
}

/// `h` after observing `state` at `at`: unchanged when its newest entry
/// already holds that state; otherwise the new entry is appended and only
/// the newest [`MAX_HISTORY`] entries are kept.
pub open spec fn observed_history(
    h: Seq<StateObservationView>,
    state: JobStateView,
    at: i64,
) -> Seq<StateObservationView> {
    if h.len() > 0 && h.last().state == state {
        h
    } else {
        let grown = h.push(StateObservationView { at, state });
        if grown.len() > MAX_HISTORY {
            grown.skip(grown.len() - MAX_HISTORY)
        } else {
            grown
        }
    }
}

/// `r` with its history replaced.
pub open spec fn with_history(r: JobRecordView, h: Seq<StateObservationView>) -> JobRecordView {
    JobRecordView {
        target: r.target,
        label: r.label,
        log_paths: r.log_paths,
        attached_at: r.attached_at,
        history: h,
        notified_at: r.notified_at,
        suspicious_signature: r.suspicious_signature,
        wake_policy: r.wake_policy,
        expected_runtime_seconds: r.expected_runtime_seconds,
        watch_patterns: r.watch_patterns,
        overrun_notified: r.overrun_notified,
    }
}

/// When the job was first seen running: the time of the oldest kept
/// observation whose token is `RUNNING`.
pub open spec fn run_started(h: Seq<StateObservationView>) -> Option<i64>
    decreases h.len(),
{
    if h.len() == 0 {
        None
    } else if h[0].state.token == "RUNNING"@ {
        Some(h[0].at)
    } else {
        run_started(h.drop_first())
    }
}

/// Whole seconds from `start` to `now`, or zero when `now` is not later.
pub open spec fn elapsed_seconds(start: i64, now: i64) -> nat {
    if now > start {
        ((now - start) / 1000) as nat
    } else {
        0
    }
}

/// Milliseconds from `start` to `now`, or zero when `now` is not later.
pub open spec fn elapsed_millis(start: i64, now: i64) -> nat {
    if now > start {
        (now - start) as nat
    } else {
        0
    }
}

/// Time running against the expected runtime; the ratio is
/// `elapsed_millis / (1000 * expected_seconds)`.
#[derive(Debug, Clone, Copy, PartialEq, Eq)]
pub struct RuntimeRatio {
    pub elapsed_millis: u64,
    pub expected_seconds: u64,
}

pub open spec fn runtime_ratio_at(r: JobRecordView, now: i64) -> Option<RuntimeRatio> {
    match (r.expected_runtime_seconds, run_started(r.history)) {
        (Some(expected), Some(start)) => Some(
            RuntimeRatio {
                elapsed_millis: elapsed_millis(start, now) as u64,
                expected_seconds: expected,
            },
        ),
        _ => None,
    }
}

/// Whether `elapsed / expected` is at least [`OVERRUN_WAKE_RATIO`]: an
/// expected runtime of zero is overrun as soon as any time has passed, and
/// no time at all is never an overrun.
pub open spec fn is_overrun(ratio: RuntimeRatio) -> bool {
    ratio.elapsed_millis > 0 && ratio.elapsed_millis >= crate::polling::OVERRUN_WAKE_RATIO * 1000
        * ratio.expected_seconds
}

/// The ratio of a runtime ratio, with one decimal (`inf` for an expected
/// runtime of zero).
pub open spec fn runtime_ratio_text(ratio: RuntimeRatio) -> Seq<char> {
    ratio_text(ratio.elapsed_millis as nat, 1000 * ratio.expected_seconds as nat)
}

/// Observing the state a history already ends with leaves it unchanged,
/// so observing the same state again is idempotent. Otherwise the history
/// afterwards ends with the observed state and, when it held at most
/// [`MAX_HISTORY`] entries before, holds at most that many after.
pub proof fn lemma_observed_history(h: Seq<StateObservationView>, state: JobStateView, at: i64, later: i64)
    ensures
        h.len() > 0 && h.last().state == state ==> observed_history(h, state, at) == h,
        observed_history(h, state, at).len() > 0,
        observed_history(h, state, at).last().state == state,
        h.len() <= MAX_HISTORY ==> observed_history(h, state, at).len() <= MAX_HISTORY,
        observed_history(observed_history(h, state, at), state, later) == observed_history(h, state, at),
{
    let out = observed_history(h, state, at);
    if !(h.len() > 0 && h.last().state == state) {
        let grown = h.push(StateObservationView { at, state });
        if grown.len() > MAX_HISTORY {
            assert(out.last() == grown.last());
        }
    }
    assert(out.len() > 0);
}

/// Observing a state that differs from the newest one appends it, keeping
/// the newest [`MAX_HISTORY`] entries: the observation is the newest entry
/// and the entries before it are the newest of the previous history.
pub proof fn lemma_observed_history_appends(h: Seq<StateObservationView>, state: JobStateView, at: i64)
    requires
        h.len() == 0 || h.last().state != state,
    ensures
        observed_history(h, state, at).last() == (StateObservationView { at, state }),
        observed_history(h, state, at).drop_last() == (if h.len() >= MAX_HISTORY {
            h.skip(h.len() - (MAX_HISTORY - 1))
        } else {
            h
        }),
{
    let grown = h.push(StateObservationView { at, state });
    let out = observed_history(h, state, at);
    if grown.len() > MAX_HISTORY {
        assert(out.drop_last() =~= h.skip(h.len() - (MAX_HISTORY - 1)));
    } else {
        assert(out.drop_last() =~= h);
    }
}

impl JobRecord {
    /// A fresh record attached at `at` (milliseconds since the epoch): no
    /// history, no notification marks, `each` waking, no expected runtime
    /// and no extra watch patterns.
    pub fn new_at(target: JobTarget, label: Option<String>, log_paths: Vec<String>, at: i64) -> (r: Self)
        ensures
            r.target == target,
            r.label == label,
            r.log_paths == log_paths,
            r.attached_at == at,
            r.history@.len() == 0,
            r.notified_at is None,
            r.suspicious_signature is None,
            r.wake_policy == WakePolicy::Each,
            r.expected_runtime_seconds is None,
            r.watch_patterns@.len() == 0,
            !r.overrun_notified,
    {
        JobRecord {
            target,
            label,
            log_paths,
            attached_at: at,
            history: Vec::new(),
            notified_at: None,
            suspicious_signature: None,
            wake_policy: WakePolicy::Each,
            expected_runtime_seconds: None,
            watch_patterns: Vec::new(),
            overrun_notified: false,
        }
    }

    /// A fresh record attached now.
    pub fn new(target: JobTarget, label: Option<String>, log_paths: Vec<String>) -> (r: Self)
        ensures
            r.target == target,
            r.label == label,
            r.log_paths == log_paths,
            r.history@.len() == 0,
            r.notified_at is None,
            r.suspicious_signature is None,
            r.wake_policy == WakePolicy::Each,
            r.expected_runtime_seconds is None,
            r.watch_patterns@.len() == 0,
            !r.overrun_notified,
    {
        Self::new_at(target, label, log_paths, now_millis())
    }

    /// Records an observation made at `at`: a state equal to the newest one
    /// changes nothing; another is appended, keeping the newest
    /// [`MAX_HISTORY`] observations.
    pub fn observe_at(&mut self, state: JobState, at: i64)
        ensures
            final(self)@ == with_history(old(self)@, observed_history(old(self)@.history, state@, at)),
    {
        let n = self.history.len();
        if n > 0 && self.history[n - 1].state.same_as(&state) {
            proof {
                assert(self@ =~= with_history(old(self)@, observed_history(old(self)@.history, state@, at)));
            }
            return;
        }
        self.history.push(StateObservation { at, state });
        let ghost grown = history_view(self.history@);
        proof {
            assert(grown =~= history_view(old(self).history@).push(StateObservationView { at, state: state@ }));
        }
        let ghost mut dropped: int = 0;
        while self.history.len() > MAX_HISTORY
            invariant
                history_view(self.history@) == grown.skip(dropped),
                0 <= dropped <= grown.len(),
                grown.len() - dropped == self.history@.len(),
                self.history@.len() >= MAX_HISTORY || dropped == 0,
                self.target == old(self).target,
                self.label == old(self).label,
                self.log_paths == old(self).log_paths,
                self.attached_at == old(self).attached_at,
                self.notified_at == old(self).notified_at,
                self.suspicious_signature == old(self).suspicious_signature,
                self.wake_policy == old(self).wake_policy,
                self.expected_runtime_seconds == old(self).expected_runtime_seconds,
                self.watch_patterns == old(self).watch_patterns,
                self.overrun_notified == old(self).overrun_notified,
            decreases self.history@.len(),
        {
            let ghost before_remove = self.history@;
            self.history.remove(0);
            proof {
                assert(self.history@ =~= before_remove.skip(1));
                assert(history_view(self.history@) =~= history_view(before_remove).skip(1));
                assert(history_view(self.history@) =~= grown.skip(dropped + 1));
                dropped = dropped + 1;
            }
        }
        proof {
            if dropped == 0 {
                assert(grown.skip(0) =~= grown);
            }
        }
    }

    /// Records an observation made now.
    pub fn observe(&mut self, state: JobState)
        ensures
            final(self)@.history.len() > 0,
            final(self)@ == with_history(
                old(self)@,
                observed_history(old(self)@.history, state@, final(self)@.history.last().at),
            ),
    {
        let at = now_millis();
        self.observe_at(state, at);
    }

    pub fn latest_state(&self) -> (r: Option<&JobState>)
        ensures
            match r {
                Some(s) => self@.history.len() > 0 && s@ == self@.history.last().state,
                None => self@.history.len() == 0,
            },
    {
        let n = self.history.len();
        if n == 0 {
            None
        } else {
            Some(&self.history[n - 1].state)
        }
    }

    /// When the job was first seen running.
    pub fn run_started_at(&self) -> (r: Option<i64>)
        ensures
            r == run_started(self@.history),
    {
        let ghost h = self@.history;
        let mut i: usize = 0;
        let running = chars_of("RUNNING");
        proof {
            assert(h.skip(0) =~= h);
        }
        while i < self.history.len()
            invariant
                i <= self.history@.len(),
                h == history_view(self.history@),
                running@ == "RUNNING"@,
                run_started(h) == run_started(h.skip(i as int)),
            decreases self.history@.len() - i,
        {
            proof {
                assert(h.skip(i as int)[0] == h[i as int]);
                assert(h.skip(i as int).drop_first() =~= h.skip(i + 1));
            }
            let token = chars_of(self.history[i].state.token.as_str());
            if chars_eq(token.as_slice(), running.as_slice()) {
                return Some(self.history[i].at);
            }
            i = i + 1;
        }
        None
    }

    /// Running time against the expected runtime at `now` (milliseconds
    /// since the epoch), once an expected runtime is set and the job was
    /// seen running.
    pub fn runtime_ratio(&self, now: i64) -> (r: Option<RuntimeRatio>)
        ensures
            r == runtime_ratio_at(self@, now),
    {
        match (self.expected_runtime_seconds, self.run_started_at()) {
            (Some(expected), Some(start)) => {
                let elapsed: u64 = if now > start {
                    ((now as i128) - (start as i128)) as u64
                } else {
                    0
                };
                Some(RuntimeRatio { elapsed_millis: elapsed, expected_seconds: expected })
            },
            _ => None,
        }
    }
}


/// A copy of a vector of strings.
pub fn copy_strings(v: &Vec<String>) -> (r: Vec<String>)
    ensures
        r@ == v@,
{
    let mut r: Vec<String> = Vec::new();
    let mut i: usize = 0;
    while i < v.len()
        invariant
            i <= v@.len(),
            r@ == v@.take(i as int),
        decreases v@.len() - i,
    {
        r.push(v[i].clone());
        assert(r@ =~= v@.take(i + 1));
        i = i + 1;
    }
    assert(v@.take(i as int) =~= v@);
    r
}

impl StateObservation {
    pub fn copy(&self) -> (r: Self)
        ensures
            r@ == self@,
    {
        StateObservation { at: self.at, state: self.state.copy() }
    }
}

fn copy_history(h: &Vec<StateObservation>) -> (r: Vec<StateObservation>)
    ensures
        history_view(r@) == history_view(h@),
{
    let mut r: Vec<StateObservation> = Vec::new();
    let mut i: usize = 0;
    while i < h.len()
        invariant
            i <= h@.len(),
            history_view(r@) == history_view(h@.take(i as int)),
        decreases h@.len() - i,
    {
        let ghost prev = r@;
        let o = h[i].copy();
        let ghost ov = o@;
        r.push(o);
        assert(r@ == prev.push(o));
        assert(history_view(r@) =~= history_view(prev).push(ov));
        assert(h@.take(i + 1) =~= h@.take(i as int).push(h@[i as int]));
        assert(history_view(h@.take(i + 1)) =~= history_view(h@.take(i as int)).push(h@[i as int]@));
        i = i + 1;
    }
    assert(h@.take(i as int) =~= h@);
    r
}

impl JobRecord {
    /// A copy with the same value.
    pub fn copy(&self) -> (r: Self)
        ensures
            r@ == self@,
    {
        JobRecord {
            target: self.target.copy(),
            label: crate::state::copy_opt(&self.label),
            log_paths: copy_strings(&self.log_paths),
            attached_at: self.attached_at,
            history: copy_history(&self.history),
            notified_at: self.notified_at,
            suspicious_signature: crate::state::copy_opt(&self.suspicious_signature),
            wake_policy: self.wake_policy,
            expected_runtime_seconds: self.expected_runtime_seconds,
            watch_patterns: copy_strings(&self.watch_patterns),
            overrun_notified: self.overrun_notified,
        }
    }
}


/// `r` with its notification marks replaced.
pub open spec fn with_marks(
    r: JobRecordView,
    notified_at: Option<i64>,
    suspicious_signature: Option<Seq<char>>,
    overrun_notified: bool,
) -> JobRecordView {
    JobRecordView {
        target: r.target,
        label: r.label,
        log_paths: r.log_paths,
        attached_at: r.attached_at,
        history: r.history,
        notified_at,
        suspicious_signature,
        wake_policy: r.wake_policy,
        expected_runtime_seconds: r.expected_runtime_seconds,
        watch_patterns: r.watch_patterns,
        overrun_notified,
    }
}


/// `rs` (newest first) with `r` inserted after every record attached at the
/// same time or later.
pub open spec fn insert_by_attach(rs: Seq<JobRecord>, r: JobRecord) -> Seq<JobRecord>
    decreases rs.len(),
{
    if rs.len() == 0 {
        seq![r]
    } else if rs[0].attached_at >= r.attached_at {
        seq![rs[0]] + insert_by_attach(rs.drop_first(), r)
    } else {
        seq![r] + rs
    }
}

/// The records newest attachment first; records attached at the same time
/// keep their order (a stable sort).
pub open spec fn newest_first(rs: Seq<JobRecord>) -> Seq<JobRecord>
    decreases rs.len(),
{
    if rs.len() == 0 {
        Seq::empty()
    } else {
        insert_by_attach(newest_first(rs.drop_last()), rs.last())
    }
}

pub open spec fn sorted_newest_first(rs: Seq<JobRecord>) -> bool {
    forall|i: int, j: int| 0 <= i < j < rs.len() ==> (#[trigger] rs[i]).attached_at >= (#[trigger] rs[j]).attached_at
}

proof fn lemma_insert_by_attach(rs: Seq<JobRecord>, r: JobRecord)
    requires
        sorted_newest_first(rs),
    ensures
        sorted_newest_first(insert_by_attach(rs, r)),
        insert_by_attach(rs, r).to_multiset() == rs.to_multiset().insert(r),
        insert_by_attach(rs, r).len() == rs.len() + 1,
    decreases rs.len(),
{
    broadcast use vstd::seq_lib::group_to_multiset_ensures;
    if rs.len() == 0 {
        assert(seq![r] =~= Seq::<JobRecord>::empty().push(r));
    } else if rs[0].attached_at >= r.attached_at {
        let rest = rs.drop_first();
        assert forall|i: int, j: int| 0 <= i < j < rest.len() implies (#[trigger] rest[i]).attached_at >= (#[trigger] rest[j]).attached_at by {
            assert(rest[i] == rs[i + 1]);
            assert(rest[j] == rs[j + 1]);
        }
        lemma_insert_by_attach(rest, r);
        let tail = insert_by_attach(rest, r);
        let out = seq![rs[0]] + tail;
        assert forall|k: int| 0 <= k < tail.len() implies (#[trigger] tail[k]).attached_at <= rs[0].attached_at by {
            assert(tail.to_multiset().count(tail[k]) > 0);
            assert(rest.to_multiset().insert(r).count(tail[k]) > 0);
            if tail[k] != r {
                assert(rest.to_multiset().count(tail[k]) > 0);
                assert(rest.contains(tail[k]));
                let m = choose|m: int| 0 <= m < rest.len() && rest[m] == tail[k];
                assert(rs[m + 1] == tail[k]);
            }
        }
        assert forall|i: int, j: int| 0 <= i < j < out.len() implies (#[trigger] out[i]).attached_at >= (#[trigger] out[j]).attached_at by {
            if i == 0 {
                assert(out[j] == tail[j - 1]);
            } else {
                assert(out[i] == tail[i - 1]);
                assert(out[j] == tail[j - 1]);
            }
        }
        assert(rs =~= seq![rs[0]] + rest);
        vstd::seq_lib::lemma_multiset_commutative(seq![rs[0]], tail);
        vstd::seq_lib::lemma_multiset_commutative(seq![rs[0]], rest);
        assert(out.to_multiset() =~= rs.to_multiset().insert(r));
    } else {
        let out = seq![r] + rs;
        assert forall|i: int, j: int| 0 <= i < j < out.len() implies (#[trigger] out[i]).attached_at >= (#[trigger] out[j]).attached_at by {
            if i == 0 {
                assert(out[j] == rs[j - 1]);
                if j - 1 > 0 {
                    assert(rs[0].attached_at >= rs[j - 1].attached_at);
                }
            } else {
                assert(out[i] == rs[i - 1]);
                assert(out[j] == rs[j - 1]);
            }
        }
        vstd::seq_lib::lemma_multiset_commutative(seq![r], rs);
        assert(seq![r] =~= Seq::<JobRecord>::empty().push(r));
        assert(out.to_multiset() =~= rs.to_multiset().insert(r));
    }
}

/// Listing records newest attachment first sorts them and keeps every
/// record exactly once.
pub proof fn lemma_newest_first(rs: Seq<JobRecord>)
    ensures
        sorted_newest_first(newest_first(rs)),
        newest_first(rs).to_multiset() == rs.to_multiset(),
        newest_first(rs).len() == rs.len(),
    decreases rs.len(),
{
    broadcast use vstd::seq_lib::group_to_multiset_ensures;
    if rs.len() > 0 {
        lemma_newest_first(rs.drop_last());
        lemma_insert_by_attach(newest_first(rs.drop_last()), rs.last());
        assert(rs =~= rs.drop_last().push(rs.last()));
    }
}

fn insert_newest_first(rs: &mut Vec<JobRecord>, r: JobRecord)
    ensures
        final(rs)@ == insert_by_attach(old(rs)@, r),
{
    let ghost old_rs = rs@;
    let mut i: usize = 0;
    proof {
        assert(old_rs.skip(0) =~= old_rs);
        assert(old_rs.take(0) + insert_by_attach(old_rs, r) =~= insert_by_attach(old_rs, r));
    }
    while i < rs.len() && rs[i].attached_at >= r.attached_at
        invariant
            rs@ == old_rs,
            i <= old_rs.len(),
            insert_by_attach(old_rs, r) == old_rs.take(i as int) + insert_by_attach(old_rs.skip(i as int), r),
        decreases old_rs.len() - i,
    {
        proof {
            let rest = old_rs.skip(i as int);
            assert(rest[0] == old_rs[i as int]);
            assert(rest.drop_first() =~= old_rs.skip(i + 1));
            assert(old_rs.take(i + 1) =~= old_rs.take(i as int) + seq![old_rs[i as int]]);
        }
        i = i + 1;
    }
    rs.insert(i, r);
    proof {
        assert(rs@ =~= old_rs.take(i as int) + (seq![r] + old_rs.skip(i as int)));
    }
}

/// The records newest attachment first, records attached at the same time
/// in their given order.
pub fn sort_newest_first(records: Vec<JobRecord>) -> (r: Vec<JobRecord>)
    ensures
        r@ == newest_first(records@),
{
    let mut out: Vec<JobRecord> = Vec::new();
    let mut rest = records;
    let ghost all = rest@;
    let n = rest.len();
    let mut i: usize = 0;
    while i < n
        invariant
            i <= n,
            n == all.len(),
            rest@ == all.skip(i as int),
            out@ == newest_first(all.take(i as int)),
        decreases n - i,
    {
        let r = rest.remove(0);
        proof {
            assert(r == all[i as int]);
            assert(all.take(i + 1).drop_last() =~= all.take(i as int));
            assert(rest@ =~= all.skip(i + 1));
        }
        insert_newest_first(&mut out, r);
        i = i + 1;
    }
    proof {
        assert(all.take(n as int) =~= all);
    }
    out
}

} // verus!
