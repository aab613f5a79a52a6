//! The decisions of one `job_await` poll: when to stop and why, what state
//! transitions to announce, and how long to sleep before the next poll.

use vstd::prelude::*;
use crate::polling::{
    backoff, next_poll_interval, INITIAL_POLL_INTERVAL_NANOS, MAX_POLL_INTERVAL_NANOS,
    UNKNOWN_CONSECUTIVE_LIMIT,
};
use crate::record::{target_display, JobRecord, WakePolicy};
use crate::snapshot::{has_suspicious, overrun_at, JobSnapshot};
use crate::state::{display_state, is_terminal_phase, JobPhase};
use crate::text::{decimal, owned, push_decimal, push_decimal_wide, push_ratio_wide, push_str, same_text};
use crate::watcher::{
    indices_meeting, indices_meeting_exec, lemma_first_listed, lemma_indices_in_range,
    lemma_none_listed, meets, meets_exec,
    overrun_reason, terminal_reason, terminal_reason_exec, Criterion,
};

verus! {

broadcast use vstd::string::group_string_axioms;

/// The last state token seen for each job, keyed by the job's display name.
pub struct TokenLog {
    entries: Vec<(String, String)>,
}

pub open spec fn key_at(e: Seq<(String, String)>, i: int) -> Seq<char> {
    e[i].0@
}

pub open spec fn has_key(e: Seq<(String, String)>, k: Seq<char>) -> bool {
    exists|i: int| 0 <= i < e.len() && #[trigger] key_at(e, i) == k
}

pub open spec fn index_of_key(e: Seq<(String, String)>, k: Seq<char>) -> int {
    choose|i: int| 0 <= i < e.len() && #[trigger] key_at(e, i) == k
}

pub open spec fn distinct_keys(e: Seq<(String, String)>) -> bool {
    forall|i: int, j: int| 0 <= i < e.len() && 0 <= j < e.len() && i != j ==> #[trigger] key_at(e, i) != #[trigger] key_at(e, j)
}

impl View for TokenLog {
    type V = Map<Seq<char>, Seq<char>>;

    closed spec fn view(&self) -> Map<Seq<char>, Seq<char>> {
        Map::new(
            |k: Seq<char>| has_key(self.entries@, k),
            |k: Seq<char>| self.entries@[index_of_key(self.entries@, k)].1@,
        )
    }
}

impl TokenLog {
    /// No two entries share a key.
    pub closed spec fn wf(&self) -> bool {
        distinct_keys(self.entries@)
    }

    pub fn new() -> (r: Self)
        ensures
            r.wf(),
            r@ == Map::<Seq<char>, Seq<char>>::empty(),
    {
        let r = TokenLog { entries: Vec::new() };
        proof {
            assert(r@ =~= Map::<Seq<char>, Seq<char>>::empty());
        }
        r
    }

    /// Sets the token of `key`, returning the one it replaced.
    pub fn insert(&mut self, key: String, value: String) -> (prev: Option<String>)
        requires
            old(self).wf(),
        ensures
            final(self).wf(),
            final(self)@ == old(self)@.insert(key@, value@),
            match prev {
                Some(p) => old(self)@.contains_key(key@) && p@ == old(self)@[key@],
                None => !old(self)@.contains_key(key@),
            },
    {
        let ghost e = self.entries@;
        let mut i: usize = 0;
        while i < self.entries.len()
            invariant
                i <= self.entries@.len(),
                self.entries@ == e,
                old(self).entries@ == e,
                distinct_keys(e),
                forall|j: int| 0 <= j < i ==> #[trigger] key_at(e, j) != key@,
            decreases self.entries@.len() - i,
        {
            if same_text(self.entries[i].0.as_str(), key.as_str()) {
                let ghost ki = i as int;
                proof {
                    assert(key_at(e, ki) == key@);
                    assert(has_key(e, key@));
                    let c = index_of_key(e, key@);
                    assert(c == ki);
                }
                let prev = self.entries[i].1.clone();
                let ghost kv = key@;
                let ghost vv = value@;
                proof {
                    assert(old(self)@.contains_key(kv));
                    assert(old(self)@[kv] == e[ki].1@);
                    assert(prev@ == e[ki].1@);
                }
                self.entries.set(i, (key, value));
                proof {
                    let e2 = self.entries@;
                    assert forall|a: int, b: int| 0 <= a < e2.len() && 0 <= b < e2.len() && a != b implies #[trigger] key_at(e2, a) != #[trigger] key_at(e2, b) by {
                        if a != ki && b != ki {
                            assert(key_at(e2, a) == key_at(e, a));
                            assert(key_at(e2, b) == key_at(e, b));
                        } else if a == ki {
                            assert(key_at(e2, b) == key_at(e, b));
                        } else {
                            assert(key_at(e2, a) == key_at(e, a));
                        }
                    }
                    assert forall|k: Seq<char>| has_key(e2, k) == has_key(e, k) by {
                        if has_key(e, k) {
                            let c = index_of_key(e, k);
                            if c == ki {
                                assert(key_at(e2, ki) == k);
                            } else {
                                assert(key_at(e2, c) == k);
                            }
                        }
                        if has_key(e2, k) {
                            let c = index_of_key(e2, k);
                            if c == ki {
                                assert(key_at(e, ki) == k);
                            } else {
                                assert(key_at(e, c) == k);
                            }
                        }
                    }
                    assert forall|k: Seq<char>| has_key(e2, k) implies e2[index_of_key(e2, k)].1@ == (if k == kv {
                        vv
                    } else {
                        e[index_of_key(e, k)].1@
                    }) by {
                        let c2 = index_of_key(e2, k);
                        let c1 = index_of_key(e, k);
                        if k == kv {
                            assert(key_at(e2, ki) == k);
                        } else {
                            assert(c2 != ki);
                            assert(key_at(e, c2) == k);
                            assert(c1 == c2);
                        }
                    }
                    assert(self@ =~= old(self)@.insert(kv, vv));
                }
                return Some(prev);
            }
            i = i + 1;
        }
        proof {
            assert(!has_key(e, key@));
        }
        let ghost kv = key@;
        let ghost vv = value@;
        self.entries.push((key, value));
        proof {
            let e2 = self.entries@;
            let n = e.len() as int;
            assert(key_at(e2, n) == kv);
            assert forall|a: int, b: int| 0 <= a < e2.len() && 0 <= b < e2.len() && a != b implies #[trigger] key_at(e2, a) != #[trigger] key_at(e2, b) by {
                if a < n && b < n {
                    assert(key_at(e2, a) == key_at(e, a));
                    assert(key_at(e2, b) == key_at(e, b));
                } else if a == n {
                    assert(key_at(e2, b) == key_at(e, b));
                } else {
                    assert(key_at(e2, a) == key_at(e, a));
                }
            }
            assert forall|k: Seq<char>| has_key(e2, k) == (has_key(e, k) || k == kv) by {
                if has_key(e, k) {
                    let c = index_of_key(e, k);
                    assert(key_at(e2, c) == k);
                }
                if has_key(e2, k) && k != kv {
                    let c = index_of_key(e2, k);
                    assert(c != n);
                    assert(key_at(e, c) == k);
                }
            }
            assert forall|k: Seq<char>| has_key(e2, k) implies e2[index_of_key(e2, k)].1@ == (if k == kv {
                vv
            } else {
                e[index_of_key(e, k)].1@
            }) by {
                let c2 = index_of_key(e2, k);
                let c1 = index_of_key(e, k);
                if k == kv {
                    assert(c2 == n);
                } else {
                    assert(c2 != n);
                    assert(key_at(e, c2) == k);
                    assert(c1 == c2);
                }
            }
            assert(self@ =~= old(self)@.insert(kv, vv));
        }
        None
    }
}

/// The state that carries over between the polls of one `job_await` call.
pub struct AwaitState {
    /// Nanoseconds to sleep after the next poll (before clamping to the
    /// remaining budget).
    pub poll_interval: u128,
    /// Consecutive polls in which every job was UNKNOWN.
    pub consecutive_unknown: u32,
    /// The last state token seen per job.
    pub last_tokens: TokenLog,
}

impl AwaitState {
    pub open spec fn wf(&self) -> bool {
        &&& self.poll_interval <= MAX_POLL_INTERVAL_NANOS
        &&& self.last_tokens.wf()
    }

    /// The state before the first poll when no token is known yet: the
    /// initial interval and no unknown streak.
    pub fn start() -> (r: Self)
        ensures
            r.wf(),
            r.poll_interval == INITIAL_POLL_INTERVAL_NANOS,
            r.consecutive_unknown == 0,
            r.last_tokens@ == Map::<Seq<char>, Seq<char>>::empty(),
    {
        AwaitState {
            poll_interval: INITIAL_POLL_INTERVAL_NANOS,
            consecutive_unknown: 0,
            last_tokens: TokenLog::new(),
        }
    }
}

/// The last token recorded for each job of `rs`, by display name; a later
/// record of the same job wins, and a record never probed adds nothing.
pub open spec fn recorded_tokens(rs: Seq<JobRecord>) -> Map<Seq<char>, Seq<char>>
    decreases rs.len(),
{
    if rs.len() == 0 {
        Map::empty()
    } else {
        let m = recorded_tokens(rs.drop_last());
        let r = rs.last();
        if r@.history.len() > 0 {
            m.insert(target_display(r.target@), r@.history.last().state.token)
        } else {
            m
        }
    }
}

impl AwaitState {
    /// The state before the first poll of a wait on `records`: the initial
    /// interval, no unknown streak, and the tokens the records already hold,
    /// so a change seen by the first poll is announced as a transition.
    pub fn start_with(records: &[JobRecord]) -> (r: Self)
        ensures
            r.wf(),
            r.poll_interval == INITIAL_POLL_INTERVAL_NANOS,
            r.consecutive_unknown == 0,
            r.last_tokens@ == recorded_tokens(records@),
    {
        let mut state = Self::start();
        let mut i: usize = 0;
        proof {
            assert(records@.take(0) =~= Seq::<JobRecord>::empty());
        }
        while i < records.len()
            invariant
                i <= records@.len(),
                state.wf(),
                state.poll_interval == INITIAL_POLL_INTERVAL_NANOS,
                state.consecutive_unknown == 0,
                state.last_tokens@ == recorded_tokens(records@.take(i as int)),
            decreases records@.len() - i,
        {
            proof {
                assert(records@.take(i + 1).drop_last() =~= records@.take(i as int));
                assert(records@.take(i + 1).last() == records@[i as int]);
            }
            let r = &records[i];
            match r.latest_state() {
                Some(latest) => {
                    state.last_tokens.insert(r.target.display(), latest.token.clone());
                },
                None => {},
            }
            i = i + 1;
        }
        proof {
            assert(records@.take(i as int) =~= records@);
        }
        state
    }

    /// The state before the first poll of a wait on `records`, or the
    /// `job_await` error when no job is attached.
    pub fn await_start(records: &[JobRecord]) -> (r: Result<Self, String>)
        ensures
            r is Err <==> records@.len() == 0,
            r matches Err(e) ==> e@ == crate::tools::NO_JOBS_AWAIT@,
            r matches Ok(state) ==> state.wf() && state.poll_interval == INITIAL_POLL_INTERVAL_NANOS
                && state.consecutive_unknown == 0 && state.last_tokens@ == recorded_tokens(records@),
    {
        if records.len() == 0 {
            Err(owned(crate::tools::NO_JOBS_AWAIT))
        } else {
            Ok(Self::start_with(records))
        }
    }
}

/// What to do after a poll.
pub enum AwaitAction {
    /// Stop waiting, with the reason found (none when only new input stops
    /// the wait).
    Stop { reason: Option<String> },
    /// Sleep this many nanoseconds, or until new input arrives, then poll
    /// again.
    Sleep { nanos: u128 },
}

pub enum AwaitActionView {
    Stop(Option<Seq<char>>),
    Sleep(u128),
}

impl View for AwaitAction {
    type V = AwaitActionView;

    open spec fn view(&self) -> AwaitActionView {
        match self {
            AwaitAction::Stop { reason } => AwaitActionView::Stop(crate::state::opt_view(*reason)),
            AwaitAction::Sleep { nanos } => AwaitActionView::Sleep(*nanos),
        }
    }
}

/// Whether every snapshot meets `c`.
pub open spec fn all_meet(snaps: Seq<JobSnapshot>, c: Criterion) -> bool {
    forall|i: int| 0 <= i < snaps.len() ==> meets(c, #[trigger] snaps[i])
}

/// The index of the first snapshot that meets `c`.
pub open spec fn first_meeting(snaps: Seq<JobSnapshot>, c: Criterion) -> Option<int> {
    let idx = indices_meeting(snaps, c);
    if idx.len() > 0 {
        Some(idx[0] as int)
    } else {
        None
    }
}

/// The job whose terminal state ends the wait. Batch (sweep) waits end on
/// the first failure, or once every job is terminal (naming the first);
/// other waits end on the first terminal job.
pub open spec fn terminal_stop(snaps: Seq<JobSnapshot>) -> Option<int> {
    if all_meet(snaps, Criterion::Batch) {
        match first_meeting(snaps, Criterion::Failed) {
            Some(i) => Some(i),
            None => if snaps.len() > 0 && all_meet(snaps, Criterion::Terminal) {
                Some(0)
            } else {
                None
            },
        }
    } else {
        first_meeting(snaps, Criterion::Terminal)
    }
}

pub open spec fn unknown_limit_reason(n: nat) -> Seq<char> {
    "no usable scheduler answer "@ + decimal(n)
        + " polls in a row (sacct/squeue failing or timing out); check the scheduler, then job_await again"@
}

/// Why the wait stops after a poll, if it does: a terminal job, then
/// suspicious lines, then an unreported overrun, then too many consecutive
/// UNKNOWN answers.
pub open spec fn await_stop_reason(snaps: Seq<JobSnapshot>, unknown: nat, now: i64) -> Option<Seq<char>> {
    match terminal_stop(snaps) {
        Some(i) => Some(
            if all_meet(snaps, Criterion::Batch) && snaps.len() > 1 && snaps[i].state.phase
                != JobPhase::Failed {
                "all "@ + decimal(snaps.len()) + " batch jobs reached terminal states"@
            } else {
                terminal_reason(snaps[i])
            },
        ),
        None => match first_meeting(snaps, Criterion::AnySuspicious) {
            Some(i) => Some(
                "suspicious log lines appeared for "@ + target_display(snaps[i].record.target@),
            ),
            None => match first_meeting(snaps, Criterion::Overrun(now)) {
                Some(i) => Some(overrun_reason(snaps[i], overrun_at(snaps[i], now)->Some_0)),
                None => if unknown >= UNKNOWN_CONSECUTIVE_LIMIT {
                    Some(unknown_limit_reason(unknown))
                } else {
                    None
                },
            },
        },
    }
}

/// A sweep stops at its first failure: when every job of the wait is a
/// batch job and one has failed, the wait stops now, naming the first
/// failed job, whatever the others are doing.
pub proof fn lemma_sweep_stops_on_first_failure(snaps: Seq<JobSnapshot>, unknown: nat, now: i64, f: int)
    requires
        snaps.len() <= usize::MAX,
        forall|i: int| 0 <= i < snaps.len() ==> #[trigger] snaps[i].record.wake_policy == WakePolicy::Batch,
        0 <= f < snaps.len(),
        snaps[f].state.phase == JobPhase::Failed,
        forall|j: int| 0 <= j < f ==> #[trigger] snaps[j].state.phase != JobPhase::Failed,
    ensures
        await_stop_reason(snaps, unknown, now) == Some(
            target_display(snaps[f].record.target@) + " reached terminal state "@ + display_state(
                snaps[f].state@,
            ),
        ),
{
    assert forall|j: int| 0 <= j < f implies !meets(Criterion::Failed, #[trigger] snaps[j]) by {
        assert(snaps[j].state.phase != JobPhase::Failed);
    }
    lemma_first_listed(snaps, Criterion::Failed, f);
    assert(all_meet(snaps, Criterion::Batch));
}

/// A wait that is not a whole sweep stops at its first terminal job and
/// names it.
pub proof fn lemma_wait_stops_on_first_terminal(snaps: Seq<JobSnapshot>, unknown: nat, now: i64, f: int)
    requires
        snaps.len() <= usize::MAX,
        exists|i: int| 0 <= i < snaps.len() && #[trigger] snaps[i].record.wake_policy != WakePolicy::Batch,
        0 <= f < snaps.len(),
        is_terminal_phase(snaps[f].state.phase),
        forall|j: int| 0 <= j < f ==> !is_terminal_phase(#[trigger] snaps[j].state.phase),
    ensures
        await_stop_reason(snaps, unknown, now) == Some(
            target_display(snaps[f].record.target@) + " reached terminal state "@ + display_state(
                snaps[f].state@,
            ),
        ),
{
    let i = choose|i: int| 0 <= i < snaps.len() && #[trigger] snaps[i].record.wake_policy != WakePolicy::Batch;
    assert(!meets(Criterion::Batch, snaps[i]));
    assert forall|j: int| 0 <= j < f implies !meets(Criterion::Terminal, #[trigger] snaps[j]) by {
        assert(!is_terminal_phase(snaps[j].state.phase));
    }
    lemma_first_listed(snaps, Criterion::Terminal, f);
}

/// A sweep of several jobs that all ended without a failure stops, counting
/// them.
pub proof fn lemma_finished_sweep_stops(snaps: Seq<JobSnapshot>, unknown: nat, now: i64)
    requires
        snaps.len() <= usize::MAX,
        snaps.len() > 1,
        forall|i: int| 0 <= i < snaps.len() ==> #[trigger] snaps[i].record.wake_policy == WakePolicy::Batch,
        forall|i: int| 0 <= i < snaps.len() ==> #[trigger] snaps[i].state.phase == JobPhase::Completed,
    ensures
        await_stop_reason(snaps, unknown, now) == Some(
            "all "@ + decimal(snaps.len()) + " batch jobs reached terminal states"@,
        ),
{
    assert(all_meet(snaps, Criterion::Batch));
    assert forall|j: int| 0 <= j < snaps.len() implies !meets(Criterion::Failed, #[trigger] snaps[j]) by {
        assert(snaps[j].state.phase == JobPhase::Completed);
    }
    lemma_none_listed(snaps, Criterion::Failed);
    assert forall|j: int| 0 <= j < snaps.len() implies meets(Criterion::Terminal, #[trigger] snaps[j]) by {
        assert(snaps[j].state.phase == JobPhase::Completed);
    }
    assert(snaps[0].state.phase == JobPhase::Completed);
}

/// While no job has ended and none shows suspicious lines or an unreported
/// overrun, the wait goes on until the scheduler has given no usable answer
/// `UNKNOWN_CONSECUTIVE_LIMIT` polls in a row, and then stops saying so.
pub proof fn lemma_wait_stops_on_repeated_unknown(snaps: Seq<JobSnapshot>, unknown: nat, now: i64)
    requires
        snaps.len() <= usize::MAX,
        snaps.len() > 0,
        forall|i: int| 0 <= i < snaps.len() ==> !is_terminal_phase(#[trigger] snaps[i].state.phase),
        forall|i: int| 0 <= i < snaps.len() ==> !has_suspicious(#[trigger] snaps[i].log_tails@),
        forall|i: int| 0 <= i < snaps.len() ==> overrun_at(#[trigger] snaps[i], now) is None,
    ensures
        unknown < UNKNOWN_CONSECUTIVE_LIMIT ==> await_stop_reason(snaps, unknown, now) is None,
        unknown >= UNKNOWN_CONSECUTIVE_LIMIT ==> await_stop_reason(snaps, unknown, now) == Some(
            "no usable scheduler answer "@ + decimal(unknown)
                + " polls in a row (sacct/squeue failing or timing out); check the scheduler, then job_await again"@,
        ),
{
    assert forall|j: int| 0 <= j < snaps.len() implies !meets(Criterion::Failed, #[trigger] snaps[j]) by {
        assert(!is_terminal_phase(snaps[j].state.phase));
    }
    assert forall|j: int| 0 <= j < snaps.len() implies !meets(Criterion::Terminal, #[trigger] snaps[j]) by {
        assert(!is_terminal_phase(snaps[j].state.phase));
    }
    assert forall|j: int| 0 <= j < snaps.len() implies !meets(Criterion::AnySuspicious, #[trigger] snaps[j]) by {
        assert(!has_suspicious(snaps[j].log_tails@));
    }
    assert forall|j: int| 0 <= j < snaps.len() implies !meets(Criterion::Overrun(now), #[trigger] snaps[j]) by {
        assert(overrun_at(snaps[j], now) is None);
    }
    lemma_none_listed(snaps, Criterion::Failed);
    lemma_none_listed(snaps, Criterion::Terminal);
    lemma_none_listed(snaps, Criterion::AnySuspicious);
    lemma_none_listed(snaps, Criterion::Overrun(now));
    assert(!meets(Criterion::Terminal, snaps[0]));
}

/// `[jobs] TARGET PREVIOUS → TOKEN (Mm elapsed)`.
pub open spec fn transition_text(target: Seq<char>, prev: Seq<char>, token: Seq<char>, minutes: nat) -> Seq<char> {
    "[jobs] "@ + target + " "@ + prev + " \u{2192} "@ + token + " ("@ + decimal(minutes) + "m elapsed)"@
}

/// The tokens after recording each snapshot's token in order, and the
/// transitions announced on the way (a token that differs from the one
/// recorded for the same job).
pub open spec fn token_pass(
    m: Map<Seq<char>, Seq<char>>,
    snaps: Seq<JobSnapshot>,
    minutes: nat,
) -> (Map<Seq<char>, Seq<char>>, Seq<Seq<char>>)
    decreases snaps.len(),
{
    if snaps.len() == 0 {
        (m, Seq::empty())
    } else {
        let (m1, msgs) = token_pass(m, snaps.drop_last(), minutes);
        let s = snaps.last();
        let key = target_display(s.record.target@);
        let tok = s.state@.token;
        let m2 = m1.insert(key, tok);
        if m1.contains_key(key) && m1[key] != tok {
            (m2, msgs.push(transition_text(key, m1[key], tok, minutes)))
        } else {
            (m2, msgs)
        }
    }
}

pub open spec fn budget_reason(budget_seconds: nat) -> Seq<char> {
    "wait budget of "@ + decimal(budget_seconds)
        + "s elapsed; jobs are still running \u{2014} call job_await again"@
}

/// One poll of a wait: the next poll interval, unknown streak and tokens,
/// the transitions to announce, and what to do. `elapsed` is the time
/// waited so far in nanoseconds; `interrupted` whether new input arrived.
/// A transition resets the interval to its start; a sleep is clamped to the
/// remaining budget and backs the interval off.
pub open spec fn await_stepped(
    poll: u128,
    unknown: u32,
    tokens: Map<Seq<char>, Seq<char>>,
    snaps: Seq<JobSnapshot>,
    elapsed: nat,
    budget_seconds: nat,
    interrupted: bool,
    now: i64,
) -> (u128, u32, Map<Seq<char>, Seq<char>>, Seq<Seq<char>>, AwaitActionView) {
    let unknown2 = if all_meet(snaps, Criterion::Unknown) {
        (unknown + 1) as u32
    } else {
        0u32
    };
    let (tokens2, msgs) = token_pass(tokens, snaps, elapsed / 60_000_000_000);
    let poll2 = if msgs.len() > 0 {
        INITIAL_POLL_INTERVAL_NANOS
    } else {
        poll
    };
    let reason = await_stop_reason(snaps, unknown2 as nat, now);
    let budget = budget_seconds * 1_000_000_000;
    if interrupted || reason is Some {
        (poll2, unknown2, tokens2, msgs, AwaitActionView::Stop(reason))
    } else if elapsed >= budget {
        (poll2, unknown2, tokens2, msgs, AwaitActionView::Stop(Some(budget_reason(budget_seconds))))
    } else {
        let left = (budget - elapsed) as nat;
        let sleep = if poll2 < left {
            poll2
        } else {
            left as u128
        };
        (backoff(poll2 as nat) as u128, unknown2, tokens2, msgs, AwaitActionView::Sleep(sleep))
    }
}

fn all_meet_exec(snaps: &[JobSnapshot], c: Criterion) -> (r: bool)
    ensures
        r == all_meet(snaps@, c),
{
    let mut i: usize = 0;
    while i < snaps.len()
        invariant
            i <= snaps@.len(),
            forall|j: int| 0 <= j < i ==> meets(c, #[trigger] snaps@[j]),
        decreases snaps@.len() - i,
    {
        if !meets_exec(c, &snaps[i]) {
            return false;
        }
        i = i + 1;
    }
    true
}

fn first_meeting_exec(snaps: &[JobSnapshot], c: Criterion) -> (r: Option<usize>)
    ensures
        match r {
            Some(i) => first_meeting(snaps@, c) == Some(i as int) && i < snaps@.len(),
            None => first_meeting(snaps@, c) is None,
        },
{
    let n = snaps.len();
    proof {
        lemma_indices_in_range(snaps@, c);
    }
    let idx = indices_meeting_exec(snaps, c);
    if idx.len() > 0 {
        Some(idx[0])
    } else {
        None
    }
}

fn overrun_reason_exec(s: &JobSnapshot, now: i64) -> (r: String)
    requires
        overrun_at(*s, now) is Some,
    ensures
        r@ == overrun_reason(*s, overrun_at(*s, now)->Some_0),
{
    let mut reason = s.record.target.display();
    push_str(&mut reason, " has been running ");
    match s.unreported_overrun_at(now) {
        Some(ratio) => push_ratio_wide(&mut reason, ratio.elapsed_millis as u128, 1000 * (ratio.expected_seconds as u128)),
        None => {},
    }
    push_str(&mut reason, "x its expected runtime; check for a hang");
    reason
}

/// Why a wait stops after a poll of `snapshots` at `now` (milliseconds since
/// the epoch), with `unknown` consecutive all-UNKNOWN polls so far.
pub fn await_stop(snapshots: &[JobSnapshot], unknown: u32, now: i64) -> (r: Option<String>)
    ensures
        crate::state::opt_view(r) == await_stop_reason(snapshots@, unknown as nat, now),
{
    let n = snapshots.len();
    let batch_mode = all_meet_exec(snapshots, Criterion::Batch);
    let terminal: Option<usize> = if batch_mode {
        match first_meeting_exec(snapshots, Criterion::Failed) {
            Some(i) => Some(i),
            None => {
                if n > 0 && all_meet_exec(snapshots, Criterion::Terminal) {
                    Some(0)
                } else {
                    None
                }
            },
        }
    } else {
        first_meeting_exec(snapshots, Criterion::Terminal)
    };
    match terminal {
        Some(i) => {
            if batch_mode && n > 1 && !(snapshots[i].state.phase == JobPhase::Failed) {
                let mut r = owned("all ");
                push_decimal(&mut r, n as u64);
                push_str(&mut r, " batch jobs reached terminal states");
                return Some(r);
            } else {
                return Some(terminal_reason_exec(&snapshots[i]));
            }
        },
        None => {},
    }
    match first_meeting_exec(snapshots, Criterion::AnySuspicious) {
        Some(i) => {
            let mut r = owned("suspicious log lines appeared for ");
            let t = snapshots[i].record.target.display();
            push_str(&mut r, t.as_str());
            return Some(r);
        },
        None => {},
    }
    match first_meeting_exec(snapshots, Criterion::Overrun(now)) {
        Some(i) => {
            proof {
                lemma_indices_in_range(snapshots@, Criterion::Overrun(now));
            }
            return Some(overrun_reason_exec(&snapshots[i], now));
        },
        None => {},
    }
    if unknown >= UNKNOWN_CONSECUTIVE_LIMIT {
        let mut r = owned("no usable scheduler answer ");
        push_decimal(&mut r, unknown as u64);
        push_str(
            &mut r,
            " polls in a row (sacct/squeue failing or timing out); check the scheduler, then job_await again",
        );
        Some(r)
    } else {
        None
    }
}

fn record_tokens(tokens: &mut TokenLog, snapshots: &[JobSnapshot], minutes: u128) -> (msgs: Vec<String>)
    requires
        old(tokens).wf(),
    ensures
        final(tokens).wf(),
        (final(tokens)@, crate::text::views(msgs@)) == token_pass(old(tokens)@, snapshots@, minutes as nat),
{
    let mut msgs: Vec<String> = Vec::new();
    let mut i: usize = 0;
    proof {
        assert(snapshots@.take(0) =~= Seq::<JobSnapshot>::empty());
        assert(crate::text::views(msgs@) =~= Seq::<Seq<char>>::empty());
    }
    while i < snapshots.len()
        invariant
            i <= snapshots@.len(),
            tokens.wf(),
            (tokens@, crate::text::views(msgs@)) == token_pass(old(tokens)@, snapshots@.take(i as int), minutes as nat),
        decreases snapshots@.len() - i,
    {
        proof {
            assert(snapshots@.take(i + 1).drop_last() =~= snapshots@.take(i as int));
            assert(snapshots@.take(i + 1).last() == snapshots@[i as int]);
        }
        let s = &snapshots[i];
        let target = s.record.target.display();
        let token = s.state.token.clone();
        let ghost before = tokens@;
        let prev = tokens.insert(target.clone(), token.clone());
        match prev {
            Some(p) => {
                if !same_text(p.as_str(), token.as_str()) {
                    let mut m = owned("[jobs] ");
                    push_str(&mut m, target.as_str());
                    push_str(&mut m, " ");
                    push_str(&mut m, p.as_str());
                    push_str(&mut m, " \u{2192} ");
                    push_str(&mut m, token.as_str());
                    push_str(&mut m, " (");
                    push_decimal_wide(&mut m, minutes);
                    push_str(&mut m, "m elapsed)");
                    let ghost mv = msgs@;
                    msgs.push(m);
                    proof {
                        assert(crate::text::views(msgs@) =~= crate::text::views(mv).push(msgs@.last()@));
                    }
                }
            },
            None => {},
        }
        i = i + 1;
    }
    proof {
        assert(snapshots@.take(i as int) =~= snapshots@);
    }
    msgs
}

/// Decides one poll of a wait. `elapsed` is the time waited so far and the
/// returned sleep is in nanoseconds; `budget_seconds` is the wait budget;
/// `interrupted` whether new input arrived; `now` is in milliseconds since
/// the epoch. Returns the transitions to announce and what to do.
pub fn await_step(
    state: &mut AwaitState,
    snapshots: &[JobSnapshot],
    elapsed: u128,
    budget_seconds: u64,
    interrupted: bool,
    now: i64,
) -> (r: (Vec<String>, AwaitAction))
    requires
        old(state).wf(),
        old(state).consecutive_unknown < u32::MAX,
    ensures
        (
            final(state).poll_interval,
            final(state).consecutive_unknown,
            final(state).last_tokens@,
            crate::text::views(r.0@),
            r.1@,
        ) == await_stepped(
            old(state).poll_interval,
            old(state).consecutive_unknown,
            old(state).last_tokens@,
            snapshots@,
            elapsed as nat,
            budget_seconds as nat,
            interrupted,
            now,
        ),
        final(state).wf(),
        r.1 is Sleep ==> final(state).consecutive_unknown < UNKNOWN_CONSECUTIVE_LIMIT,
{
    if all_meet_exec(snapshots, Criterion::Unknown) {
        state.consecutive_unknown = state.consecutive_unknown + 1;
    } else {
        state.consecutive_unknown = 0;
    }
    let msgs = record_tokens(&mut state.last_tokens, snapshots, elapsed / 60_000_000_000);
    if msgs.len() > 0 {
        state.poll_interval = INITIAL_POLL_INTERVAL_NANOS;
    }
    let reason = await_stop(snapshots, state.consecutive_unknown, now);
    let budget: u128 = (budget_seconds as u128) * 1_000_000_000;
    if interrupted || reason.is_some() {
        return (msgs, AwaitAction::Stop { reason });
    }
    if elapsed >= budget {
        let mut r = owned("wait budget of ");
        push_decimal(&mut r, budget_seconds);
        push_str(&mut r, "s elapsed; jobs are still running \u{2014} call job_await again");
        return (msgs, AwaitAction::Stop { reason: Some(r) });
    }
    let left = budget - elapsed;
    let sleep = if state.poll_interval < left {
        state.poll_interval
    } else {
        left
    };
    state.poll_interval = next_poll_interval(state.poll_interval);
    (msgs, AwaitAction::Sleep { nanos: sleep })
}


/// A wait never sleeps past its budget nor longer than the poll interval,
/// the interval stays within its ceiling, new input always stops the wait,
/// so does the [`UNKNOWN_CONSECUTIVE_LIMIT`]-th poll in a row without a
/// usable scheduler answer, and a poll that sees a state transition polls again at the initial
/// interval.
pub proof fn lemma_await_step_bounds(
    poll: u128,
    unknown: u32,
    tokens: Map<Seq<char>, Seq<char>>,
    snaps: Seq<JobSnapshot>,
    elapsed: nat,
    budget_seconds: nat,
    interrupted: bool,
    now: i64,
)
    requires
        poll <= MAX_POLL_INTERVAL_NANOS,
        unknown < u32::MAX,
        snaps.len() <= usize::MAX,
    ensures
        ({
            let (poll2, _, _, msgs, action) = await_stepped(
                poll,
                unknown,
                tokens,
                snaps,
                elapsed,
                budget_seconds,
                interrupted,
                now,
            );
            &&& poll2 <= MAX_POLL_INTERVAL_NANOS
            &&& interrupted ==> action is Stop
            &&& all_meet(snaps, Criterion::Unknown) && unknown + 1 >= UNKNOWN_CONSECUTIVE_LIMIT ==> action is Stop
            &&& action matches AwaitActionView::Sleep(n) ==> elapsed + n <= budget_seconds * 1_000_000_000
                && n <= (if msgs.len() > 0 {
                INITIAL_POLL_INTERVAL_NANOS
            } else {
                poll
            })
            &&& (msgs.len() > 0 && action is Sleep) ==> poll2 == backoff(INITIAL_POLL_INTERVAL_NANOS as nat)
        }),
{
    let (poll2, u2, t2, msgs, action) = await_stepped(
        poll,
        unknown,
        tokens,
        snaps,
        elapsed,
        budget_seconds,
        interrupted,
        now,
    );
    let p = if msgs.len() > 0 {
        INITIAL_POLL_INTERVAL_NANOS
    } else {
        poll
    };
    crate::polling::lemma_backoff_bounded(p as nat);
    lemma_indices_in_range(snaps, Criterion::Failed);
    lemma_indices_in_range(snaps, Criterion::Terminal);
    if all_meet(snaps, Criterion::Unknown) {
        let f = indices_meeting(snaps, Criterion::Failed);
        let t = indices_meeting(snaps, Criterion::Terminal);
        if f.len() > 0 {
            assert(meets(Criterion::Unknown, snaps[f[0] as int]));
        }
        if t.len() > 0 {
            assert(meets(Criterion::Unknown, snaps[t[0] as int]));
        }
        if snaps.len() > 0 {
            assert(meets(Criterion::Unknown, snaps[0]));
        }
    }
}


/// The sleeps of a wait in which no poll finds anything: each poll sleeps
/// the current interval cut to the budget left, then backs the interval
/// off, until the budget (in nanoseconds) is spent.
pub open spec fn quiet_sleeps(poll: nat, elapsed: nat, budget: nat) -> Seq<nat>
    decreases budget - elapsed,
{
    if poll == 0 || elapsed >= budget {
        Seq::empty()
    } else {
        let left = (budget - elapsed) as nat;
        let sleep = if poll < left {
            poll
        } else {
            left
        };
        seq![sleep] + quiet_sleeps(backoff(poll), elapsed + sleep, budget)
    }
}

pub open spec fn total(s: Seq<nat>) -> nat
    decreases s.len(),
{
    if s.len() == 0 {
        0
    } else {
        s[0] + total(s.drop_first())
    }
}

/// A poll finds nothing: no transition to announce and no reason to stop.
pub open spec fn quiet_poll(
    unknown: u32,
    tokens: Map<Seq<char>, Seq<char>>,
    snaps: Seq<JobSnapshot>,
    elapsed: nat,
    now: i64,
) -> bool {
    let unknown2 = if all_meet(snaps, Criterion::Unknown) {
        (unknown + 1) as u32
    } else {
        0u32
    };
    &&& token_pass(tokens, snaps, elapsed / 60_000_000_000).1.len() == 0
    &&& await_stop_reason(snaps, unknown2 as nat, now) is None
}

/// A quiet poll without new input sleeps the next of the quiet sleeps and
/// backs the interval off, or, once the budget is spent, stops with the
/// budget reason.
pub proof fn lemma_quiet_step(
    poll: u128,
    unknown: u32,
    tokens: Map<Seq<char>, Seq<char>>,
    snaps: Seq<JobSnapshot>,
    elapsed: nat,
    budget_seconds: nat,
    now: i64,
)
    requires
        0 < poll <= MAX_POLL_INTERVAL_NANOS,
        quiet_poll(unknown, tokens, snaps, elapsed, now),
    ensures
        ({
            let (poll2, _, _, msgs, action) = await_stepped(
                poll,
                unknown,
                tokens,
                snaps,
                elapsed,
                budget_seconds,
                false,
                now,
            );
            let budget = budget_seconds * 1_000_000_000;
            &&& msgs.len() == 0
            &&& elapsed >= budget ==> action == AwaitActionView::Stop(Some(budget_reason(budget_seconds)))
            &&& elapsed < budget ==> action == AwaitActionView::Sleep(
                quiet_sleeps(poll as nat, elapsed, budget)[0] as u128,
            ) && poll2 as nat == backoff(poll as nat)
        }),
{
    crate::polling::lemma_backoff_bounded(poll as nat);
}

/// A wait in which no poll finds anything and no input arrives sleeps, in
/// total, exactly its budget (counting polls as taking no time).
pub proof fn lemma_quiet_wait_sleeps_the_budget(poll: nat, elapsed: nat, budget: nat)
    requires
        0 < poll <= MAX_POLL_INTERVAL_NANOS,
        elapsed <= budget,
    ensures
        total(quiet_sleeps(poll, elapsed, budget)) == budget - elapsed,
    decreases budget - elapsed,
{
    if elapsed < budget {
        let left = (budget - elapsed) as nat;
        let sleep = if poll < left {
            poll
        } else {
            left
        };
        crate::polling::lemma_backoff_bounded(poll);
        lemma_quiet_wait_sleeps_the_budget(backoff(poll), elapsed + sleep, budget);
        let rest = quiet_sleeps(backoff(poll), elapsed + sleep, budget);
        assert((seq![sleep] + rest).drop_first() =~= rest);
    }
}

} // verus!
