//! SLURM job-state taxonomy and classification.
//!
//! A job (or a job array, or its steps) may report several states at once; a
//! failure state outranks an active state, which outranks completion.

use vstd::prelude::*;
use crate::text::{
    after, after_char, all_digits, before, before_char, copy_range, lines, lines_of, chars_eq, chars_of, compare_chars, decimal, first_word,
    first_word_chars, join, join_strings, lemma_lex_irreflexive, lemma_lex_total,
    lemma_lex_transitive, lex_lt, owned, push_chars, push_decimal, push_str, string_of, to_upper,
    trim, trim_chars, upper, views, TextOrder,
};
use crate::text::{
    is_ascii_lower, is_ws, lemma_first_index_is, lemma_trim_unchanged, trim_start, word_len,
    lemma_lower_before, lemma_lower_first_word, lemma_lower_trim, lemma_upper_lower, lower,
};

verus! {

broadcast use vstd::string::group_string_axioms;

/// Coarse classification of a monitored job.
#[derive(Debug, Clone, Copy, PartialEq, Eq, Structural)]
pub enum JobPhase {
    Active,
    Completed,
    Failed,
    /// The scheduler could not be queried or returned nothing usable.
    Unknown,
}

/// A normalized SLURM state token plus its coarse phase. For job arrays the
/// classifying token follows the usual precedence while `detail` carries the
/// per-task state counts (e.g. `7×RUNNING, 3×PENDING, 2×COMPLETED`).
#[derive(Debug, Clone, PartialEq, Eq)]
pub struct JobState {
    pub token: String,
    pub phase: JobPhase,
    pub detail: Option<String>,
}

/// The mathematical value of a [`JobState`].
pub struct JobStateView {
    pub token: Seq<char>,
    pub phase: JobPhase,
    pub detail: Option<Seq<char>>,
}

pub open spec fn opt_view(o: Option<String>) -> Option<Seq<char>> {
    match o {
        Some(s) => Some(s@),
        None => None,
    }
}

impl View for JobState {
    type V = JobStateView;

    open spec fn view(&self) -> JobStateView {
        JobStateView { token: self.token@, phase: self.phase, detail: opt_view(self.detail) }
    }
}

pub open spec fn state_view(token: Seq<char>, phase: JobPhase) -> JobStateView {
    JobStateView { token, phase, detail: None }
}

pub open spec fn unknown_state() -> JobStateView {
    state_view("UNKNOWN"@, JobPhase::Unknown)
}

pub open spec fn completed_state() -> JobStateView {
    state_view("COMPLETED"@, JobPhase::Completed)
}

pub open spec fn is_terminal_phase(p: JobPhase) -> bool {
    p == JobPhase::Completed || p == JobPhase::Failed
}

/// The token plus the array-task counts when present: `TOKEN (detail)`.
pub open spec fn display_state(s: JobStateView) -> Seq<char> {
    match s.detail {
        Some(d) => s.token + " ("@ + d + ")"@,
        None => s.token,
    }
}

/// A copy of an optional string.
pub fn copy_opt(o: &Option<String>) -> (r: Option<String>)
    ensures
        opt_view(r) == opt_view(*o),
{
    match o {
        Some(s) => Some(s.clone()),
        None => None,
    }
}

impl JobState {
    pub fn unknown() -> (r: Self)
        ensures
            r@ == unknown_state(),
    {
        JobState { token: owned("UNKNOWN"), phase: JobPhase::Unknown, detail: None }
    }

    pub fn completed() -> (r: Self)
        ensures
            r@ == completed_state(),
    {
        JobState { token: owned("COMPLETED"), phase: JobPhase::Completed, detail: None }
    }

    pub fn active(token: &str) -> (r: Self)
        ensures
            r@ == state_view(token@, JobPhase::Active),
    {
        JobState { token: owned(token), phase: JobPhase::Active, detail: None }
    }

    pub fn failed(token: &str) -> (r: Self)
        ensures
            r@ == state_view(token@, JobPhase::Failed),
    {
        JobState { token: owned(token), phase: JobPhase::Failed, detail: None }
    }

    pub fn is_terminal(&self) -> (r: bool)
        ensures
            r == is_terminal_phase(self.phase),
    {
        match self.phase {
            JobPhase::Completed | JobPhase::Failed => true,
            _ => false,
        }
    }

    /// The token plus the array-task counts when present.
    pub fn display(&self) -> (r: String)
        ensures
            r@ == display_state(self@),
    {
        let mut r = self.token.clone();
        match &self.detail {
            Some(detail) => {
                push_str(&mut r, " (");
                push_str(&mut r, detail.as_str());
                push_str(&mut r, ")");
            },
            None => {},
        }
        r
    }

    /// A copy with the same value.
    pub fn copy(&self) -> (r: Self)
        ensures
            r@ == self@,
    {
        JobState { token: self.token.clone(), phase: self.phase, detail: copy_opt(&self.detail) }
    }

    /// Whether two states have the same value.
    pub fn same_as(&self, other: &JobState) -> (r: bool)
        ensures
            r == (self@ == other@),
    {
        let tokens = self.token == other.token;
        let details = match (&self.detail, &other.detail) {
            (Some(a), Some(b)) => *a == *b,
            (None, None) => true,
            _ => false,
        };
        tokens && self.phase == other.phase && details
    }
}

// ---------------------------------------------------------------------------
// The state tables.
// ---------------------------------------------------------------------------

pub open spec fn failure_states() -> Seq<Seq<char>> {
    seq![
        "FAILED"@,
        "CANCELLED"@,
        "TIMEOUT"@,
        "NODE_FAIL"@,
        "OUT_OF_MEMORY"@,
        "PREEMPTED"@,
        "BOOT_FAIL"@,
        "DEADLINE"@,
        "REVOKED"@,
        "SPECIAL_EXIT"@,
        "STOPPED"@,
    ]
}

pub open spec fn active_states() -> Seq<Seq<char>> {
    seq![
        "PENDING"@,
        "CONFIGURING"@,
        "RUNNING"@,
        "COMPLETING"@,
        "RESIZING"@,
        "SUSPENDED"@,
        "SIGNALING"@,
        "STAGE_OUT"@,
        "REQUEUED"@,
        "REQUEUE_FED"@,
        "REQUEUE_HOLD"@,
        "RESV_DEL_HOLD"@,
        "POWER_UP_NODE"@,
    ]
}

/// squeue/sacct short codes mapped to canonical state names.
pub open spec fn state_aliases() -> Seq<(Seq<char>, Seq<char>)> {
    seq![
        ("BF"@, "BOOT_FAIL"@),
        ("CA"@, "CANCELLED"@),
        ("CANCELED"@, "CANCELLED"@),
        ("CD"@, "COMPLETED"@),
        ("CF"@, "CONFIGURING"@),
        ("CG"@, "COMPLETING"@),
        ("DL"@, "DEADLINE"@),
        ("F"@, "FAILED"@),
        ("NF"@, "NODE_FAIL"@),
        ("OOM"@, "OUT_OF_MEMORY"@),
        ("PD"@, "PENDING"@),
        ("PR"@, "PREEMPTED"@),
        ("R"@, "RUNNING"@),
        ("RD"@, "RESV_DEL_HOLD"@),
        ("RF"@, "REQUEUE_FED"@),
        ("RH"@, "REQUEUE_HOLD"@),
        ("RQ"@, "REQUEUED"@),
        ("RS"@, "RESIZING"@),
        ("RV"@, "REVOKED"@),
        ("SE"@, "SPECIAL_EXIT"@),
        ("SI"@, "SIGNALING"@),
        ("SO"@, "STAGE_OUT"@),
        ("ST"@, "STOPPED"@),
        ("S"@, "SUSPENDED"@),
        ("TO"@, "TIMEOUT"@),
    ]
}

fn failure_state_table() -> (r: Vec<&'static str>)
    ensures
        r@.map_values(|s: &str| s@) == failure_states(),
{
    let r = vec![
        "FAILED",
        "CANCELLED",
        "TIMEOUT",
        "NODE_FAIL",
        "OUT_OF_MEMORY",
        "PREEMPTED",
        "BOOT_FAIL",
        "DEADLINE",
        "REVOKED",
        "SPECIAL_EXIT",
        "STOPPED",
    ];
    assert(r@.map_values(|s: &str| s@) =~= failure_states());
    r
}

fn active_state_table() -> (r: Vec<&'static str>)
    ensures
        r@.map_values(|s: &str| s@) == active_states(),
{
    let r = vec![
        "PENDING",
        "CONFIGURING",
        "RUNNING",
        "COMPLETING",
        "RESIZING",
        "SUSPENDED",
        "SIGNALING",
        "STAGE_OUT",
        "REQUEUED",
        "REQUEUE_FED",
        "REQUEUE_HOLD",
        "RESV_DEL_HOLD",
        "POWER_UP_NODE",
    ];
    assert(r@.map_values(|s: &str| s@) =~= active_states());
    r
}

fn alias_table() -> (r: Vec<(&'static str, &'static str)>)
    ensures
        r@.map_values(|p: (&str, &str)| (p.0@, p.1@)) == state_aliases(),
{
    let r = vec![
        ("BF", "BOOT_FAIL"),
        ("CA", "CANCELLED"),
        ("CANCELED", "CANCELLED"),
        ("CD", "COMPLETED"),
        ("CF", "CONFIGURING"),
        ("CG", "COMPLETING"),
        ("DL", "DEADLINE"),
        ("F", "FAILED"),
        ("NF", "NODE_FAIL"),
        ("OOM", "OUT_OF_MEMORY"),
        ("PD", "PENDING"),
        ("PR", "PREEMPTED"),
        ("R", "RUNNING"),
        ("RD", "RESV_DEL_HOLD"),
        ("RF", "REQUEUE_FED"),
        ("RH", "REQUEUE_HOLD"),
        ("RQ", "REQUEUED"),
        ("RS", "RESIZING"),
        ("RV", "REVOKED"),
        ("SE", "SPECIAL_EXIT"),
        ("SI", "SIGNALING"),
        ("SO", "STAGE_OUT"),
        ("ST", "STOPPED"),
        ("S", "SUSPENDED"),
        ("TO", "TIMEOUT"),
    ];
    assert(r@.map_values(|p: (&str, &str)| (p.0@, p.1@)) =~= state_aliases());
    r
}

/// Whether `t` is one of `table`.
fn in_table(table: &Vec<&'static str>, t: &[char]) -> (r: bool)
    ensures
        r == table@.map_values(|s: &str| s@).contains(t@),
{
    let ghost views = table@.map_values(|s: &str| s@);
    let mut i: usize = 0;
    while i < table.len()
        invariant
            i <= table@.len(),
            views == table@.map_values(|s: &str| s@),
            forall|j: int| 0 <= j < i ==> views[j] != t@,
        decreases table@.len() - i,
    {
        let candidate = chars_of(table[i]);
        if chars_eq(candidate.as_slice(), t) {
            assert(views[i as int] == t@);
            return true;
        }
        i = i + 1;
    }
    false
}

pub open spec fn is_failure_state(t: Seq<char>) -> bool {
    failure_states().contains(t)
}

pub open spec fn is_active_state(t: Seq<char>) -> bool {
    active_states().contains(t)
}

pub open spec fn is_known_state(t: Seq<char>) -> bool {
    t == "COMPLETED"@ || is_failure_state(t) || is_active_state(t)
}

/// The canonical name for `t`: the target of the first alias entry named
/// `t`, or `t` itself.
pub open spec fn alias_lookup(table: Seq<(Seq<char>, Seq<char>)>, t: Seq<char>) -> Seq<char>
    decreases table.len(),
{
    if table.len() == 0 {
        t
    } else if table[0].0 == t {
        table[0].1
    } else {
        alias_lookup(table.drop_first(), t)
    }
}

pub open spec fn canonical_state(t: Seq<char>) -> Seq<char> {
    alias_lookup(state_aliases(), t)
}

fn canonical_chars(t: Vec<char>) -> (r: Vec<char>)
    ensures
        r@ == canonical_state(t@),
{
    let table = alias_table();
    let ghost views = table@.map_values(|p: (&str, &str)| (p.0@, p.1@));
    let mut i: usize = 0;
    proof {
        assert(views.skip(0) =~= views);
    }
    while i < table.len()
        invariant
            i <= table@.len(),
            views == table@.map_values(|p: (&str, &str)| (p.0@, p.1@)),
            views == state_aliases(),
            alias_lookup(views, t@) == alias_lookup(views.skip(i as int), t@),
        decreases table@.len() - i,
    {
        let (alias, name) = table[i];
        let a = chars_of(alias);
        proof {
            assert(views.skip(i as int)[0] == views[i as int]);
            assert(views.skip(i as int).drop_first() =~= views.skip(i + 1));
        }
        if chars_eq(a.as_slice(), t.as_slice()) {
            return chars_of(name);
        }
        i = i + 1;
    }
    proof {
        assert(views.skip(i as int).len() == 0);
    }
    t
}

/// The canonical state name of one raw scheduler token (`CANCELLED+`, `PD`,
/// `RUNNING|...`): the first word before any `|` or `+`, upper-cased and
/// de-aliased; `None` when it is empty or not a known state.
pub open spec fn normalized_state(raw: Seq<char>) -> Option<Seq<char>> {
    let t = first_word(trim(before(trim(before(trim(raw), '|')), '+')));
    if t.len() == 0 {
        None
    } else {
        let name = canonical_state(upper(t));
        if is_known_state(name) {
            Some(name)
        } else {
            None
        }
    }
}

/// Whether `c` may appear in a canonical state name.
pub open spec fn state_name_char(c: char) -> bool {
    ('A' <= c <= 'Z') || c == '_'
}

/// Every canonical state name is a run of capital letters and `_`, at least
/// six long, and differs from every alias.
proof fn lemma_known_state_names(t: Seq<char>)
    requires
        is_known_state(t),
    ensures
        forall|i: int| 0 <= i < t.len() ==> state_name_char(#[trigger] t[i]),
        t.len() >= 6,
        forall|k: int| 0 <= k < state_aliases().len() ==> (#[trigger] state_aliases()[k]).0 != t,
{
    reveal_strlit("COMPLETED");
    reveal_strlit("FAILED");
    reveal_strlit("CANCELLED");
    reveal_strlit("TIMEOUT");
    reveal_strlit("NODE_FAIL");
    reveal_strlit("OUT_OF_MEMORY");
    reveal_strlit("PREEMPTED");
    reveal_strlit("BOOT_FAIL");
    reveal_strlit("DEADLINE");
    reveal_strlit("REVOKED");
    reveal_strlit("SPECIAL_EXIT");
    reveal_strlit("STOPPED");
    reveal_strlit("PENDING");
    reveal_strlit("CONFIGURING");
    reveal_strlit("RUNNING");
    reveal_strlit("COMPLETING");
    reveal_strlit("RESIZING");
    reveal_strlit("SUSPENDED");
    reveal_strlit("SIGNALING");
    reveal_strlit("STAGE_OUT");
    reveal_strlit("REQUEUED");
    reveal_strlit("REQUEUE_FED");
    reveal_strlit("REQUEUE_HOLD");
    reveal_strlit("RESV_DEL_HOLD");
    reveal_strlit("POWER_UP_NODE");
    reveal_strlit("BF");
    reveal_strlit("CA");
    reveal_strlit("CANCELED");
    reveal_strlit("CD");
    reveal_strlit("CF");
    reveal_strlit("CG");
    reveal_strlit("DL");
    reveal_strlit("F");
    reveal_strlit("NF");
    reveal_strlit("OOM");
    reveal_strlit("PD");
    reveal_strlit("PR");
    reveal_strlit("R");
    reveal_strlit("RD");
    reveal_strlit("RF");
    reveal_strlit("RH");
    reveal_strlit("RQ");
    reveal_strlit("RS");
    reveal_strlit("RV");
    reveal_strlit("SE");
    reveal_strlit("SI");
    reveal_strlit("SO");
    reveal_strlit("ST");
    reveal_strlit("S");
    reveal_strlit("TO");
    assert forall|i: int| 0 <= i < "COMPLETED"@.len() implies state_name_char(#[trigger] "COMPLETED"@[i]) by {
        assert(i == 0 || i == 1 || i == 2 || i == 3 || i == 4 || i == 5 || i == 6 || i == 7 || i == 8);
    }
    assert forall|i: int| 0 <= i < "FAILED"@.len() implies state_name_char(#[trigger] "FAILED"@[i]) by {
        assert(i == 0 || i == 1 || i == 2 || i == 3 || i == 4 || i == 5);
    }
    assert forall|i: int| 0 <= i < "CANCELLED"@.len() implies state_name_char(#[trigger] "CANCELLED"@[i]) by {
        assert(i == 0 || i == 1 || i == 2 || i == 3 || i == 4 || i == 5 || i == 6 || i == 7 || i == 8);
    }
    assert forall|i: int| 0 <= i < "TIMEOUT"@.len() implies state_name_char(#[trigger] "TIMEOUT"@[i]) by {
        assert(i == 0 || i == 1 || i == 2 || i == 3 || i == 4 || i == 5 || i == 6);
    }
    assert forall|i: int| 0 <= i < "NODE_FAIL"@.len() implies state_name_char(#[trigger] "NODE_FAIL"@[i]) by {
        assert(i == 0 || i == 1 || i == 2 || i == 3 || i == 4 || i == 5 || i == 6 || i == 7 || i == 8);
    }
    assert forall|i: int| 0 <= i < "OUT_OF_MEMORY"@.len() implies state_name_char(#[trigger] "OUT_OF_MEMORY"@[i]) by {
        assert(i == 0 || i == 1 || i == 2 || i == 3 || i == 4 || i == 5 || i == 6 || i == 7 || i == 8 || i == 9 || i == 10 || i == 11 || i == 12);
    }
    assert forall|i: int| 0 <= i < "PREEMPTED"@.len() implies state_name_char(#[trigger] "PREEMPTED"@[i]) by {
        assert(i == 0 || i == 1 || i == 2 || i == 3 || i == 4 || i == 5 || i == 6 || i == 7 || i == 8);
    }
    assert forall|i: int| 0 <= i < "BOOT_FAIL"@.len() implies state_name_char(#[trigger] "BOOT_FAIL"@[i]) by {
        assert(i == 0 || i == 1 || i == 2 || i == 3 || i == 4 || i == 5 || i == 6 || i == 7 || i == 8);
    }
    assert forall|i: int| 0 <= i < "DEADLINE"@.len() implies state_name_char(#[trigger] "DEADLINE"@[i]) by {
        assert(i == 0 || i == 1 || i == 2 || i == 3 || i == 4 || i == 5 || i == 6 || i == 7);
    }
    assert forall|i: int| 0 <= i < "REVOKED"@.len() implies state_name_char(#[trigger] "REVOKED"@[i]) by {
        assert(i == 0 || i == 1 || i == 2 || i == 3 || i == 4 || i == 5 || i == 6);
    }
    assert forall|i: int| 0 <= i < "SPECIAL_EXIT"@.len() implies state_name_char(#[trigger] "SPECIAL_EXIT"@[i]) by {
        assert(i == 0 || i == 1 || i == 2 || i == 3 || i == 4 || i == 5 || i == 6 || i == 7 || i == 8 || i == 9 || i == 10 || i == 11);
    }
    assert forall|i: int| 0 <= i < "STOPPED"@.len() implies state_name_char(#[trigger] "STOPPED"@[i]) by {
        assert(i == 0 || i == 1 || i == 2 || i == 3 || i == 4 || i == 5 || i == 6);
    }
    assert forall|i: int| 0 <= i < "PENDING"@.len() implies state_name_char(#[trigger] "PENDING"@[i]) by {
        assert(i == 0 || i == 1 || i == 2 || i == 3 || i == 4 || i == 5 || i == 6);
    }
    assert forall|i: int| 0 <= i < "CONFIGURING"@.len() implies state_name_char(#[trigger] "CONFIGURING"@[i]) by {
        assert(i == 0 || i == 1 || i == 2 || i == 3 || i == 4 || i == 5 || i == 6 || i == 7 || i == 8 || i == 9 || i == 10);
    }
    assert forall|i: int| 0 <= i < "RUNNING"@.len() implies state_name_char(#[trigger] "RUNNING"@[i]) by {
        assert(i == 0 || i == 1 || i == 2 || i == 3 || i == 4 || i == 5 || i == 6);
    }
    assert forall|i: int| 0 <= i < "COMPLETING"@.len() implies state_name_char(#[trigger] "COMPLETING"@[i]) by {
        assert(i == 0 || i == 1 || i == 2 || i == 3 || i == 4 || i == 5 || i == 6 || i == 7 || i == 8 || i == 9);
    }
    assert forall|i: int| 0 <= i < "RESIZING"@.len() implies state_name_char(#[trigger] "RESIZING"@[i]) by {
        assert(i == 0 || i == 1 || i == 2 || i == 3 || i == 4 || i == 5 || i == 6 || i == 7);
    }
    assert forall|i: int| 0 <= i < "SUSPENDED"@.len() implies state_name_char(#[trigger] "SUSPENDED"@[i]) by {
        assert(i == 0 || i == 1 || i == 2 || i == 3 || i == 4 || i == 5 || i == 6 || i == 7 || i == 8);
    }
    assert forall|i: int| 0 <= i < "SIGNALING"@.len() implies state_name_char(#[trigger] "SIGNALING"@[i]) by {
        assert(i == 0 || i == 1 || i == 2 || i == 3 || i == 4 || i == 5 || i == 6 || i == 7 || i == 8);
    }
    assert forall|i: int| 0 <= i < "STAGE_OUT"@.len() implies state_name_char(#[trigger] "STAGE_OUT"@[i]) by {
        assert(i == 0 || i == 1 || i == 2 || i == 3 || i == 4 || i == 5 || i == 6 || i == 7 || i == 8);
    }
    assert forall|i: int| 0 <= i < "REQUEUED"@.len() implies state_name_char(#[trigger] "REQUEUED"@[i]) by {
        assert(i == 0 || i == 1 || i == 2 || i == 3 || i == 4 || i == 5 || i == 6 || i == 7);
    }
    assert forall|i: int| 0 <= i < "REQUEUE_FED"@.len() implies state_name_char(#[trigger] "REQUEUE_FED"@[i]) by {
        assert(i == 0 || i == 1 || i == 2 || i == 3 || i == 4 || i == 5 || i == 6 || i == 7 || i == 8 || i == 9 || i == 10);
    }
    assert forall|i: int| 0 <= i < "REQUEUE_HOLD"@.len() implies state_name_char(#[trigger] "REQUEUE_HOLD"@[i]) by {
        assert(i == 0 || i == 1 || i == 2 || i == 3 || i == 4 || i == 5 || i == 6 || i == 7 || i == 8 || i == 9 || i == 10 || i == 11);
    }
    assert forall|i: int| 0 <= i < "RESV_DEL_HOLD"@.len() implies state_name_char(#[trigger] "RESV_DEL_HOLD"@[i]) by {
        assert(i == 0 || i == 1 || i == 2 || i == 3 || i == 4 || i == 5 || i == 6 || i == 7 || i == 8 || i == 9 || i == 10 || i == 11 || i == 12);
    }
    assert forall|i: int| 0 <= i < "POWER_UP_NODE"@.len() implies state_name_char(#[trigger] "POWER_UP_NODE"@[i]) by {
        assert(i == 0 || i == 1 || i == 2 || i == 3 || i == 4 || i == 5 || i == 6 || i == 7 || i == 8 || i == 9 || i == 10 || i == 11 || i == 12);
    }
    assert forall|k: int| 0 <= k < state_aliases().len() implies (#[trigger] state_aliases()[k]).0.len() <= 3
        || state_aliases()[k].0 == "CANCELED"@ by {
        assert(k == 0 || k == 1 || k == 2 || k == 3 || k == 4 || k == 5 || k == 6 || k == 7 || k == 8 || k == 9 || k == 10 || k == 11 || k == 12 || k == 13 || k == 14 || k == 15 || k == 16 || k == 17 || k == 18 || k == 19 || k == 20 || k == 21 || k == 22 || k == 23 || k == 24);
    }
    assert("DEADLINE"@[0] != "CANCELED"@[0]);
    assert("RESIZING"@[0] != "CANCELED"@[0]);
    assert("REQUEUED"@[0] != "CANCELED"@[0]);
    if failure_states().contains(t) {
        let i = choose|i: int| 0 <= i < failure_states().len() && failure_states()[i] == t;
        assert(i == 0 || i == 1 || i == 2 || i == 3 || i == 4 || i == 5 || i == 6 || i == 7 || i == 8 || i == 9 || i == 10);
    }
    if active_states().contains(t) {
        let i = choose|i: int| 0 <= i < active_states().len() && active_states()[i] == t;
        assert(i == 0 || i == 1 || i == 2 || i == 3 || i == 4 || i == 5 || i == 6 || i == 7 || i == 8 || i == 9 || i == 10 || i == 11 || i == 12);
    }
}

proof fn lemma_alias_lookup_absent(table: Seq<(Seq<char>, Seq<char>)>, t: Seq<char>)
    requires
        forall|k: int| 0 <= k < table.len() ==> (#[trigger] table[k]).0 != t,
    ensures
        alias_lookup(table, t) == t,
    decreases table.len(),
{
    if table.len() > 0 {
        let rest = table.drop_first();
        assert forall|k: int| 0 <= k < rest.len() implies (#[trigger] rest[k]).0 != t by {
            assert(rest[k] == table[k + 1]);
        }
        assert(table[0].0 != t);
        lemma_alias_lookup_absent(rest, t);
    }
}

proof fn lemma_word_len_all(s: Seq<char>)
    requires
        forall|i: int| 0 <= i < s.len() ==> !is_ws(#[trigger] s[i]),
    ensures
        word_len(s) == s.len(),
    decreases s.len(),
{
    if s.len() > 0 {
        assert(!is_ws(s[0]));
        let rest = s.drop_first();
        assert forall|i: int| 0 <= i < rest.len() implies !is_ws(#[trigger] rest[i]) by {
            assert(rest[i] == s[i + 1]);
        }
        lemma_word_len_all(rest);
    }
}

/// Normalization yields only canonical state names, and normalizing a
/// canonical name gives it back, so normalizing twice is normalizing once.
pub proof fn lemma_normalized_is_idempotent(raw: Seq<char>)
    ensures
        normalized_state(raw) matches Some(t) ==> is_known_state(t) && normalized_state(t) == Some(t),
{
    if normalized_state(raw) is Some {
        let t = normalized_state(raw)->Some_0;
        lemma_known_state_names(t);
        assert forall|i: int| 0 <= i < t.len() implies !is_ws(#[trigger] t[i]) && t[i] != '|' && t[i] != '+'
            && !is_ascii_lower(t[i]) by {
            assert(state_name_char(t[i]));
        }
        assert(!is_ws(t[0]) && !is_ws(t.last()));
        lemma_trim_unchanged(t);
        lemma_first_index_is(t, '|', -1);
        lemma_first_index_is(t, '+', -1);
        assert(trim_start(t) == t);
        lemma_word_len_all(t);
        assert(t.take(t.len() as int) =~= t);
        assert(first_word(t) == t);
        assert(upper(t) =~= t);
        lemma_alias_lookup_absent(state_aliases(), t);
    }
}

/// Normalization ignores letter case: a token and its lower-cased form
/// normalize alike.
pub proof fn lemma_normalized_ignores_case(raw: Seq<char>)
    ensures
        normalized_state(lower(raw)) == normalized_state(raw),
{
    lemma_lower_trim(raw);
    let a = trim(raw);
    lemma_lower_before(a, '|');
    let b = before(a, '|');
    lemma_lower_trim(b);
    let c = trim(b);
    lemma_lower_before(c, '+');
    let d = before(c, '+');
    lemma_lower_trim(d);
    let e = trim(d);
    lemma_lower_first_word(e);
    let w = first_word(e);
    lemma_upper_lower(w);
}

fn known_state_chars(t: &[char]) -> (r: bool)
    ensures
        r == is_known_state(t@),
{
    let completed = chars_of("COMPLETED");
    if chars_eq(t, completed.as_slice()) {
        return true;
    }
    in_table(&failure_state_table(), t) || in_table(&active_state_table(), t)
}

/// `normalized_state` over characters.
pub fn normalize_state_chars(raw: &[char]) -> (r: Option<Vec<char>>)
    ensures
        match r {
            Some(v) => normalized_state(raw@) == Some(v@),
            None => normalized_state(raw@) is None,
        },
{
    let t1 = trim_chars(raw);
    let t2 = trim_chars(before_char(t1.as_slice(), '|').as_slice());
    let t3 = trim_chars(before_char(t2.as_slice(), '+').as_slice());
    let t4 = first_word_chars(t3.as_slice());
    if t4.len() == 0 {
        return None;
    }
    let name = canonical_chars(to_upper(t4.as_slice()));
    if known_state_chars(name.as_slice()) {
        Some(name)
    } else {
        None
    }
}

/// Normalizes one raw scheduler token (`CANCELLED+`, `PD`, `RUNNING|...`) to a
/// canonical state name, or `None` when the token is not a known state.
pub fn normalize_state_token(raw: &str) -> (r: Option<String>)
    ensures
        opt_view(r) == normalized_state(raw@),
{
    let v = chars_of(raw);
    match normalize_state_chars(v.as_slice()) {
        Some(name) => Some(string_of(name.as_slice())),
        None => None,
    }
}


// ---------------------------------------------------------------------------
// Classification.
// ---------------------------------------------------------------------------

/// The first of `states` that is one of `table`.
pub open spec fn first_member(states: Seq<Seq<char>>, table: Seq<Seq<char>>) -> Option<Seq<char>>
    decreases states.len(),
{
    if states.len() == 0 {
        None
    } else if table.contains(states[0]) {
        Some(states[0])
    } else {
        first_member(states.drop_first(), table)
    }
}

/// Token and phase of a set of states: the first failure state, else the
/// first active state, else `COMPLETED` if any state is completed, else
/// unknown.
pub open spec fn precedence_state(states: Seq<Seq<char>>) -> JobStateView {
    match first_member(states, failure_states()) {
        Some(t) => state_view(t, JobPhase::Failed),
        None => match first_member(states, active_states()) {
            Some(t) => state_view(t, JobPhase::Active),
            None => if states.contains("COMPLETED"@) {
                completed_state()
            } else {
                unknown_state()
            },
        },
    }
}

proof fn lemma_first_member(states: Seq<Seq<char>>, table: Seq<Seq<char>>)
    ensures
        first_member(states, table) is Some <==> exists|i: int| 0 <= i < states.len() && table.contains(#[trigger] states[i]),
        first_member(states, table) matches Some(t) ==> table.contains(t) && states.contains(t),
    decreases states.len(),
{
    if states.len() > 0 {
        lemma_first_member(states.drop_first(), table);
        if first_member(states.drop_first(), table) is Some {
            let i = choose|i: int| 0 <= i < states.drop_first().len() && table.contains(#[trigger] states.drop_first()[i]);
            assert(states[i + 1] == states.drop_first()[i]);
        }
        if exists|i: int| 0 <= i < states.len() && table.contains(#[trigger] states[i]) {
            let i = choose|i: int| 0 <= i < states.len() && table.contains(#[trigger] states[i]);
            if i > 0 {
                assert(states.drop_first()[i - 1] == states[i]);
            }
        }
        if first_member(states, table) is Some {
            let t = first_member(states, table)->Some_0;
            if !table.contains(states[0]) {
                let j = choose|j: int| 0 <= j < states.drop_first().len() && states.drop_first()[j] == t;
                assert(states[j + 1] == t);
            } else {
                assert(states[0] == t);
            }
        }
    }
}

/// Failure outranks active outranks completed: a set of states is failed
/// if any state is a failure, else active if any is active, else completed
/// if any is `COMPLETED`, else unknown; the token is then one of the states.
pub proof fn lemma_classified_precedence(states: Seq<Seq<char>>)
    ensures
        (exists|i: int| 0 <= i < states.len() && is_failure_state(#[trigger] states[i])) ==> classified(states).phase
            == JobPhase::Failed,
        (forall|i: int| 0 <= i < states.len() ==> !is_failure_state(#[trigger] states[i])) && (exists|i: int|
            0 <= i < states.len() && is_active_state(#[trigger] states[i])) ==> classified(states).phase
            == JobPhase::Active,
        (forall|i: int| 0 <= i < states.len() ==> !is_failure_state(#[trigger] states[i]) && !is_active_state(
            states[i],
        )) && states.contains("COMPLETED"@) ==> classified(states).phase == JobPhase::Completed,
        (forall|i: int| 0 <= i < states.len() ==> !is_known_state(#[trigger] states[i])) ==> classified(states).phase
            == JobPhase::Unknown,
        classified(states).phase != JobPhase::Unknown ==> states.contains(classified(states).token),
{
    lemma_first_member(states, failure_states());
    lemma_first_member(states, active_states());
    if forall|i: int| 0 <= i < states.len() ==> !is_known_state(#[trigger] states[i]) {
        if states.contains("COMPLETED"@) {
            let j = choose|j: int| 0 <= j < states.len() && states[j] == "COMPLETED"@;
            assert(is_known_state(states[j]));
        }
    }
}

/// How many of `states` equal `k`.
pub open spec fn count_of(states: Seq<Seq<char>>, k: Seq<char>) -> nat
    decreases states.len(),
{
    if states.len() == 0 {
        0
    } else {
        count_of(states.drop_last(), k) + if states.last() == k {
            1nat
        } else {
            0nat
        }
    }
}

pub open spec fn strictly_sorted(keys: Seq<Seq<char>>) -> bool {
    forall|i: int, j: int| 0 <= i < j < keys.len() ==> lex_lt(#[trigger] keys[i], #[trigger] keys[j])
}

/// `keys` lists the distinct values of `states` in increasing order.
pub open spec fn are_sorted_keys(keys: Seq<Seq<char>>, states: Seq<Seq<char>>) -> bool {
    &&& strictly_sorted(keys)
    &&& forall|x: Seq<char>| #[trigger] keys.contains(x) <==> states.contains(x)
}

/// The distinct values of `states` in increasing order.
pub open spec fn sorted_keys(states: Seq<Seq<char>>) -> Seq<Seq<char>> {
    choose|keys: Seq<Seq<char>>| are_sorted_keys(keys, states)
}

/// `COUNT×STATE`.
pub open spec fn count_entry(states: Seq<Seq<char>>, k: Seq<char>) -> Seq<char> {
    decimal(count_of(states, k)) + seq!['\u{d7}'] + k
}

/// `7×RUNNING, 3×PENDING` for multi-state (array) observations, by state
/// name order; `None` for zero or one state.
pub open spec fn counts_detail(states: Seq<Seq<char>>) -> Option<Seq<char>> {
    if states.len() < 2 {
        None
    } else {
        Some(join(sorted_keys(states).map_values(|k: Seq<char>| count_entry(states, k)), ", "@))
    }
}

/// One job state for a set of per-step states, with the counts detail.
pub open spec fn classified(states: Seq<Seq<char>>) -> JobStateView {
    let base = precedence_state(states);
    JobStateView { token: base.token, phase: base.phase, detail: counts_detail(states) }
}

/// The classification of a set of states, as documented: the first failure
/// state in input order, failed; else the first active state, active; else
/// `COMPLETED` when some state is completed; else unknown. The counts
/// detail is absent for fewer than two states and otherwise lists
/// `COUNT×STATE` for each distinct state in ascending state order, joined by
/// `, `.
pub proof fn lemma_classify_states_law(states: Seq<Seq<char>>, keys: Seq<Seq<char>>)
    ensures
        forall|i: int|
            0 <= i < states.len() && is_failure_state(#[trigger] states[i]) && (forall|j: int|
                0 <= j < i ==> !is_failure_state(states[j])) ==> classified(states).token == states[i]
                && classified(states).phase == JobPhase::Failed,
        forall|i: int|
            0 <= i < states.len() && is_active_state(#[trigger] states[i]) && (forall|j: int|
                0 <= j < states.len() ==> !is_failure_state(states[j])) && (forall|j: int|
                0 <= j < i ==> !is_active_state(states[j])) ==> classified(states).token == states[i]
                && classified(states).phase == JobPhase::Active,
        (forall|j: int| 0 <= j < states.len() ==> !is_failure_state(#[trigger] states[j]) && !is_active_state(
            states[j],
        )) ==> if states.contains("COMPLETED"@) {
            classified(states).token == "COMPLETED"@ && classified(states).phase == JobPhase::Completed
        } else {
            classified(states).token == "UNKNOWN"@ && classified(states).phase == JobPhase::Unknown
        },
        (classified(states).detail is None) <==> states.len() < 2,
        states.len() >= 2 && are_sorted_keys(keys, states) ==> classified(states).detail == Some(
            join(keys.map_values(|k: Seq<char>| count_entry(states, k)), ", "@),
        ),
{
    lemma_first_member_is_first(states, failure_states());
    lemma_first_member_is_first(states, active_states());
    lemma_first_member(states, failure_states());
    lemma_first_member(states, active_states());
    if states.len() >= 2 && are_sorted_keys(keys, states) {
        let chosen = sorted_keys(states);
        assert(are_sorted_keys(chosen, states));
        lemma_sorted_unique(chosen, keys);
    }
}

/// The first member is the element at the first index whose element is in
/// the table.
proof fn lemma_first_member_is_first(states: Seq<Seq<char>>, table: Seq<Seq<char>>)
    ensures
        forall|i: int|
            0 <= i < states.len() && table.contains(#[trigger] states[i]) && (forall|j: int|
                0 <= j < i ==> !table.contains(states[j])) ==> first_member(states, table) == Some(states[i]),
    decreases states.len(),
{
    if states.len() > 0 {
        lemma_first_member_is_first(states.drop_first(), table);
        assert forall|i: int|
            0 <= i < states.len() && table.contains(#[trigger] states[i]) && (forall|j: int|
                0 <= j < i ==> !table.contains(states[j])) implies first_member(states, table) == Some(states[i]) by {
            if i > 0 {
                assert(!table.contains(states[0]));
                let rest = states.drop_first();
                assert(rest[i - 1] == states[i]);
                assert forall|j: int| 0 <= j < i - 1 implies !table.contains(rest[j]) by {
                    assert(rest[j] == states[j + 1]);
                }
            }
        }
    }
}

proof fn lemma_count_push(s: Seq<Seq<char>>, x: Seq<char>, k: Seq<char>)
    ensures
        count_of(s.push(x), k) == count_of(s, k) + if x == k {
            1nat
        } else {
            0nat
        },
{
    assert(s.push(x).drop_last() =~= s);
}

proof fn lemma_count_absent(s: Seq<Seq<char>>, k: Seq<char>)
    requires
        !s.contains(k),
    ensures
        count_of(s, k) == 0,
    decreases s.len(),
{
    if s.len() > 0 {
        assert(s.drop_last().contains(k) ==> s.contains(k)) by {
            if s.drop_last().contains(k) {
                let j = choose|j: int| 0 <= j < s.drop_last().len() && s.drop_last()[j] == k;
                assert(s[j] == k);
            }
        }
        assert(s[s.len() - 1] == s.last());
        lemma_count_absent(s.drop_last(), k);
    }
}

proof fn lemma_count_bound(s: Seq<Seq<char>>, k: Seq<char>)
    ensures
        count_of(s, k) <= s.len(),
    decreases s.len(),
{
    if s.len() > 0 {
        lemma_count_bound(s.drop_last(), k);
    }
}

proof fn lemma_sorted_unique(a: Seq<Seq<char>>, b: Seq<Seq<char>>)
    requires
        strictly_sorted(a),
        strictly_sorted(b),
        forall|x: Seq<char>| a.contains(x) <==> b.contains(x),
    ensures
        a == b,
    decreases a.len(),
{
    if a.len() == 0 {
        if b.len() > 0 {
            assert(b.contains(b[0]));
        }
        assert(a =~= b);
    } else {
        assert(a.contains(a[0]));
        if b.len() == 0 {
            assert(false);
        }
        assert(b.contains(b[0]));
        let i = choose|i: int| 0 <= i < a.len() && a[i] == b[0];
        let j = choose|j: int| 0 <= j < b.len() && b[j] == a[0];
        if a[0] != b[0] {
            assert(i > 0 && j > 0);
            assert(lex_lt(a[0], a[i]));
            assert(lex_lt(b[0], b[j]));
            lemma_lex_total(a[0], b[0]);
        }
        let a1 = a.drop_first();
        let b1 = b.drop_first();
        assert forall|x: Seq<char>| a1.contains(x) <==> b1.contains(x) by {
            if a1.contains(x) {
                let k = choose|k: int| 0 <= k < a1.len() && a1[k] == x;
                assert(a[k + 1] == x);
                assert(lex_lt(a[0], a[k + 1]));
                lemma_lex_irreflexive(x);
                assert(b.contains(x));
                let m = choose|m: int| 0 <= m < b.len() && b[m] == x;
                assert(m != 0);
                assert(b1[m - 1] == x);
            }
            if b1.contains(x) {
                let k = choose|k: int| 0 <= k < b1.len() && b1[k] == x;
                assert(b[k + 1] == x);
                assert(lex_lt(b[0], b[k + 1]));
                lemma_lex_irreflexive(x);
                assert(a.contains(x));
                let m = choose|m: int| 0 <= m < a.len() && a[m] == x;
                assert(m != 0);
                assert(a1[m - 1] == x);
            }
        }
        assert forall|p: int, q: int| 0 <= p < q < a1.len() implies lex_lt(a1[p], a1[q]) by {
            assert(a1[p] == a[p + 1] && a1[q] == a[q + 1]);
        }
        assert forall|p: int, q: int| 0 <= p < q < b1.len() implies lex_lt(b1[p], b1[q]) by {
            assert(b1[p] == b[p + 1] && b1[q] == b[q + 1]);
        }
        lemma_sorted_unique(a1, b1);
        assert(a =~= b) by {
            assert(a.len() == b.len());
            assert forall|k: int| 0 <= k < a.len() implies a[k] == b[k] by {
                if k > 0 {
                    assert(a[k] == a1[k - 1] && b[k] == b1[k - 1]);
                }
            }
        }
    }
}

/// The views of a vector of character vectors.
pub open spec fn char_views(v: Seq<Vec<char>>) -> Seq<Seq<char>> {
    v.map_values(|c: Vec<char>| c@)
}

fn precedes(a: &[char], b: &[char]) -> (r: bool)
    ensures
        r == lex_lt(a@, b@),
{
    match compare_chars(a, b) {
        TextOrder::Less => true,
        _ => false,
    }
}

/// Counts detail of `states`, as computed: a sorted key list with counts.
fn state_counts_detail(states: &[String]) -> (r: Option<String>)
    ensures
        opt_view(r) == counts_detail(views(states@)),
{
    let ghost all = views(states@);
    if states.len() < 2 {
        return None;
    }
    let mut keys: Vec<Vec<char>> = Vec::new();
    let mut counts: Vec<u64> = Vec::new();
    let mut i: usize = 0;
    while i < states.len()
        invariant
            i <= states@.len(),
            all == views(states@),
            strictly_sorted(char_views(keys@)),
            forall|x: Seq<char>| #[trigger] char_views(keys@).contains(x) <==> all.take(i as int).contains(x),
            counts@.len() == keys@.len(),
            forall|j: int| 0 <= j < counts@.len() ==> #[trigger] counts@[j] == count_of(all.take(i as int), keys@[j]@),
            forall|j: int| 0 <= j < counts@.len() ==> #[trigger] counts@[j] <= i,
        decreases states@.len() - i,
    {
        let s = chars_of(states[i].as_str());
        let ghost kv = char_views(keys@);
        let ghost st = all.take(i as int);
        let ghost st1 = all.take(i + 1);
        proof {
            assert(all[i as int] == s@);
            assert(st1 =~= st.push(s@));
        }
        let mut p: usize = 0;
        while p < keys.len() && precedes(keys[p].as_slice(), s.as_slice())
            invariant
                p <= keys@.len(),
                kv == char_views(keys@),
                forall|j: int| 0 <= j < p ==> lex_lt(#[trigger] kv[j], s@),
            decreases keys@.len() - p,
        {
            p = p + 1;
        }
        let ghost c0 = counts@;
        let equal = p < keys.len() && (match compare_chars(keys[p].as_slice(), s.as_slice()) {
            TextOrder::Equal => true,
            _ => false,
        });
        if equal {
            proof {
                assert(kv[p as int] == s@);
                lemma_count_bound(st, s@);
                assert forall|j: int| 0 <= j < kv.len() && j != p implies kv[j] != s@ by {
                    if j < p {
                        assert(lex_lt(kv[j], kv[p as int]));
                    } else {
                        assert(lex_lt(kv[p as int], kv[j]));
                    }
                    lemma_lex_irreflexive(s@);
                }
            }
            let c = counts[p];
            counts.set(p, c + 1);
            proof {
                assert forall|j: int| 0 <= j < counts@.len() implies #[trigger] counts@[j] == count_of(st1, keys@[j]@) by {
                    lemma_count_push(st, s@, keys@[j]@);
                    assert(kv[j] == keys@[j]@);
                }
                assert forall|x: Seq<char>| #[trigger] char_views(keys@).contains(x) <==> st1.contains(x) by {
                    if x == s@ {
                        assert(st1[i as int] == s@);
                        assert(kv.contains(x));
                    }
                    if st1.contains(x) && x != s@ {
                        let k = choose|k: int| 0 <= k < st1.len() && st1[k] == x;
                        assert(st[k] == x);
                    }
                    if st.contains(x) {
                        let k = choose|k: int| 0 <= k < st.len() && st[k] == x;
                        assert(st1[k] == x);
                    }
                }
                assert forall|j: int| 0 <= j < counts@.len() implies #[trigger] counts@[j] <= i + 1 by {
                    if j != p {
                        assert(counts@[j] == c0[j]);
                    }
                }
            }
        } else {
            proof {
                if p < kv.len() {
                    lemma_lex_total(kv[p as int], s@);
                }
                assert(char_views(keys@).contains(s@) <==> st.contains(s@));
                assert forall|j: int| 0 <= j < kv.len() implies kv[j] != s@ && (j >= p ==> lex_lt(s@, kv[j])) by {
                    if j < p {
                        lemma_lex_irreflexive(s@);
                    } else {
                        if j > p {
                            assert(lex_lt(kv[p as int], kv[j]));
                            lemma_lex_transitive(s@, kv[p as int], kv[j]);
                        }
                        lemma_lex_irreflexive(s@);
                        lemma_lex_total(s@, kv[j]);
                    }
                }
                if kv.contains(s@) {
                    let j = choose|j: int| 0 <= j < kv.len() && kv[j] == s@;
                    assert(false);
                }
                assert(!st.contains(s@));
                lemma_count_absent(st, s@);
            }
            keys.insert(p, s);
            counts.insert(p, 1);
            proof {
                let nk = char_views(keys@);
                assert(nk =~= kv.insert(p as int, s@));
                assert forall|a: int, b: int| 0 <= a < b < nk.len() implies lex_lt(#[trigger] nk[a], #[trigger] nk[b]) by {
                    if b < p {
                        assert(nk[a] == kv[a] && nk[b] == kv[b]);
                    } else if b == p {
                        assert(nk[a] == kv[a]);
                    } else if a < p {
                        assert(nk[a] == kv[a] && nk[b] == kv[b - 1]);
                        lemma_lex_transitive(kv[a], s@, kv[b - 1]);
                    } else if a == p {
                        assert(nk[b] == kv[b - 1]);
                    } else {
                        assert(nk[a] == kv[a - 1] && nk[b] == kv[b - 1]);
                    }
                }
                assert forall|x: Seq<char>| #[trigger] nk.contains(x) <==> st1.contains(x) by {
                    if nk.contains(x) {
                        let k = choose|k: int| 0 <= k < nk.len() && nk[k] == x;
                        if k < p {
                            assert(kv[k] == x);
                            assert(kv.contains(x));
                        } else if k > p {
                            assert(kv[k - 1] == x);
                            assert(kv.contains(x));
                        }
                        if x == s@ {
                            assert(st1[i as int] == x);
                        } else {
                            let m = choose|m: int| 0 <= m < st.len() && st[m] == x;
                            assert(st1[m] == x);
                        }
                    }
                    if st1.contains(x) {
                        let m = choose|m: int| 0 <= m < st1.len() && st1[m] == x;
                        if m < i {
                            assert(st[m] == x);
                            assert(kv.contains(x));
                            let k = choose|k: int| 0 <= k < kv.len() && kv[k] == x;
                            if k < p {
                                assert(nk[k] == x);
                            } else {
                                assert(nk[k + 1] == x);
                            }
                        } else {
                            assert(nk[p as int] == x);
                        }
                    }
                }
                assert forall|j: int| 0 <= j < counts@.len() implies #[trigger] counts@[j] == count_of(st1, keys@[j]@) by {
                    lemma_count_push(st, s@, keys@[j]@);
                    if j < p {
                        assert(keys@[j]@ == kv[j]);
                    } else if j > p {
                        assert(keys@[j]@ == kv[j - 1]);
                    }
                }
                assert forall|j: int| 0 <= j < counts@.len() implies #[trigger] counts@[j] <= i + 1 by {
                    if j < p {
                        assert(counts@[j] == c0[j]);
                    } else if j > p {
                        assert(counts@[j] == c0[j - 1]);
                    }
                }
            }
        }
        i = i + 1;
    }
    proof {
        assert(all.take(i as int) =~= all);
    }
    let ghost kv = char_views(keys@);
    proof {
        assert(are_sorted_keys(kv, all));
        lemma_sorted_unique(kv, sorted_keys(all));
    }
    let mut entries: Vec<String> = Vec::new();
    let mut j: usize = 0;
    while j < keys.len()
        invariant
            j <= keys@.len(),
            kv == char_views(keys@),
            kv == sorted_keys(all),
            counts@.len() == keys@.len(),
            forall|m: int| 0 <= m < counts@.len() ==> #[trigger] counts@[m] == count_of(all, keys@[m]@),
            views(entries@) == kv.take(j as int).map_values(|k: Seq<char>| count_entry(all, k)),
        decreases keys@.len() - j,
    {
        let mut entry = String::new();
        push_decimal(&mut entry, counts[j]);
        push_str(&mut entry, "\u{d7}");
        push_chars(&mut entry, keys[j].as_slice());
        proof {
            reveal_strlit("\u{d7}");
            assert(kv[j as int] == keys@[j as int]@);
            assert(entry@ =~= count_entry(all, kv[j as int]));
        }
        let ghost prev = entries@;
        let ghost e = entry@;
        entries.push(entry);
        proof {
            assert(views(entries@) =~= views(prev).push(e));
            assert(kv.take(j + 1).map_values(|k: Seq<char>| count_entry(all, k)) =~= kv.take(j as int).map_values(|k: Seq<char>| count_entry(all, k)).push(count_entry(all, kv[j as int])));
        }
        j = j + 1;
    }
    proof {
        assert(kv.take(j as int) =~= kv);
    }
    Some(join_strings(entries.as_slice(), ", "))
}

/// Index of the first of `states` that is in `table`, scanning from `i`.
fn first_in_table(states: &[String], table: &Vec<&'static str>) -> (r: Option<usize>)
    ensures
        match r {
            Some(k) => k < states@.len() && first_member(views(states@), table@.map_values(|s: &str| s@)) == Some(states@[k as int]@),
            None => first_member(views(states@), table@.map_values(|s: &str| s@)) is None,
        },
{
    let ghost p = table@.map_values(|s: &str| s@);
    let ghost all = views(states@);
    let mut i: usize = 0;
    proof {
        assert(all.skip(0) =~= all);
    }
    while i < states.len()
        invariant
            i <= states@.len(),
            all == views(states@),
            p == table@.map_values(|s: &str| s@),
            first_member(all, p) == first_member(all.skip(i as int), p),
        decreases states@.len() - i,
    {
        let t = chars_of(states[i].as_str());
        proof {
            assert(all.skip(i as int)[0] == all[i as int]);
            assert(all.skip(i as int).drop_first() =~= all.skip(i + 1));
        }
        if in_table(table, t.as_slice()) {
            return Some(i);
        }
        i = i + 1;
    }
    None
}

/// Classifies a set of per-step states into one job state: failure outranks
/// active, which outranks completed; no recognizable state means unknown.
/// With more than one state (a job array), `detail` carries the counts.
pub fn classify_states(states: &[String]) -> (r: JobState)
    ensures
        r@ == classified(views(states@)),
{
    let failures = failure_state_table();
    let actives = active_state_table();
    let mut classified = match first_in_table(states, &failures) {
        Some(k) => JobState::failed(states[k].as_str()),
        None => match first_in_table(states, &actives) {
            Some(k) => JobState::active(states[k].as_str()),
            None => {
                let completed = chars_of("COMPLETED");
                let mut any = false;
                let mut i: usize = 0;
                while i < states.len()
                    invariant
                        i <= states@.len(),
                        completed@ == "COMPLETED"@,
                        any == views(states@).take(i as int).contains("COMPLETED"@),
                    decreases states@.len() - i,
                {
                    let t = chars_of(states[i].as_str());
                    let same = chars_eq(t.as_slice(), completed.as_slice());
                    proof {
                        let all = views(states@);
                        assert(all.take(i + 1) =~= all.take(i as int).push(t@));
                        if all.take(i as int).contains("COMPLETED"@) {
                            let k = choose|k: int| 0 <= k < i && #[trigger] all.take(i as int)[k] == "COMPLETED"@;
                            assert(all.take(i + 1)[k] == "COMPLETED"@);
                        }
                        if same {
                            assert(all.take(i + 1)[i as int] == t@);
                        }
                        if all.take(i + 1).contains("COMPLETED"@) && !same {
                            let k = choose|k: int| 0 <= k < i + 1 && #[trigger] all.take(i + 1)[k] == "COMPLETED"@;
                            assert(all.take(i as int)[k] == "COMPLETED"@);
                        }
                    }
                    any = any || same;
                    i = i + 1;
                }
                proof {
                    assert(views(states@).take(i as int) =~= views(states@));
                }
                if any {
                    JobState::completed()
                } else {
                    JobState::unknown()
                }
            },
        },
    };
    classified.detail = state_counts_detail(states);
    classified
}


// ---------------------------------------------------------------------------
// Scheduler output.
// ---------------------------------------------------------------------------

/// Whether a sacct `JobID` value belongs to `job_id`: the job itself, or, when
/// `job_id` is an array parent, one of its tasks (`123_7`, and the
/// `123_[8-20]` form sacct uses for still-pending task ranges). Step rows
/// (`123.batch`, `123_7.extern`) do not belong to it.
pub open spec fn sacct_row_matches(tok: Seq<char>, id: Seq<char>) -> bool {
    ||| tok == id
    ||| {
        &&& tok.len() > id.len() + 1
        &&& tok.take(id.len() as int) == id
        &&& tok[id.len() as int] == '_'
        &&& (all_digits(tok.skip(id.len() + 1 as int)) || tok[id.len() + 1 as int] == '[')
    }
}

/// A step row (`ID.batch`, `ID_7.extern`) never belongs to the job `ID`,
/// nor does a longer ID that merely starts with it (`1234` for `123`); a
/// task row `ID_7` belongs to its array parent.
pub proof fn lemma_sacct_rows(id: Seq<char>, step: Seq<char>, task: Seq<char>, other: Seq<char>)
    requires
        task.len() > 0,
        all_digits(task),
        other.len() > 0,
        other[0] != '_',
    ensures
        !sacct_row_matches(id + "."@ + step, id),
        !sacct_row_matches(id + "_"@ + task + "."@ + step, id),
        !sacct_row_matches(id + other, id),
        sacct_row_matches(id + "_"@ + task, id),
{
    reveal_strlit(".");
    reveal_strlit("_");
    let a = id + "."@ + step;
    assert(a[id.len() as int] == '.');
    assert(a.len() != id.len());
    let t = id + "_"@ + task;
    assert(t.take(id.len() as int) =~= id);
    assert(t.skip(id.len() + 1 as int) =~= task);
    assert(t[id.len() as int] == '_');
    let b = t + "."@ + step;
    assert(b.take(id.len() as int) =~= id);
    assert(b[id.len() as int] == '_');
    assert(b[b.len() - step.len() - 1] == '.');
    assert(b.skip(id.len() + 1 as int)[task.len() as int] == '.');
    assert(!all_digits(b.skip(id.len() + 1 as int)));
    assert(b[id.len() + 1 as int] == task[0]);
    let c = id + other;
    assert(c[id.len() as int] == other[0]);
    assert(c.len() != id.len());
}

/// The state a `JobID|State|...` sacct line reports for `id`, if any.
pub open spec fn sacct_row_state(line: Seq<char>, id: Seq<char>) -> Option<Seq<char>> {
    match after(line, '|') {
        None => None,
        Some(rest) => if sacct_row_matches(trim(before(line, '|')), id) {
            normalized_state(before(rest, '|'))
        } else {
            None
        },
    }
}

/// The states that the sacct lines report for `id`, in line order.
pub open spec fn sacct_states(ls: Seq<Seq<char>>, id: Seq<char>) -> Seq<Seq<char>>
    decreases ls.len(),
{
    if ls.len() == 0 {
        Seq::empty()
    } else {
        let prev = sacct_states(ls.drop_last(), id);
        match sacct_row_state(ls.last(), id) {
            Some(t) => prev.push(t),
            None => prev,
        }
    }
}

/// The known states among squeue's lines, in line order.
pub open spec fn squeue_states(ls: Seq<Seq<char>>) -> Seq<Seq<char>>
    decreases ls.len(),
{
    if ls.len() == 0 {
        Seq::empty()
    } else {
        let prev = squeue_states(ls.drop_last());
        match normalized_state(ls.last()) {
            Some(t) => prev.push(t),
            None => prev,
        }
    }
}

fn sacct_row_matches_chars(tok: &[char], id: &[char]) -> (r: bool)
    ensures
        r == sacct_row_matches(tok@, id@),
{
    if chars_eq(tok, id) {
        return true;
    }
    let n = id.len();
    if !(tok.len() > n && tok.len() - n > 1) {
        return false;
    }
    let prefix = copy_range(tok, 0, n);
    if !chars_eq(prefix.as_slice(), id) || tok[n] != '_' {
        return false;
    }
    if tok[n + 1] == '[' {
        return true;
    }
    proof {
        assert(tok@.take(n as int) =~= prefix@);
    }
    let mut k: usize = n + 1;
    while k < tok.len()
        invariant
            n + 1 <= k <= tok@.len(),
            n == id@.len(),
            tok@ != id@,
            tok@.len() > n + 1,
            tok@.take(n as int) == id@,
            tok@[n as int] == '_',
            tok@[n + 1] != '[',
            forall|j: int| n + 1 <= j < k ==> '0' <= #[trigger] tok@[j] <= '9',
        decreases tok@.len() - k,
    {
        if !('0' <= tok[k] && tok[k] <= '9') {
            proof {
                assert(tok@.skip(n + 1)[k - n - 1] == tok@[k as int]);
                assert(!all_digits(tok@.skip(n + 1)));
            }
            return false;
        }
        k = k + 1;
    }
    proof {
        assert forall|j: int| 0 <= j < tok@.skip(n + 1).len() implies '0' <= #[trigger] tok@.skip(n + 1)[j] <= '9' by {
            assert(tok@.skip(n + 1)[j] == tok@[j + n + 1]);
        }
    }
    true
}

fn sacct_row_state_chars(line: &[char], id: &[char]) -> (r: Option<Vec<char>>)
    ensures
        match r {
            Some(v) => sacct_row_state(line@, id@) == Some(v@),
            None => sacct_row_state(line@, id@) is None,
        },
{
    match after_char(line, '|') {
        None => None,
        Some(rest) => {
            let tok = trim_chars(before_char(line, '|').as_slice());
            if sacct_row_matches_chars(tok.as_slice(), id) {
                normalize_state_chars(before_char(rest.as_slice(), '|').as_slice())
            } else {
                None
            }
        },
    }
}

/// Parses `sacct -n -P -o JobID,State` output and classifies the states that
/// belong to `job_id`: its own rows, plus every task row when the ID names a
/// job array parent.
pub fn classify_sacct_output(stdout: &str, job_id: &str) -> (r: JobState)
    ensures
        r@ == classified(sacct_states(lines(stdout@), job_id@)),
{
    let text = chars_of(stdout);
    let id = chars_of(job_id);
    let ls = lines_of(text.as_slice());
    let ghost lv = lines(stdout@);
    let mut states: Vec<String> = Vec::new();
    let mut i: usize = 0;
    while i < ls.len()
        invariant
            i <= ls@.len(),
            ls@.len() == lv.len(),
            forall|k: int| 0 <= k < ls@.len() ==> #[trigger] ls@[k]@ == lv[k],
            id@ == job_id@,
            views(states@) == sacct_states(lv.take(i as int), job_id@),
        decreases ls@.len() - i,
    {
        proof {
            assert(lv.take(i + 1).drop_last() =~= lv.take(i as int));
            assert(lv.take(i + 1).last() == ls@[i as int]@);
        }
        match sacct_row_state_chars(ls[i].as_slice(), id.as_slice()) {
            Some(t) => {
                let ghost prev = states@;
                states.push(string_of(t.as_slice()));
                proof {
                    assert(views(states@) =~= views(prev).push(t@));
                }
            },
            None => {},
        }
        i = i + 1;
    }
    proof {
        assert(lv.take(i as int) =~= lv);
    }
    classify_states(states.as_slice())
}

/// Parses `squeue -h -j <id> -o %T` output (one state token per line; a job
/// array yields one line per queued or running task).
pub fn classify_squeue_output(stdout: &str) -> (r: JobState)
    ensures
        r@ == classified(squeue_states(lines(stdout@))),
{
    let text = chars_of(stdout);
    let ls = lines_of(text.as_slice());
    let ghost lv = lines(stdout@);
    let mut states: Vec<String> = Vec::new();
    let mut i: usize = 0;
    while i < ls.len()
        invariant
            i <= ls@.len(),
            ls@.len() == lv.len(),
            forall|k: int| 0 <= k < ls@.len() ==> #[trigger] ls@[k]@ == lv[k],
            views(states@) == squeue_states(lv.take(i as int)),
        decreases ls@.len() - i,
    {
        proof {
            assert(lv.take(i + 1).drop_last() =~= lv.take(i as int));
            assert(lv.take(i + 1).last() == ls@[i as int]@);
        }
        match normalize_state_chars(ls[i].as_slice()) {
            Some(t) => {
                let ghost prev = states@;
                states.push(string_of(t.as_slice()));
                proof {
                    assert(views(states@) =~= views(prev).push(t@));
                }
            },
            None => {},
        }
        i = i + 1;
    }
    proof {
        assert(lv.take(i as int) =~= lv);
    }
    classify_states(states.as_slice())
}

} // verus!
