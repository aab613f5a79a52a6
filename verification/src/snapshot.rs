//! One polled job: its record, probed state and log evidence.

use vstd::prelude::*;
use crate::clock::now_millis;
use crate::record::{elapsed_millis, is_overrun, run_started, runtime_ratio_at, JobRecord, RuntimeRatio};
use crate::state::{is_terminal_phase, JobState};
use crate::tail::LogTail;
use crate::text::{hex, hex_chars, push_str, string_of, views};

verus! {

broadcast use vstd::string::group_string_axioms;

/// One job's polled status plus its bounded log evidence.
#[derive(Debug, Clone)]
pub struct JobSnapshot {
    pub record: JobRecord,
    pub state: JobState,
    pub log_tails: Vec<LogTail>,
}

/// Whether any tail holds a suspicious line.
pub open spec fn has_suspicious(tails: Seq<LogTail>) -> bool {
    exists|i: int| 0 <= i < tails.len() && #[trigger] tails[i].suspicious_lines@.len() > 0
}

/// The overrun to report for `s` at `now`: none for a terminal job or one
/// whose overrun was already reported; otherwise the runtime ratio when it
/// has reached the overrun threshold.
pub open spec fn overrun_at(s: JobSnapshot, now: i64) -> Option<RuntimeRatio> {
    if is_terminal_phase(s.state.phase) || s.record.overrun_notified {
        None
    } else {
        match runtime_ratio_at(s.record@, now) {
            Some(r) => if is_overrun(r) {
                Some(r)
            } else {
                None
            },
            None => None,
        }
    }
}

/// The overrun reported for a job at `now`: none for a terminal job or one
/// whose overrun was already reported, nor before it has an expected
/// runtime and was seen running; otherwise the time since it was first seen
/// running against its expected runtime, once that ratio reaches
/// [`OVERRUN_WAKE_RATIO`](crate::polling::OVERRUN_WAKE_RATIO). Queue time
/// does not count, and an expected runtime of zero is overrun as soon as any
/// time has passed.
pub proof fn lemma_overrun_law(s: JobSnapshot, now: i64)
    ensures
        overrun_at(s, now) is Some <==> {
            &&& !is_terminal_phase(s.state.phase)
            &&& !s.record.overrun_notified
            &&& s.record.expected_runtime_seconds is Some
            &&& run_started(s.record@.history) is Some
            &&& {
                let e = s.record.expected_runtime_seconds->Some_0;
                let d = elapsed_millis(run_started(s.record@.history)->Some_0, now);
                d > 0 && d >= 2000 * e
            }
        },
        overrun_at(s, now) matches Some(r) ==> r == (RuntimeRatio {
            elapsed_millis: elapsed_millis(run_started(s.record@.history)->Some_0, now) as u64,
            expected_seconds: s.record.expected_runtime_seconds->Some_0,
        }),
{
    if run_started(s.record@.history) is Some {
        let t0 = run_started(s.record@.history)->Some_0;
        assert(elapsed_millis(t0, now) < 0x1_0000_0000_0000_0000);
    }
}

impl JobSnapshot {
    pub fn has_suspicious_logs(&self) -> (r: bool)
        ensures
            r == has_suspicious(self.log_tails@),
    {
        let mut i: usize = 0;
        while i < self.log_tails.len()
            invariant
                i <= self.log_tails@.len(),
                forall|j: int| 0 <= j < i ==> #[trigger] self.log_tails@[j].suspicious_lines@.len() == 0,
            decreases self.log_tails@.len() - i,
        {
            if self.log_tails[i].suspicious_lines.len() > 0 {
                return true;
            }
            i = i + 1;
        }
        false
    }

    /// The overrun to report at `now` (milliseconds since the epoch).
    pub fn unreported_overrun_at(&self, now: i64) -> (r: Option<RuntimeRatio>)
        ensures
            r == overrun_at(*self, now),
    {
        if self.state.is_terminal() || self.record.overrun_notified {
            return None;
        }
        match self.record.runtime_ratio(now) {
            Some(ratio) => {
                if ratio.elapsed_millis > 0 && (ratio.elapsed_millis as u128) >= (ratio.expected_seconds as u128) * 1000
                    * (crate::polling::OVERRUN_WAKE_RATIO as u128) {
                    Some(ratio)
                } else {
                    None
                }
            },
            None => None,
        }
    }

    /// `Some(ratio)` once a still-running job has passed the overrun ratio
    /// times its expected runtime and the overrun has not been reported to
    /// the agent yet.
    pub fn unreported_overrun(&self) -> (r: Option<RuntimeRatio>)
        ensures
            exists|now: i64| r == overrun_at(*self, now),
    {
        let now = now_millis();
        self.unreported_overrun_at(now)
    }
}

/// The suspicious lines of one tail, each followed by `\n`.
pub open spec fn lines_text(ls: Seq<Seq<char>>) -> Seq<char>
    decreases ls.len(),
{
    if ls.len() == 0 {
        Seq::empty()
    } else {
        lines_text(ls.drop_last()) + ls.last() + "\n"@
    }
}

/// Every suspicious line of every tail, each followed by `\n`.
pub open spec fn tails_text(ts: Seq<LogTail>) -> Seq<char>
    decreases ts.len(),
{
    if ts.len() == 0 {
        Seq::empty()
    } else {
        tails_text(ts.drop_last()) + lines_text(views(ts.last().suspicious_lines@))
    }
}

pub const FNV_OFFSET: u64 = 0xcbf2_9ce4_8422_2325;

pub const FNV_PRIME: u64 = 0x0000_0100_0000_01b3;

/// 64-bit FNV-1a of `bytes`.
pub open spec fn fnv1a_of(bytes: Seq<u8>) -> u64
    decreases bytes.len(),
{
    if bytes.len() == 0 {
        FNV_OFFSET
    } else {
        (fnv1a_of(bytes.drop_last()) ^ (bytes.last() as u64)).wrapping_mul(FNV_PRIME)
    }
}

/// The fingerprint of a snapshot's suspicious lines: lowercase hex of the
/// FNV-1a hash of their UTF-8 text.
pub open spec fn signature_of(tails: Seq<LogTail>) -> Seq<char> {
    hex(fnv1a_of(vstd::utf8::encode_utf8(tails_text(tails))) as nat)
}

/// Small non-cryptographic fingerprint (64-bit FNV-1a over the UTF-8
/// bytes); collisions only risk a skipped or repeated wake notice.
pub fn fnv1a(text: &str) -> (r: u64)
    ensures
        r == fnv1a_of(vstd::utf8::encode_utf8(text@)),
{
    let bytes = text.as_bytes();
    let mut hash: u64 = FNV_OFFSET;
    let mut i: usize = 0;
    while i < bytes.len()
        invariant
            i <= bytes@.len(),
            bytes@ == vstd::utf8::encode_utf8(text@),
            hash == fnv1a_of(bytes@.take(i as int)),
        decreases bytes@.len() - i,
    {
        proof {
            assert(bytes@.take(i + 1).drop_last() =~= bytes@.take(i as int));
            assert(bytes@.take(i + 1).last() == bytes@[i as int]);
        }
        hash = (hash ^ (bytes[i] as u64)).wrapping_mul(FNV_PRIME);
        i = i + 1;
    }
    proof {
        assert(bytes@.take(i as int) =~= bytes@);
    }
    hash
}

/// The text fingerprinted by [`suspicious_signature`].
pub fn suspicious_text(tails: &[LogTail]) -> (r: String)
    ensures
        r@ == tails_text(tails@),
{
    let mut text = String::new();
    let mut i: usize = 0;
    while i < tails.len()
        invariant
            i <= tails@.len(),
            text@ == tails_text(tails@.take(i as int)),
        decreases tails@.len() - i,
    {
        let ghost before_tail = text@;
        let ls = &tails[i].suspicious_lines;
        let ghost lv = views(ls@);
        let mut k: usize = 0;
        while k < ls.len()
            invariant
                k <= ls@.len(),
                lv == views(ls@),
                text@ == before_tail + lines_text(lv.take(k as int)),
            decreases ls@.len() - k,
        {
            proof {
                assert(lv.take(k + 1).drop_last() =~= lv.take(k as int));
                assert(lv.take(k + 1).last() == ls@[k as int]@);
            }
            push_str(&mut text, ls[k].as_str());
            push_str(&mut text, "\n");
            proof {
                assert(text@ =~= before_tail + lines_text(lv.take(k + 1)));
            }
            k = k + 1;
        }
        proof {
            assert(lv.take(k as int) =~= lv);
            assert(tails@.take(i + 1).drop_last() =~= tails@.take(i as int));
            assert(tails@.take(i + 1).last() == tails@[i as int]);
        }
        i = i + 1;
    }
    proof {
        assert(tails@.take(i as int) =~= tails@);
    }
    text
}

/// Fingerprint of a snapshot's suspicious log lines, recorded once they are
/// reported so repeated polls do not re-report the same lines.
pub fn suspicious_signature(snapshot: &JobSnapshot) -> (r: String)
    ensures
        r@ == signature_of(snapshot.log_tails@),
{
    let text = suspicious_text(snapshot.log_tails.as_slice());
    let hash = fnv1a(text.as_str());
    string_of(hex_chars(hash).as_slice())
}

} // verus!
