//! Bounded log tails and suspicious-event scanning.
//!
//! Reading the file is the caller's part: it reads the last
//! [`TAIL_BYTES`] bytes (from [`tail_start`]) and hands them over; these
//! functions decode, align and scan them.

use vstd::prelude::*;
use vstd::utf8::{decode_utf8, valid_utf8};
use crate::text::{
    chars_of, copy_range, find_char, first_index, lemma_first_index, lines, lines_of, push_str,
    string_of, views,
};

verus! {

broadcast use vstd::string::group_string_axioms;

/// Per-file tail cap; keeps tool output bounded regardless of log size.
pub const TAIL_BYTES: u64 = 4096;

/// Log lines matching this are worth waking the agent for: numerical
/// breakdown, crashes, scheduler kills. Case-insensitive.
pub const SUSPICIOUS_EVENT_PATTERN: &'static str = "(?i)\\bnan\\b|\\binf\\b|diverg|not converged|convergence fail|traceback|segmentation fault|segfault|out[- ]of[- ]memory|\\boom\\b|killed|error|fatal|assert";

#[verifier::external_type_specification]
#[verifier::external_body]
pub struct ExRegex(regex_lite::Regex);

/// What `regex_lite::Regex::new(pattern)` gives: success, or the error's
/// message.
pub uninterp spec fn regex_build(pattern: Seq<char>) -> Result<(), Seq<char>>;

/// What `regex_lite::Regex::is_match` answers for the regex built from
/// `pattern` on `text`: whether it matches anywhere in `text`.
pub uninterp spec fn regex_matches(pattern: Seq<char>, text: Seq<char>) -> bool;

/// What `String::from_utf8_lossy` gives for `bytes`.
pub uninterp spec fn lossy_utf8(bytes: Seq<u8>) -> Seq<char>;

/// A compiled log-watch regex together with the pattern it was built from.
#[derive(Debug)]
pub struct WatchPattern {
    source: String,
    regex: regex_lite::Regex,
}

impl View for WatchPattern {
    type V = Seq<char>;

    closed spec fn view(&self) -> Seq<char> {
        self.source@
    }
}

/// Compiles `pattern` with `regex_lite::Regex::new`. Claims that the result
/// is `Ok` exactly when `regex_build` says so, with the error's `Display`
/// text otherwise, and that the pattern kept is `pattern` itself.
#[verifier::external_body]
fn build_regex(pattern: &str) -> (r: Result<WatchPattern, String>)
    ensures
        match r {
            Ok(p) => regex_build(pattern@) is Ok && p@ == pattern@,
            Err(e) => regex_build(pattern@) == Err::<(), Seq<char>>(e@),
        },
{
    match regex_lite::Regex::new(pattern) {
        Ok(regex) => Ok(WatchPattern { source: pattern.to_string(), regex }),
        Err(err) => Err(err.to_string()),
    }
}

/// `regex_lite::Regex::is_match` on the pattern's regex. Claims the answer
/// is `regex_matches` of the pattern's source and the text.
#[verifier::external_body]
fn regex_is_match(pattern: &WatchPattern, text: &str) -> (r: bool)
    ensures
        r == regex_matches(pattern@, text@),
{
    pattern.regex.is_match(text)
}

/// `String::from_utf8_lossy`: claims the result is `lossy_utf8(bytes)`, and
/// for valid UTF-8 the decoded text itself (as the documentation states).
#[verifier::external_body]
fn decode_lossy(bytes: &[u8]) -> (r: String)
    ensures
        r@ == lossy_utf8(bytes@),
        valid_utf8(bytes@) ==> r@ == decode_utf8(bytes@),
{
    String::from_utf8_lossy(bytes).into_owned()
}

impl WatchPattern {
    /// The pattern text.
    pub fn source(&self) -> (r: &str)
        ensures
            r@ == self@,
    {
        self.source.as_str()
    }
}

/// The error for an invalid user watch pattern.
pub open spec fn watch_pattern_error(pattern: Seq<char>, message: Seq<char>) -> Seq<char> {
    "invalid watch pattern `"@ + pattern + "`: "@ + message
}

/// Validates one user-supplied watch pattern, so a bad regex fails loudly at
/// attach time instead of being silently unable to match.
pub fn validate_watch_pattern(pattern: &str) -> (r: Result<(), String>)
    ensures
        match regex_build(pattern@) {
            Ok(_) => r is Ok,
            Err(message) => r is Err && r->Err_0@ == watch_pattern_error(pattern@, message),
        },
{
    match build_regex(pattern) {
        Ok(_) => Ok(()),
        Err(message) => {
            let mut e = String::new();
            push_str(&mut e, "invalid watch pattern `");
            push_str(&mut e, pattern);
            push_str(&mut e, "`: ");
            push_str(&mut e, message.as_str());
            Err(e)
        },
    }
}

/// The patterns of `ps` that compile, in order.
pub open spec fn compiling(ps: Seq<Seq<char>>) -> Seq<Seq<char>>
    decreases ps.len(),
{
    if ps.len() == 0 {
        Seq::empty()
    } else if regex_build(ps.last()) is Ok {
        compiling(ps.drop_last()).push(ps.last())
    } else {
        compiling(ps.drop_last())
    }
}

pub open spec fn pattern_views(ps: Seq<WatchPattern>) -> Seq<Seq<char>> {
    ps.map_values(|p: WatchPattern| p@)
}

/// Compiles per-job watch patterns, skipping any that no longer compile
/// (they were validated at attach; a skip only loses an extra pattern).
pub fn compile_watch_patterns(patterns: &[String]) -> (r: Vec<WatchPattern>)
    ensures
        pattern_views(r@) == compiling(views(patterns@)),
{
    let ghost all = views(patterns@);
    let mut r: Vec<WatchPattern> = Vec::new();
    let mut i: usize = 0;
    while i < patterns.len()
        invariant
            i <= patterns@.len(),
            all == views(patterns@),
            pattern_views(r@) == compiling(all.take(i as int)),
        decreases patterns@.len() - i,
    {
        proof {
            assert(all.take(i + 1).drop_last() =~= all.take(i as int));
            assert(all.take(i + 1).last() == patterns@[i as int]@);
        }
        match build_regex(patterns[i].as_str()) {
            Ok(p) => {
                let ghost prev = r@;
                r.push(p);
                proof {
                    assert(pattern_views(r@) =~= pattern_views(prev).push(patterns@[i as int]@));
                }
            },
            Err(_) => {},
        }
        i = i + 1;
    }
    proof {
        assert(all.take(i as int) =~= all);
    }
    r
}

/// Whether a log line is suspicious: the built-in event regex matches it,
/// or one of the extra patterns does.
pub open spec fn is_suspicious(line: Seq<char>, extras: Seq<Seq<char>>) -> bool {
    ||| (regex_build(SUSPICIOUS_EVENT_PATTERN@) is Ok && regex_matches(
        SUSPICIOUS_EVENT_PATTERN@,
        line,
    ))
    ||| exists|k: int| 0 <= k < extras.len() && regex_matches(#[trigger] extras[k], line)
}

/// The suspicious ones of `ls`, in order.
pub open spec fn suspicious_among(ls: Seq<Seq<char>>, extras: Seq<Seq<char>>) -> Seq<Seq<char>>
    decreases ls.len(),
{
    if ls.len() == 0 {
        Seq::empty()
    } else if is_suspicious(ls.last(), extras) {
        suspicious_among(ls.drop_last(), extras).push(ls.last())
    } else {
        suspicious_among(ls.drop_last(), extras)
    }
}

fn line_is_suspicious(
    builtin: &Option<WatchPattern>,
    line: &str,
    extras: &[WatchPattern],
) -> (r: bool)
    requires
        match builtin {
            Some(b) => b@ == SUSPICIOUS_EVENT_PATTERN@ && regex_build(SUSPICIOUS_EVENT_PATTERN@) is Ok,
            None => regex_build(SUSPICIOUS_EVENT_PATTERN@) is Err,
        },
    ensures
        r == is_suspicious(line@, pattern_views(extras@)),
{
    let ghost ev = pattern_views(extras@);
    let hit = match builtin {
        Some(b) => regex_is_match(b, line),
        None => false,
    };
    if hit {
        return true;
    }
    let mut k: usize = 0;
    while k < extras.len()
        invariant
            k <= extras@.len(),
            ev == pattern_views(extras@),
            forall|j: int| 0 <= j < k ==> !regex_matches(#[trigger] ev[j], line@),
        decreases extras@.len() - k,
    {
        if regex_is_match(&extras[k], line) {
            assert(regex_matches(ev[k as int], line@));
            return true;
        }
        k = k + 1;
    }
    false
}

/// The lines of `tail` that are suspicious, scanned with the built-in event
/// regex and the `extras`.
pub fn scan_suspicious_lines(tail: &str, extras: &[WatchPattern]) -> (r: Vec<String>)
    ensures
        views(r@) == suspicious_among(lines(tail@), pattern_views(extras@)),
{
    let builtin = match build_regex(SUSPICIOUS_EVENT_PATTERN) {
        Ok(p) => Some(p),
        Err(_) => None,
    };
    let text = chars_of(tail);
    let ls = lines_of(text.as_slice());
    let ghost lv = lines(tail@);
    let ghost ev = pattern_views(extras@);
    let mut r: Vec<String> = Vec::new();
    let mut i: usize = 0;
    while i < ls.len()
        invariant
            i <= ls@.len(),
            ls@.len() == lv.len(),
            forall|k: int| 0 <= k < ls@.len() ==> #[trigger] ls@[k]@ == lv[k],
            ev == pattern_views(extras@),
            match builtin {
                Some(b) => b@ == SUSPICIOUS_EVENT_PATTERN@ && regex_build(SUSPICIOUS_EVENT_PATTERN@) is Ok,
                None => regex_build(SUSPICIOUS_EVENT_PATTERN@) is Err,
            },
            views(r@) == suspicious_among(lv.take(i as int), ev),
        decreases ls@.len() - i,
    {
        proof {
            assert(lv.take(i + 1).drop_last() =~= lv.take(i as int));
            assert(lv.take(i + 1).last() == ls@[i as int]@);
        }
        let line = string_of(ls[i].as_slice());
        if line_is_suspicious(&builtin, line.as_str(), extras) {
            let ghost prev = r@;
            let ghost l = line@;
            r.push(line);
            proof {
                assert(views(r@) =~= views(prev).push(l));
            }
        }
        i = i + 1;
    }
    proof {
        assert(lv.take(i as int) =~= lv);
    }
    r
}

/// The tail of one log file plus any suspicious lines inside it.
#[derive(Debug, Clone, PartialEq, Eq)]
pub struct LogTail {
    pub path: String,
    /// Total file length at read time; lets callers detect growth.
    pub file_len: u64,
    pub tail: String,
    pub suspicious_lines: Vec<String>,
}

/// Where the tail of a file of `file_len` bytes starts.
pub fn tail_start(file_len: u64) -> (r: u64)
    ensures
        r == if file_len > TAIL_BYTES {
            file_len - TAIL_BYTES
        } else {
            0
        },
{
    file_len.saturating_sub(TAIL_BYTES)
}

/// The tail text of `text` read at `start`: when reading from mid-file, the
/// first, likely partial, line (through its `\n`) is dropped.
pub open spec fn aligned_text(start: u64, text: Seq<char>) -> Seq<char> {
    let i = first_index(text, '\n');
    if start > 0 && i >= 0 {
        text.skip(i + 1)
    } else {
        text
    }
}

/// Tail text decoded from the bytes read at `start`.
pub open spec fn aligned_tail(start: u64, bytes: Seq<u8>) -> Seq<char> {
    aligned_text(start, lossy_utf8(bytes))
}

/// The tail of the file at `path` of `file_len` bytes, from the `bytes`
/// read at offset `start`, scanned with the `extras`. A missing file is
/// passed as zero bytes of length zero, which gives an empty tail.
pub fn log_tail(
    path: String,
    file_len: u64,
    start: u64,
    bytes: &[u8],
    extras: &[WatchPattern],
) -> (r: LogTail)
    ensures
        r.path == path,
        r.file_len == file_len,
        r.tail@ == aligned_tail(start, bytes@),
        valid_utf8(bytes@) ==> r.tail@ == aligned_text(start, decode_utf8(bytes@)),
        bytes@.len() == 0 ==> r.tail@.len() == 0 && r.suspicious_lines@.len() == 0,
        views(r.suspicious_lines@) == suspicious_among(lines(r.tail@), pattern_views(extras@)),
{
    let decoded = decode_lossy(bytes);
    let text = chars_of(decoded.as_str());
    proof {
        lemma_first_index(text@, '\n');
    }
    let tail = if start > 0 {
        match find_char(text.as_slice(), '\n') {
            Some(i) => {
                let n = text.len();
                string_of(copy_range(text.as_slice(), i + 1, n).as_slice())
            },
            None => decoded,
        }
    } else {
        decoded
    };
    let suspicious_lines = scan_suspicious_lines(tail.as_str(), extras);
    LogTail { path, file_len, tail, suspicious_lines }
}

} // verus!
