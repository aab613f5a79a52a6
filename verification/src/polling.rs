//! Poll cadence and expected-runtime specs.

use vstd::prelude::*;
use crate::text::{
    chars_of, decimal, is_ascii_alpha, is_digit, is_ws, lemma_decimal_parses, lemma_trim_end_at,
    lemma_trim_unchanged, lower_char, parse_unsigned, parse_unsigned_chars, push_chars, push_str,
    to_lower_char, trim, trim_chars, trim_start,
};

verus! {

broadcast use vstd::string::group_string_axioms;

/// First poll interval (15 s), in nanoseconds: start fast, back off toward
/// a five-minute ceiling so a multi-day job costs a handful of scheduler
/// queries per hour.
pub const INITIAL_POLL_INTERVAL_NANOS: u128 = 15_000_000_000;

/// Poll interval ceiling (300 s), in nanoseconds.
pub const MAX_POLL_INTERVAL_NANOS: u128 = 300_000_000_000;

/// The longest `std::time::Duration`, in nanoseconds.
pub const MAX_DURATION_NANOS: u128 = 18_446_744_073_709_551_615_999_999_999;

/// Consecutive UNKNOWN scheduler answers tolerated before reporting a polling
/// problem instead of waiting forever on a job the scheduler forgot.
pub const UNKNOWN_CONSECUTIVE_LIMIT: u32 = 3;

/// A running job this many times past its expected runtime is reported once
/// as suspicious (hung dynamics and deadlocked I/O look like "still
/// running").
pub const OVERRUN_WAKE_RATIO: u64 = 2;

pub open spec fn backoff(current: nat) -> nat {
    let grown = current * 3 / 2;
    if grown < MAX_POLL_INTERVAL_NANOS {
        grown
    } else {
        MAX_POLL_INTERVAL_NANOS as nat
    }
}

/// Returns the next poll interval after `current` (both in nanoseconds):
/// one and a half times longer, up to the ceiling.
pub fn next_poll_interval(current: u128) -> (r: u128)
    requires
        current * 3 <= MAX_DURATION_NANOS,
    ensures
        r == backoff(current as nat),
{
    let grown = current * 3 / 2;
    if grown < MAX_POLL_INTERVAL_NANOS {
        grown
    } else {
        MAX_POLL_INTERVAL_NANOS
    }
}

/// Backing off never shortens an interval within the ceiling and never
/// passes the ceiling; from the initial interval, nine back-offs reach it.
pub proof fn lemma_backoff_bounded(current: nat)
    requires
        current <= MAX_POLL_INTERVAL_NANOS,
    ensures
        current <= backoff(current) <= MAX_POLL_INTERVAL_NANOS,
        backoff(current) == MAX_POLL_INTERVAL_NANOS || backoff(current) == current * 3 / 2,
{
}

/// Nine back-offs take the initial interval to the ceiling, where it stays.
pub proof fn lemma_backoff_reaches_ceiling()
    ensures
        backoff(backoff(backoff(backoff(backoff(backoff(backoff(backoff(backoff(
            INITIAL_POLL_INTERVAL_NANOS as nat,
        ))))))))) == MAX_POLL_INTERVAL_NANOS,
        backoff(MAX_POLL_INTERVAL_NANOS as nat) == MAX_POLL_INTERVAL_NANOS,
{
}

/// Seconds per unit for `s`, `m`, `h` and `d`.
pub open spec fn unit_seconds(u: char) -> nat {
    if u == 's' {
        1
    } else if u == 'm' {
        60
    } else if u == 'h' {
        3600
    } else {
        86400
    }
}

pub open spec fn is_runtime_unit(u: char) -> bool {
    u == 's' || u == 'm' || u == 'h' || u == 'd'
}

/// The meaning of a human expected-runtime spec — `"90"`, `"45m"`, `"6h"`,
/// `"2d"` — in seconds, or the error message for it.
pub open spec fn expected_runtime(spec: Seq<char>) -> Result<nat, Seq<char>> {
    let s = trim(spec);
    let has_unit = s.len() > 0 && is_ascii_alpha(s.last());
    let number = if has_unit {
        s.drop_last()
    } else {
        s
    };
    let unit = if has_unit {
        s.last()
    } else {
        's'
    };
    match parse_unsigned(trim(number), u64::MAX as nat) {
        None => Err("invalid expected_runtime `"@ + s + "`; use e.g. 90s, 45m, 6h, 2d"@),
        Some(v) => if !is_runtime_unit(lower_char(unit)) {
            Err("invalid expected_runtime unit `"@ + seq![unit] + "`; use s, m, h, or d"@)
        } else {
            let secs = v * unit_seconds(lower_char(unit));
            if secs == 0 || secs > u64::MAX {
                Err("expected_runtime `"@ + s + "` must be a positive duration"@)
            } else {
                Ok(secs)
            }
        },
    }
}

/// A whole number of a unit means that many times the unit's seconds
/// (`s` 1, `m` 60, `h` 3600, `d` 86400, in either case), written with or
/// without spaces between the number and the unit (`"6h"`, `"6 h"`,
/// `"6   H"`), whenever the duration is positive and fits in `u64`.
pub proof fn lemma_number_then_unit(v: u64, spaces: nat, unit: char, seconds_per_unit: nat)
    requires
        ((unit == 's' || unit == 'S') && seconds_per_unit == 1) || ((unit == 'm' || unit == 'M')
            && seconds_per_unit == 60) || ((unit == 'h' || unit == 'H') && seconds_per_unit == 3600)
            || ((unit == 'd' || unit == 'D') && seconds_per_unit == 86400),
        0 < v * seconds_per_unit <= u64::MAX,
    ensures
        expected_runtime(decimal(v as nat) + Seq::new(spaces, |i: int| ' ') + seq![unit])
            == Ok::<nat, Seq<char>>((v * seconds_per_unit) as nat),
{
    let d = decimal(v as nat);
    lemma_decimal_parses(v as nat, u64::MAX as nat);
    let sp = Seq::new(spaces, |i: int| ' ');
    let number = d + sp;
    let spec = d + sp + seq![unit];
    assert(spec =~= number.push(unit));
    assert(is_digit(d[0]));
    assert(spec[0] == d[0]);
    assert(spec.last() == unit);
    lemma_trim_unchanged(spec);
    assert(trim(spec) == spec);
    assert(is_ascii_alpha(spec.last()));
    assert(spec.drop_last() =~= number);
    assert(number[0] == d[0]);
    assert(trim_start(number) == number);
    assert(is_digit(d[d.len() - 1]));
    assert forall|j: int| d.len() <= j < number.len() implies is_ws(number[j]) by {
        assert(number[j] == sp[j - d.len()]);
    }
    assert(number[d.len() - 1] == d[d.len() - 1]);
    lemma_trim_end_at(number, d.len() as int);
    assert(number.take(d.len() as int) =~= d);
    assert(trim(number) == d);
}

/// A number without a unit is seconds; zero seconds is refused.
pub proof fn lemma_bare_number_is_seconds(v: u64)
    ensures
        v > 0 ==> expected_runtime(decimal(v as nat)) == Ok::<nat, Seq<char>>(v as nat),
        v == 0 ==> expected_runtime(decimal(v as nat)) is Err,
{
    let d = decimal(v as nat);
    lemma_decimal_parses(v as nat, u64::MAX as nat);
    assert(is_digit(d[0]));
    assert(is_digit(d[d.len() - 1]));
    lemma_trim_unchanged(d);
    assert(trim(d) == d);
    assert(!is_ascii_alpha(d.last()));
    assert(parse_unsigned(trim(d), u64::MAX as nat) == Some(v as nat));
    assert(unit_seconds(lower_char('s')) == 1);
}

/// Parses a human expected-runtime spec — `"90"`, `"45m"`, `"6h"`, `"2d"` —
/// into seconds.
pub fn parse_expected_runtime(spec: &str) -> (r: Result<u64, String>)
    ensures
        match r {
            Ok(v) => expected_runtime(spec@) == Ok::<nat, Seq<char>>(v as nat),
            Err(e) => expected_runtime(spec@) == Err::<nat, Seq<char>>(e@),
        },
{
    let all = chars_of(spec);
    let s = trim_chars(all.as_slice());
    let has_unit = s.len() > 0 && {
        let c = s[s.len() - 1];
        ('a' <= c && c <= 'z') || ('A' <= c && c <= 'Z')
    };
    let n = s.len();
    let (number, unit) = if has_unit {
        (trim_chars(&s.as_slice()[0..n - 1]), s[n - 1])
    } else {
        (trim_chars(s.as_slice()), 's')
    };
    proof {
        if has_unit {
            assert(s@.subrange(0, n - 1) =~= s@.drop_last());
        }
    }
    let value = match parse_unsigned_chars(number.as_slice(), u64::MAX) {
        Some(v) => v,
        None => {
            let mut e = String::new();
            push_str(&mut e, "invalid expected_runtime `");
            push_chars(&mut e, s.as_slice());
            push_str(&mut e, "`; use e.g. 90s, 45m, 6h, 2d");
            return Err(e);
        },
    };
    let u = to_lower_char(unit);
    let factor: u64 = if u == 's' {
        1
    } else if u == 'm' {
        60
    } else if u == 'h' {
        3600
    } else if u == 'd' {
        86400
    } else {
        let mut e = String::new();
        push_str(&mut e, "invalid expected_runtime unit `");
        let one = vec![unit];
        push_chars(&mut e, one.as_slice());
        push_str(&mut e, "`; use s, m, h, or d");
        proof {
            assert(one@ =~= seq![unit]);
        }
        return Err(e);
    };
    match value.checked_mul(factor) {
        Some(secs) if secs > 0 => Ok(secs),
        _ => {
            let mut e = String::new();
            push_str(&mut e, "expected_runtime `");
            push_chars(&mut e, s.as_slice());
            push_str(&mut e, "` must be a positive duration");
            Err(e)
        },
    }
}

} // verus!
