//! Planning a `job_attach` call: from the tool's arguments to the records
//! it registers, or the error it answers with.

use vstd::prelude::*;
use crate::clock::now_millis;
use crate::polling::{expected_runtime, parse_expected_runtime};
use crate::record::{
    copy_strings, parsed_target, JobRecord, JobRecordView, JobTarget, JobTargetView, WakePolicy,
};
use crate::state::opt_view;
use crate::tail::{regex_build, validate_watch_pattern, watch_pattern_error};
use crate::text::{decimal, owned, push_decimal, push_str, same_text, views};

verus! {

broadcast use vstd::string::group_string_axioms;

/// The arguments of a `job_attach` call.
pub struct AttachArgs {
    /// One job spec (`slurm:<id>` or `pid:<pid>`).
    pub job: Option<String>,
    /// Several job specs, attached as one sweep.
    pub jobs: Option<Vec<String>>,
    pub label: Option<String>,
    pub log_paths: Option<Vec<String>>,
    /// A runtime spec such as `45m`.
    pub expected_runtime: Option<String>,
    pub watch_patterns: Option<Vec<String>>,
    /// `each` or `batch`.
    pub wake_policy: Option<String>,
}

pub struct AttachArgsView {
    pub job: Option<Seq<char>>,
    pub jobs: Option<Seq<Seq<char>>>,
    pub label: Option<Seq<char>>,
    pub log_paths: Option<Seq<Seq<char>>>,
    pub expected_runtime: Option<Seq<char>>,
    pub watch_patterns: Option<Seq<Seq<char>>>,
    pub wake_policy: Option<Seq<char>>,
}

pub open spec fn opt_views(o: Option<Vec<String>>) -> Option<Seq<Seq<char>>> {
    match o {
        Some(v) => Some(views(v@)),
        None => None,
    }
}

impl View for AttachArgs {
    type V = AttachArgsView;

    open spec fn view(&self) -> AttachArgsView {
        AttachArgsView {
            job: opt_view(self.job),
            jobs: opt_views(self.jobs),
            label: opt_view(self.label),
            log_paths: opt_views(self.log_paths),
            expected_runtime: opt_view(self.expected_runtime),
            watch_patterns: opt_views(self.watch_patterns),
            wake_policy: opt_view(self.wake_policy),
        }
    }
}

/// The answer when neither or both of `job` and `jobs` are given, or `jobs`
/// is empty.
pub const SPECS_ERROR: &'static str = "pass exactly one of `job` (single) or a non-empty `jobs` list (sweep)";

/// The job specs to attach.
pub open spec fn attach_specs(job: Option<Seq<char>>, jobs: Option<Seq<Seq<char>>>) -> Result<Seq<Seq<char>>, Seq<char>> {
    match (job, jobs) {
        (Some(j), None) => Ok(seq![j]),
        (None, Some(js)) => if js.len() > 0 {
            Ok(js)
        } else {
            Err(SPECS_ERROR@)
        },
        _ => Err(SPECS_ERROR@),
    }
}

/// Every spec parsed, in order, or the error of the first that fails.
pub open spec fn parsed_targets(specs: Seq<Seq<char>>) -> Result<Seq<JobTargetView>, Seq<char>>
    decreases specs.len(),
{
    if specs.len() == 0 {
        Ok(Seq::empty())
    } else {
        match parsed_targets(specs.drop_last()) {
            Err(e) => Err(e),
            Ok(ts) => match parsed_target(specs.last()) {
                Ok(t) => Ok(ts.push(t)),
                Err(e) => Err(e),
            },
        }
    }
}

/// The log paths of each of `n` jobs: all of them for a single job; for a
/// sweep none, or one per job by position.
pub open spec fn paired_log_paths(paths: Seq<Seq<char>>, n: nat) -> Result<Seq<Seq<Seq<char>>>, Seq<char>> {
    if n == 1 {
        Ok(seq![paths])
    } else if paths.len() == 0 {
        Ok(Seq::new(n, |i: int| Seq::<Seq<char>>::empty()))
    } else if paths.len() == n {
        Ok(Seq::new(n, |i: int| seq![paths[i]]))
    } else {
        Err(
            "with a `jobs` sweep, pass one log path per job in the same order ("@ + decimal(
                paths.len(),
            ) + " paths for "@ + decimal(n) + " jobs)"@,
        )
    }
}

/// The error of the first pattern that does not compile.
pub open spec fn first_invalid_pattern(ps: Seq<Seq<char>>) -> Option<Seq<char>>
    decreases ps.len(),
{
    if ps.len() == 0 {
        None
    } else {
        match first_invalid_pattern(ps.drop_last()) {
            Some(e) => Some(e),
            None => match regex_build(ps.last()) {
                Ok(_) => None,
                Err(m) => Some(watch_pattern_error(ps.last(), m)),
            },
        }
    }
}

/// `current` followed by each configured pattern that compiles and is not
/// already there.
pub open spec fn merged_patterns(current: Seq<Seq<char>>, config: Seq<Seq<char>>) -> Seq<Seq<char>>
    decreases config.len(),
{
    if config.len() == 0 {
        current
    } else {
        let prev = merged_patterns(current, config.drop_last());
        let p = config.last();
        if regex_build(p) is Ok && !prev.contains(p) {
            prev.push(p)
        } else {
            prev
        }
    }
}

pub open spec fn attach_runtime(spec: Option<Seq<char>>) -> Result<Option<u64>, Seq<char>> {
    match spec {
        None => Ok(None),
        Some(s) => match expected_runtime(s) {
            Ok(v) => Ok(Some(v as u64)),
            Err(e) => Err(e),
        },
    }
}

/// The wake policy: as asked, else `batch` for a sweep and `each` for one job.
pub open spec fn attach_policy(p: Option<Seq<char>>, n: nat) -> Result<WakePolicy, Seq<char>> {
    match p {
        None => if n > 1 {
            Ok(WakePolicy::Batch)
        } else {
            Ok(WakePolicy::Each)
        },
        Some(s) => if s == "each"@ {
            Ok(WakePolicy::Each)
        } else if s == "batch"@ {
            Ok(WakePolicy::Batch)
        } else {
            Err("invalid wake_policy `"@ + s + "`; use `each` or `batch`"@)
        },
    }
}

/// The label of the `i`-th job: in a sweep, numbered from 1.
pub open spec fn attach_label(label: Option<Seq<char>>, multi: bool, i: nat) -> Option<Seq<char>> {
    match label {
        Some(l) => if multi {
            Some(l + " ["@ + decimal(i + 1) + "]"@)
        } else {
            Some(l)
        },
        None => None,
    }
}

/// A freshly attached record.
pub open spec fn attached_record(
    target: JobTargetView,
    label: Option<Seq<char>>,
    log_paths: Seq<Seq<char>>,
    policy: WakePolicy,
    runtime: Option<u64>,
    patterns: Seq<Seq<char>>,
    at: i64,
) -> JobRecordView {
    JobRecordView {
        target,
        label,
        log_paths,
        attached_at: at,
        history: Seq::empty(),
        notified_at: None,
        suspicious_signature: None,
        wake_policy: policy,
        expected_runtime_seconds: runtime,
        watch_patterns: patterns,
        overrun_notified: false,
    }
}

pub open spec fn unwrap_or_empty(o: Option<Seq<Seq<char>>>) -> Seq<Seq<char>> {
    match o {
        Some(v) => v,
        None => Seq::empty(),
    }
}

/// The records a `job_attach` call registers at `at`, with the configured
/// watch patterns `config`, or the error it answers with. The checks run in
/// this order: the specs, each spec, the log paths, each watch pattern, the
/// expected runtime, the wake policy.
pub open spec fn attach_plan(args: AttachArgsView, config: Seq<Seq<char>>, at: i64) -> Result<Seq<JobRecordView>, Seq<char>> {
    match attach_specs(args.job, args.jobs) {
        Err(e) => Err(e),
        Ok(specs) => match parsed_targets(specs) {
            Err(e) => Err(e),
            Ok(ts) => match paired_log_paths(unwrap_or_empty(args.log_paths), ts.len()) {
                Err(e) => Err(e),
                Ok(logs) => {
                    let user = unwrap_or_empty(args.watch_patterns);
                    match first_invalid_pattern(user) {
                        Some(e) => Err(e),
                        None => match attach_runtime(args.expected_runtime) {
                            Err(e) => Err(e),
                            Ok(rt) => match attach_policy(args.wake_policy, ts.len()) {
                                Err(e) => Err(e),
                                Ok(p) => {
                                    let patterns = merged_patterns(user, config);
                                    Ok(
                                        Seq::new(
                                            ts.len(),
                                            |i: int|
                                                attached_record(
                                                    ts[i],
                                                    attach_label(args.label, ts.len() > 1, i as nat),
                                                    logs[i],
                                                    p,
                                                    rt,
                                                    patterns,
                                                    at,
                                                ),
                                        ),
                                    )
                                },
                            },
                        },
                    }
                },
            },
        },
    }
}

pub open spec fn record_views(v: Seq<JobRecord>) -> Seq<JobRecordView> {
    v.map_values(|r: JobRecord| r@)
}

pub open spec fn target_views(v: Seq<JobTarget>) -> Seq<JobTargetView> {
    v.map_values(|t: JobTarget| t@)
}

fn specs_of(job: &Option<String>, jobs: &Option<Vec<String>>) -> (r: Result<Vec<String>, String>)
    ensures
        match r {
            Ok(v) => attach_specs(opt_view(*job), opt_views(*jobs)) == Ok::<Seq<Seq<char>>, Seq<char>>(views(v@)),
            Err(e) => attach_specs(opt_view(*job), opt_views(*jobs)) == Err::<Seq<Seq<char>>, Seq<char>>(e@),
        },
{
    match (job, jobs) {
        (Some(j), None) => {
            let mut v: Vec<String> = Vec::new();
            v.push(j.clone());
            proof {
                assert(views(v@) =~= seq![j@]);
            }
            Ok(v)
        },
        (None, Some(js)) => {
            if js.len() > 0 {
                Ok(copy_strings(js))
            } else {
                Err(owned(SPECS_ERROR))
            }
        },
        _ => Err(owned(SPECS_ERROR)),
    }
}

fn parse_targets(specs: &Vec<String>) -> (r: Result<Vec<JobTarget>, String>)
    ensures
        match r {
            Ok(v) => parsed_targets(views(specs@)) == Ok::<Seq<JobTargetView>, Seq<char>>(target_views(v@)),
            Err(e) => parsed_targets(views(specs@)) == Err::<Seq<JobTargetView>, Seq<char>>(e@),
        },
{
    let mut out: Vec<JobTarget> = Vec::new();
    let mut i: usize = 0;
    proof {
        assert(views(specs@.take(0)) =~= Seq::<Seq<char>>::empty());
        assert(target_views(out@) =~= Seq::<JobTargetView>::empty());
    }
    while i < specs.len()
        invariant
            i <= specs@.len(),
            parsed_targets(views(specs@.take(i as int))) == Ok::<Seq<JobTargetView>, Seq<char>>(target_views(out@)),
        decreases specs@.len() - i,
    {
        proof {
            assert(views(specs@.take(i + 1)).drop_last() =~= views(specs@.take(i as int)));
            assert(views(specs@.take(i + 1)).last() == specs@[i as int]@);
        }
        match JobTarget::parse(specs[i].as_str()) {
            Ok(t) => {
                let ghost before = out@;
                out.push(t);
                proof {
                    assert(target_views(out@) =~= target_views(before).push(out@.last()@));
                }
            },
            Err(e) => {
                proof {
                    assert(views(specs@.take(i + 1)) =~= views(specs@).take(i + 1));
                    lemma_parsed_targets_err_stays(views(specs@), (i + 1) as nat);
                }
                return Err(e);
            },
        }
        i = i + 1;
    }
    proof {
        assert(specs@.take(i as int) =~= specs@);
    }
    Ok(out)
}

/// An error on a prefix is the error of the whole.
proof fn lemma_parsed_targets_err_stays(specs: Seq<Seq<char>>, k: nat)
    requires
        k <= specs.len(),
        parsed_targets(specs.take(k as int)) is Err,
    ensures
        parsed_targets(specs) == parsed_targets(specs.take(k as int)),
    decreases specs.len() - k,
{
    if k < specs.len() {
        assert(specs.take(k as int + 1).drop_last() =~= specs.take(k as int));
        lemma_parsed_targets_err_stays(specs, k + 1);
    } else {
        assert(specs.take(k as int) =~= specs);
    }
}

/// An error on a prefix is the error of the whole.
proof fn lemma_first_invalid_stays(ps: Seq<Seq<char>>, k: nat)
    requires
        k <= ps.len(),
        first_invalid_pattern(ps.take(k as int)) is Some,
    ensures
        first_invalid_pattern(ps) == first_invalid_pattern(ps.take(k as int)),
    decreases ps.len() - k,
{
    if k < ps.len() {
        assert(ps.take(k as int + 1).drop_last() =~= ps.take(k as int));
        lemma_first_invalid_stays(ps, k + 1);
    } else {
        assert(ps.take(k as int) =~= ps);
    }
}

fn pair_log_paths(paths: &Vec<String>, n: usize) -> (r: Result<Vec<Vec<String>>, String>)
    requires
        n > 0,
    ensures
        match r {
            Ok(v) => v@.len() == n && (paired_log_paths(views(paths@), n as nat) matches Ok(ls)
                && ls.len() == n && forall|i: int| 0 <= i < n ==> #[trigger] views(v@[i]@) == ls[i]),
            Err(e) => paired_log_paths(views(paths@), n as nat) == Err::<Seq<Seq<Seq<char>>>, Seq<char>>(e@),
        },
{
    let mut out: Vec<Vec<String>> = Vec::new();
    if n == 1 {
        out.push(copy_strings(paths));
        return Ok(out);
    }
    if paths.len() == 0 {
        let mut i: usize = 0;
        while i < n
            invariant
                i <= n,
                out@.len() == i,
                forall|j: int| 0 <= j < i ==> (#[trigger] out@[j])@.len() == 0,
            decreases n - i,
        {
            out.push(Vec::new());
            i = i + 1;
        }
        proof {
            assert forall|j: int| 0 <= j < n implies #[trigger] views(out@[j]@) == Seq::<Seq<char>>::empty() by {
                assert(views(out@[j]@) =~= Seq::<Seq<char>>::empty());
            }
        }
        return Ok(out);
    }
    if paths.len() == n {
        let mut i: usize = 0;
        while i < n
            invariant
                i <= n,
                n == paths@.len(),
                out@.len() == i,
                forall|j: int| 0 <= j < i ==> #[trigger] views(out@[j]@) == seq![paths@[j]@],
            decreases n - i,
        {
            let mut one: Vec<String> = Vec::new();
            one.push(paths[i].clone());
            proof {
                assert(views(one@) =~= seq![paths@[i as int]@]);
            }
            out.push(one);
            i = i + 1;
        }
        return Ok(out);
    }
    let mut e = owned("with a `jobs` sweep, pass one log path per job in the same order (");
    push_decimal(&mut e, paths.len() as u64);
    push_str(&mut e, " paths for ");
    push_decimal(&mut e, n as u64);
    push_str(&mut e, " jobs)");
    Err(e)
}

fn check_patterns(ps: &Vec<String>) -> (r: Result<(), String>)
    ensures
        match r {
            Ok(_) => first_invalid_pattern(views(ps@)) is None,
            Err(e) => first_invalid_pattern(views(ps@)) == Some(e@),
        },
{
    let mut i: usize = 0;
    while i < ps.len()
        invariant
            i <= ps@.len(),
            first_invalid_pattern(views(ps@.take(i as int))) is None,
        decreases ps@.len() - i,
    {
        proof {
            assert(views(ps@.take(i + 1)).drop_last() =~= views(ps@.take(i as int)));
            assert(views(ps@.take(i + 1)).last() == ps@[i as int]@);
        }
        match validate_watch_pattern(ps[i].as_str()) {
            Ok(_) => {},
            Err(e) => {
                proof {
                    assert(views(ps@.take(i + 1)) =~= views(ps@).take(i + 1));
                    lemma_first_invalid_stays(views(ps@), (i + 1) as nat);
                }
                return Err(e);
            },
        }
        i = i + 1;
    }
    proof {
        assert(ps@.take(i as int) =~= ps@);
    }
    Ok(())
}

fn contains_string(v: &Vec<String>, s: &str) -> (r: bool)
    ensures
        r == views(v@).contains(s@),
{
    let mut i: usize = 0;
    while i < v.len()
        invariant
            i <= v@.len(),
            forall|j: int| 0 <= j < i ==> (#[trigger] v@[j])@ != s@,
        decreases v@.len() - i,
    {
        if same_text(v[i].as_str(), s) {
            proof {
                assert(views(v@)[i as int] == s@);
            }
            return true;
        }
        i = i + 1;
    }
    proof {
        if views(v@).contains(s@) {
            let j = choose|j: int| 0 <= j < views(v@).len() && views(v@)[j] == s@;
            assert(v@[j]@ == s@);
        }
    }
    false
}

fn merge_patterns(current: Vec<String>, config: &[String]) -> (r: Vec<String>)
    ensures
        views(r@) == merged_patterns(views(current@), views(config@)),
{
    let mut out = current;
    let ghost start = views(out@);
    let mut i: usize = 0;
    while i < config.len()
        invariant
            i <= config@.len(),
            views(out@) == merged_patterns(start, views(config@.take(i as int))),
        decreases config@.len() - i,
    {
        proof {
            assert(views(config@.take(i + 1)).drop_last() =~= views(config@.take(i as int)));
            assert(views(config@.take(i + 1)).last() == config@[i as int]@);
        }
        let p = &config[i];
        let valid = validate_watch_pattern(p.as_str()).is_ok();
        if valid && !contains_string(&out, p.as_str()) {
            let ghost before = out@;
            out.push(p.clone());
            proof {
                assert(views(out@) =~= views(before).push(p@));
            }
        }
        i = i + 1;
    }
    proof {
        assert(config@.take(i as int) =~= config@);
    }
    out
}

fn runtime_of(spec: &Option<String>) -> (r: Result<Option<u64>, String>)
    ensures
        match r {
            Ok(v) => attach_runtime(opt_view(*spec)) == Ok::<Option<u64>, Seq<char>>(v),
            Err(e) => attach_runtime(opt_view(*spec)) == Err::<Option<u64>, Seq<char>>(e@),
        },
{
    match spec {
        None => Ok(None),
        Some(s) => match parse_expected_runtime(s.as_str()) {
            Ok(v) => Ok(Some(v)),
            Err(e) => Err(e),
        },
    }
}

fn policy_of(p: &Option<String>, n: usize) -> (r: Result<WakePolicy, String>)
    ensures
        match r {
            Ok(v) => attach_policy(opt_view(*p), n as nat) == Ok::<WakePolicy, Seq<char>>(v),
            Err(e) => attach_policy(opt_view(*p), n as nat) == Err::<WakePolicy, Seq<char>>(e@),
        },
{
    match p {
        None => {
            if n > 1 {
                Ok(WakePolicy::Batch)
            } else {
                Ok(WakePolicy::Each)
            }
        },
        Some(s) => {
            if same_text(s.as_str(), "each") {
                Ok(WakePolicy::Each)
            } else if same_text(s.as_str(), "batch") {
                Ok(WakePolicy::Batch)
            } else {
                let mut e = owned("invalid wake_policy `");
                push_str(&mut e, s.as_str());
                push_str(&mut e, "`; use `each` or `batch`");
                Err(e)
            }
        },
    }
}

fn label_of(label: &Option<String>, multi: bool, i: usize) -> (r: Option<String>)
    requires
        i < usize::MAX,
    ensures
        opt_view(r) == attach_label(opt_view(*label), multi, i as nat),
{
    match label {
        Some(l) => {
            if multi {
                let mut s = l.clone();
                push_str(&mut s, " [");
                push_decimal(&mut s, (i + 1) as u64);
                push_str(&mut s, "]");
                Some(s)
            } else {
                Some(l.clone())
            }
        },
        None => None,
    }
}

/// The records a `job_attach` call registers at `at` (milliseconds since the
/// epoch), given the configured watch patterns, or the error it answers with.
pub fn plan_attach_at(args: &AttachArgs, config_patterns: &[String], at: i64) -> (r: Result<Vec<JobRecord>, String>)
    ensures
        match r {
            Ok(v) => attach_plan(args@, views(config_patterns@), at) == Ok::<Seq<JobRecordView>, Seq<char>>(record_views(v@)),
            Err(e) => attach_plan(args@, views(config_patterns@), at) == Err::<Seq<JobRecordView>, Seq<char>>(e@),
        },
{
    let specs = specs_of(&args.job, &args.jobs);
    let specs = match specs {
        Ok(s) => s,
        Err(e) => return Err(e),
    };
    let targets = match parse_targets(&specs) {
        Ok(t) => t,
        Err(e) => return Err(e),
    };
    let ghost ts = target_views(targets@);
    let n = targets.len();
    proof {
        lemma_parsed_targets_len(views(specs@));
    }
    let no_paths: Vec<String> = Vec::new();
    let paths_arg = match &args.log_paths {
        Some(p) => p,
        None => &no_paths,
    };
    proof {
        assert(views(no_paths@) =~= Seq::<Seq<char>>::empty());
    }
    let logs = match pair_log_paths(paths_arg, n) {
        Ok(l) => l,
        Err(e) => return Err(e),
    };
    let user_arg = match &args.watch_patterns {
        Some(p) => p,
        None => &no_paths,
    };
    match check_patterns(user_arg) {
        Ok(_) => {},
        Err(e) => return Err(e),
    }
    let runtime = match runtime_of(&args.expected_runtime) {
        Ok(r) => r,
        Err(e) => return Err(e),
    };
    let policy = match policy_of(&args.wake_policy, n) {
        Ok(p) => p,
        Err(e) => return Err(e),
    };
    let patterns = merge_patterns(copy_strings(user_arg), config_patterns);
    let ghost logs_spec = paired_log_paths(views(paths_arg@), n as nat)->Ok_0;
    let ghost want = attach_plan(args@, views(config_patterns@), at)->Ok_0;
    let mut out: Vec<JobRecord> = Vec::new();
    let mut i: usize = 0;
    while i < n
        invariant
            i <= n,
            n == targets@.len(),
            n == logs@.len(),
            ts == target_views(targets@),
            want.len() == n,
            logs_spec.len() == n,
            forall|j: int| 0 <= j < n ==> #[trigger] views(logs@[j]@) == logs_spec[j],
            forall|j: int| 0 <= j < n ==> #[trigger] want[j] == attached_record(
                ts[j],
                attach_label(opt_view(args.label), n > 1, j as nat),
                logs_spec[j],
                policy,
                runtime,
                views(patterns@),
                at,
            ),
            record_views(out@) == want.take(i as int),
        decreases n - i,
    {
        let label = label_of(&args.label, n > 1, i);
        let mut record = JobRecord::new_at(targets[i].copy(), label, copy_strings(&logs[i]), at);
        record.wake_policy = policy;
        record.expected_runtime_seconds = runtime;
        record.watch_patterns = copy_strings(&patterns);
        let ghost before = out@;
        proof {
            assert(record@.history =~= Seq::<crate::record::StateObservationView>::empty());
            assert(record@ == want[i as int]);
        }
        out.push(record);
        proof {
            assert(record_views(out@) =~= record_views(before).push(want[i as int]));
            assert(want.take(i + 1) =~= want.take(i as int).push(want[i as int]));
        }
        i = i + 1;
    }
    proof {
        assert(want.take(n as int) =~= want);
    }
    Ok(out)
}

proof fn lemma_parsed_targets_len(specs: Seq<Seq<char>>)
    ensures
        parsed_targets(specs) matches Ok(ts) ==> ts.len() == specs.len(),
    decreases specs.len(),
{
    if specs.len() > 0 {
        lemma_parsed_targets_len(specs.drop_last());
    }
}

/// The records a `job_attach` call registers now, or the error it answers
/// with.
pub fn plan_attach(args: &AttachArgs, config_patterns: &[String]) -> (r: Result<Vec<JobRecord>, String>)
    ensures
        exists|at: i64|
            match r {
                Ok(v) => #[trigger] attach_plan(args@, views(config_patterns@), at) == Ok::<Seq<JobRecordView>, Seq<char>>(record_views(v@)),
                Err(e) => #[trigger] attach_plan(args@, views(config_patterns@), at) == Err::<Seq<JobRecordView>, Seq<char>>(e@),
            },
{
    plan_attach_at(args, config_patterns, now_millis())
}


/// Merging configured patterns keeps the current ones first, in order.
pub proof fn lemma_merged_keeps_current(current: Seq<Seq<char>>, config: Seq<Seq<char>>)
    ensures
        merged_patterns(current, config).len() >= current.len(),
        merged_patterns(current, config).take(current.len() as int) == current,
    decreases config.len(),
{
    if config.len() > 0 {
        lemma_merged_keeps_current(current, config.drop_last());
        let prev = merged_patterns(current, config.drop_last());
        assert(prev.push(config.last()).take(current.len() as int) =~= prev.take(current.len() as int));
    }
}

/// Every record a `job_attach` call registers is fresh (no history, no
/// notification marks) and attached at the same time; all share the wake
/// policy, expected runtime and watch patterns, which begin with the
/// patterns the call passed. Without an explicit policy a sweep wakes as a
/// batch and a single job on its own.
pub proof fn lemma_attach_plan(args: AttachArgsView, config: Seq<Seq<char>>, at: i64)
    ensures
        attach_plan(args, config, at) matches Ok(rs) ==> {
            &&& rs.len() > 0
            &&& forall|i: int| 0 <= i < rs.len() ==> {
                let r = #[trigger] rs[i];
                &&& r.history.len() == 0
                &&& r.notified_at is None
                &&& r.suspicious_signature is None
                &&& !r.overrun_notified
                &&& r.attached_at == at
                &&& r.wake_policy == rs[0].wake_policy
                &&& r.expected_runtime_seconds == rs[0].expected_runtime_seconds
                &&& r.watch_patterns == rs[0].watch_patterns
            }
            &&& args.wake_policy is None ==> rs[0].wake_policy == (if rs.len() > 1 {
                WakePolicy::Batch
            } else {
                WakePolicy::Each
            })
            &&& rs[0].watch_patterns.take(unwrap_or_empty(args.watch_patterns).len() as int)
                == unwrap_or_empty(args.watch_patterns)
        },
{
    if attach_plan(args, config, at) is Ok {
        let specs = attach_specs(args.job, args.jobs)->Ok_0;
        lemma_parsed_targets_len(specs);
        lemma_merged_keeps_current(unwrap_or_empty(args.watch_patterns), config);
    }
}

} // verus!
