use job_monitor::attach::plan_attach_at;
use job_monitor::attach::AttachArgs;
use job_monitor::awaiting::await_step;
use job_monitor::awaiting::await_stop;
use job_monitor::awaiting::AwaitAction;
use job_monitor::awaiting::AwaitState;
use job_monitor::awaiting::TokenLog;
use job_monitor::tools::attach_reply;
use job_monitor::tools::await_budget_seconds;
use job_monitor::tools::await_notice_text;
use job_monitor::tools::await_reply;
use job_monitor::tools::format_duration_secs;
use job_monitor::tools::format_snapshot;
use job_monitor::tools::reported_record_at;
use job_monitor::tools::status_reply;
use job_monitor::tools::Interruption;
use job_monitor::tools::JobAttachHandler;
use job_monitor::tools::JobAwaitHandler;
use job_monitor::tools::JobStatusHandler;
use job_monitor::JobRecord;
use job_monitor::JobSnapshot;
use job_monitor::JobState;
use job_monitor::JobTarget;
use job_monitor::LogTail;
use job_monitor::WakePolicy;

fn args() -> AttachArgs {
    AttachArgs {
        job: None,
        jobs: None,
        label: None,
        log_paths: None,
        expected_runtime: None,
        watch_patterns: None,
        wake_policy: None,
    }
}

fn snapshot_at(pid: u32, state: JobState, at: i64) -> JobSnapshot {
    let mut record = JobRecord::new_at(JobTarget::Pid { pid }, None, Vec::new(), 0);
    record.observe_at(state.clone(), at);
    JobSnapshot { record, state, log_tails: Vec::new() }
}

#[test]
fn durations_read_naturally() {
    assert_eq!(format_duration_secs(0), "0s");
    assert_eq!(format_duration_secs(119), "119s");
    assert_eq!(format_duration_secs(120), "2m");
    assert_eq!(format_duration_secs(7199), "119m");
    assert_eq!(format_duration_secs(7200), "2.0h");
    assert_eq!(format_duration_secs(9000), "2.5h");
    assert_eq!(format_duration_secs(12_600), "3.5h");
    assert_eq!(format_duration_secs(12_900), "3.6h");
}

#[test]
fn snapshot_report_shows_state_history_and_tail() {
    let mut snapshot = snapshot_at(42, JobState::active("RUNNING"), 0);
    snapshot.record.label = Some("meep".to_string());
    snapshot.log_tails = vec![LogTail {
        path: "/tmp/run.log".to_string(),
        file_len: 120,
        tail: "step 1\nNaN\n".to_string(),
        suspicious_lines: vec!["NaN".to_string()],
    }];
    assert_eq!(
        format_snapshot(&snapshot, 1_000),
        "pid:42 (meep): RUNNING [Active]\n\
         state history (newest first):\n  1970-01-01T00:00:00Z RUNNING\n\
         suspicious lines in /tmp/run.log:\n  NaN\n\
         log tail of /tmp/run.log (120 bytes total):\nstep 1\nNaN\n\n"
    );
}

#[test]
fn snapshot_report_flags_overruns() {
    let mut snapshot = snapshot_at(7, JobState::active("RUNNING"), 0);
    snapshot.record.expected_runtime_seconds = Some(60);
    assert_eq!(
        format_snapshot(&snapshot, 150_000),
        "pid:7: RUNNING [Active]\n\
         runtime: 2m of ~60s expected \u{2014} 2.5x over; check for a hang\n\
         state history (newest first):\n  1970-01-01T00:00:00Z RUNNING\n"
    );
    assert_eq!(
        format_snapshot(&snapshot, 90_000),
        "pid:7: RUNNING [Active]\n\
         runtime: 90s of ~60s expected\n\
         state history (newest first):\n  1970-01-01T00:00:00Z RUNNING\n"
    );
}

#[test]
fn attach_plans_a_single_job() {
    let mut a = args();
    a.job = Some("slurm:12345".to_string());
    a.label = Some("meep production".to_string());
    a.log_paths = Some(vec!["/scratch/a.log".to_string(), "/scratch/b.log".to_string()]);
    a.expected_runtime = Some("45m".to_string());
    a.watch_patterns = Some(vec!["phase flip".to_string()]);
    let config = vec!["not converged".to_string(), "phase flip".to_string(), "(".to_string()];
    let records = plan_attach_at(&a, &config, 77).expect("valid attach");
    assert_eq!(records.len(), 1);
    let r = &records[0];
    assert_eq!(r.target, JobTarget::Slurm { job_id: "12345".to_string() });
    assert_eq!(r.label.as_deref(), Some("meep production"));
    assert_eq!(r.log_paths, vec!["/scratch/a.log".to_string(), "/scratch/b.log".to_string()]);
    assert_eq!(r.expected_runtime_seconds, Some(2700));
    assert_eq!(r.wake_policy, WakePolicy::Each);
    assert_eq!(r.watch_patterns, vec!["phase flip".to_string(), "not converged".to_string()]);
    assert_eq!(r.attached_at, 77);
    assert!(r.history.is_empty());
}

#[test]
fn attach_plans_a_sweep() {
    let mut a = args();
    a.jobs = Some(vec!["slurm:1".to_string(), "pid:2".to_string()]);
    a.label = Some("sweep".to_string());
    a.log_paths = Some(vec!["1.log".to_string(), "2.log".to_string()]);
    let records = plan_attach_at(&a, &[], 0).expect("valid sweep");
    assert_eq!(records.len(), 2);
    assert_eq!(records[0].label.as_deref(), Some("sweep [1]"));
    assert_eq!(records[1].label.as_deref(), Some("sweep [2]"));
    assert_eq!(records[1].log_paths, vec!["2.log".to_string()]);
    assert_eq!(records[0].wake_policy, WakePolicy::Batch);
    assert_eq!(records[1].wake_policy, WakePolicy::Batch);

    a.log_paths = None;
    a.wake_policy = Some("each".to_string());
    let records = plan_attach_at(&a, &[], 0).expect("valid sweep");
    assert!(records[0].log_paths.is_empty());
    assert_eq!(records[0].wake_policy, WakePolicy::Each);
}

#[test]
fn attach_errors_are_exact() {
    let a = args();
    assert_eq!(
        plan_attach_at(&a, &[], 0).err().as_deref(),
        Some("pass exactly one of `job` (single) or a non-empty `jobs` list (sweep)")
    );
    let mut a = args();
    a.jobs = Some(Vec::new());
    assert!(plan_attach_at(&a, &[], 0).is_err());
    let mut a = args();
    a.jobs = Some(vec!["slurm:1".to_string(), "pbs:2".to_string()]);
    assert_eq!(
        plan_attach_at(&a, &[], 0).err().as_deref(),
        Some("job spec `pbs:2` must look like slurm:<id> or pid:<pid>")
    );
    let mut a = args();
    a.jobs = Some(vec!["slurm:1".to_string(), "slurm:2".to_string()]);
    a.log_paths = Some(vec!["only.log".to_string()]);
    assert_eq!(
        plan_attach_at(&a, &[], 0).err().as_deref(),
        Some("with a `jobs` sweep, pass one log path per job in the same order (1 paths for 2 jobs)")
    );
    let mut a = args();
    a.job = Some("pid:3".to_string());
    a.wake_policy = Some("sometimes".to_string());
    assert_eq!(
        plan_attach_at(&a, &[], 0).err().as_deref(),
        Some("invalid wake_policy `sometimes`; use `each` or `batch`")
    );
    let mut a = args();
    a.job = Some("pid:3".to_string());
    a.watch_patterns = Some(vec!["(".to_string()]);
    let err = plan_attach_at(&a, &[], 0).err().expect("bad pattern");
    assert!(err.starts_with("invalid watch pattern `(`: "), "{err}");
    let mut a = args();
    a.job = Some("pid:3".to_string());
    a.expected_runtime = Some("soon".to_string());
    assert_eq!(
        plan_attach_at(&a, &[], 0).err().as_deref(),
        Some("invalid expected_runtime `soon`; use e.g. 90s, 45m, 6h, 2d")
    );
}

#[test]
fn attach_reply_advises_what_to_do_next() {
    let running = snapshot_at(5, JobState::active("RUNNING"), 0);
    let text = attach_reply(std::slice::from_ref(&running), WakePolicy::Each, 0);
    assert!(text.starts_with("Attached pid:5.\npid:5: RUNNING [Active]\n"), "{text}");
    assert!(text.ends_with("\nCall jobs.job_await to wait for completion.\n"), "{text}");
    let text = attach_reply(std::slice::from_ref(&running), WakePolicy::Batch, 0);
    assert!(text.ends_with("when the whole sweep is done.\n"), "{text}");
    let dead = snapshot_at(6, JobState::completed(), 0);
    let text = attach_reply(&[running, dead], WakePolicy::Batch, 0);
    assert!(text.ends_with("\nA job is already terminal: diagnose or resubmit instead of awaiting.\n"), "{text}");
}

#[test]
fn status_reply_lists_snapshots_or_says_none() {
    assert_eq!(
        status_reply(&[], 0),
        "No jobs are attached in this thread. Submit via the shell, then jobs.job_attach."
    );
    let one = snapshot_at(5, JobState::active("PENDING"), 0);
    assert_eq!(
        status_reply(std::slice::from_ref(&one), 0),
        format!("{}\n", format_snapshot(&one, 0))
    );
}

#[test]
fn await_budget_is_clamped() {
    assert_eq!(await_budget_seconds(None), 1800);
    assert_eq!(await_budget_seconds(Some(0)), 1);
    assert_eq!(await_budget_seconds(Some(600)), 600);
    assert_eq!(await_budget_seconds(Some(1_000_000)), 43_200);
}

#[test]
fn await_notice_names_at_most_five_jobs() {
    let records: Vec<JobRecord> = (1..=7)
        .map(|pid| JobRecord::new_at(JobTarget::Pid { pid }, None, Vec::new(), 0))
        .collect();
    assert_eq!(
        await_notice_text(&records, 1800),
        "[jobs] awaiting pid:1, pid:2, pid:3, pid:4, pid:5 and 2 more; budget 1800s, polling 15s\u{2192}300s; new input interrupts the wait"
    );
}

#[test]
fn await_stops_on_terminal_and_batch_rules() {
    let done = snapshot_at(1, JobState::completed(), 0);
    let running = snapshot_at(2, JobState::active("RUNNING"), 0);
    assert_eq!(
        await_stop(&[running.clone(), done.clone()], 0, 0).as_deref(),
        Some("pid:1 reached terminal state COMPLETED")
    );
    let mut b_done = done.clone();
    b_done.record.wake_policy = WakePolicy::Batch;
    let mut b_running = running.clone();
    b_running.record.wake_policy = WakePolicy::Batch;
    assert_eq!(await_stop(&[b_done.clone(), b_running.clone()], 0, 0), None);
    let mut b_done2 = b_done.clone();
    b_done2.record.target = JobTarget::Pid { pid: 3 };
    assert_eq!(
        await_stop(&[b_done.clone(), b_done2], 0, 0).as_deref(),
        Some("all 2 batch jobs reached terminal states")
    );
    let unknown = snapshot_at(4, JobState::unknown(), 0);
    assert_eq!(await_stop(std::slice::from_ref(&unknown), 2, 0), None);
    assert_eq!(
        await_stop(std::slice::from_ref(&unknown), 3, 0).as_deref(),
        Some("no usable scheduler answer 3 polls in a row (sacct/squeue failing or timing out); check the scheduler, then job_await again")
    );
}

#[test]
fn await_steps_sleep_back_off_and_stop() {
    let pending = snapshot_at(9, JobState::active("PENDING"), 0);
    let mut state = AwaitState::start();
    let (events, action) = await_step(&mut state, std::slice::from_ref(&pending), 0, 1800, false, 0);
    assert!(events.is_empty());
    assert!(matches!(action, AwaitAction::Sleep { nanos: 15_000_000_000 }));
    assert_eq!(state.poll_interval, 22_500_000_000);

    // A transition is announced and resets the interval.
    let running = snapshot_at(9, JobState::active("RUNNING"), 0);
    let (events, action) =
        await_step(&mut state, std::slice::from_ref(&running), 180_000_000_000, 1800, false, 0);
    assert_eq!(events, vec!["[jobs] pid:9 PENDING \u{2192} RUNNING (3m elapsed)".to_string()]);
    assert!(matches!(action, AwaitAction::Sleep { nanos: 15_000_000_000 }));

    // The sleep never outlasts the budget.
    let (_, action) =
        await_step(&mut state, std::slice::from_ref(&running), 1_795_000_000_000, 1800, false, 0);
    assert!(matches!(action, AwaitAction::Sleep { nanos: 5_000_000_000 }));
    let (_, action) =
        await_step(&mut state, std::slice::from_ref(&running), 1_800_000_000_000, 1800, false, 0);
    match action {
        AwaitAction::Stop { reason } => assert_eq!(
            reason.as_deref(),
            Some("wait budget of 1800s elapsed; jobs are still running \u{2014} call job_await again")
        ),
        _ => panic!("budget elapsed"),
    }
    // New input stops the wait.
    let mut state = AwaitState::start();
    let (_, action) = await_step(&mut state, std::slice::from_ref(&running), 0, 1800, true, 0);
    assert!(matches!(action, AwaitAction::Stop { reason: None }));
}

#[test]
fn await_reply_explains_and_rounds_the_wait() {
    let one = snapshot_at(5, JobState::completed(), 0);
    let text = await_reply(None, Some("pid:5 reached terminal state COMPLETED".to_string()), 2_500_000_000, std::slice::from_ref(&one), 0);
    assert_eq!(
        text,
        format!("pid:5 reached terminal state COMPLETED\nWaited 2s.\n{}\n", format_snapshot(&one, 0))
    );
    let text = await_reply(Some(Interruption::Steer), None, 3_500_000_000, &[], 0);
    assert_eq!(text, "Wait interrupted by new user input.\nWaited 4s.\n");
    let text = await_reply(None, None, 0, &[], 0);
    assert_eq!(text, "wait ended\nWaited 0s.\n");
    let text = await_reply(Some(Interruption::Mailbox), Some("ignored".to_string()), 1_499_999_999, &[], 0);
    assert!(text.starts_with("Wait interrupted by an incoming agent message;"), "{text}");
    assert!(text.ends_with("\nWaited 1s.\n"), "{text}");
}

#[test]
fn replies_mark_what_they_showed() {
    let running = snapshot_at(5, JobState::active("RUNNING"), 0);
    assert!(reported_record_at(&running, 10).is_none());
    let done = snapshot_at(5, JobState::completed(), 0);
    let marked = reported_record_at(&done, 10).expect("terminal is shown");
    assert_eq!(marked.notified_at, Some(10));
    assert!(!marked.overrun_notified);
    let mut overdue = snapshot_at(5, JobState::active("RUNNING"), 0);
    overdue.record.expected_runtime_seconds = Some(10);
    let marked = reported_record_at(&overdue, 30_000).expect("overrun is shown");
    assert!(marked.overrun_notified);
    assert_eq!(marked.notified_at, None);
}

#[test]
fn token_log_replaces_per_key() {
    let mut log = TokenLog::new();
    assert_eq!(log.insert("pid:1".to_string(), "PENDING".to_string()), None);
    assert_eq!(log.insert("pid:2".to_string(), "RUNNING".to_string()), None);
    assert_eq!(
        log.insert("pid:1".to_string(), "RUNNING".to_string()),
        Some("PENDING".to_string())
    );
    assert_eq!(
        log.insert("pid:1".to_string(), "COMPLETED".to_string()),
        Some("RUNNING".to_string())
    );
}

#[test]
fn handlers_name_their_tools() {
    assert_eq!(JobAttachHandler.tool_name(), ("jobs", "job_attach"));
    assert_eq!(JobStatusHandler.tool_name(), ("jobs", "job_status"));
    assert_eq!(JobAwaitHandler.tool_name(), ("jobs", "job_await"));
}

#[test]
fn tool_definitions_list_their_parameters() {
    let attach = JobAttachHandler.definition();
    assert_eq!(attach.namespace, "jobs");
    assert_eq!(attach.name, "job_attach");
    let names: Vec<&str> = attach.parameters.iter().map(|p| p.name).collect();
    assert_eq!(
        names,
        vec!["expected_runtime", "job", "jobs", "label", "log_paths", "wake_policy", "watch_patterns"]
    );
    let status = JobStatusHandler.definition();
    assert_eq!(status.parameters.len(), 1);
    assert!(status.description.starts_with("Instantly report the current state"));
    let waiting = JobAwaitHandler.definition();
    assert_eq!(waiting.parameters[1].name, "max_wait_seconds");
    assert_eq!(
        waiting.parameters[1].description,
        "Wait budget for this call in seconds (default 1800, max 43200). On expiry the call returns `still running`; simply call job_await again."
    );
}

#[test]
fn await_start_holds_the_recorded_tokens() {
    let pending = snapshot_at(9, JobState::active("PENDING"), 0);
    let mut state = AwaitState::start_with(std::slice::from_ref(&pending.record));
    // The first poll already sees the job running: a transition.
    let running = snapshot_at(9, JobState::active("RUNNING"), 0);
    let (events, _) = await_step(&mut state, std::slice::from_ref(&running), 0, 1800, false, 0);
    assert_eq!(events, vec!["[jobs] pid:9 PENDING \u{2192} RUNNING (0m elapsed)".to_string()]);
}

#[test]
fn quiet_wait_sleeps_exactly_the_budget() {
    let running = snapshot_at(9, JobState::active("RUNNING"), 0);
    let mut state = AwaitState::start_with(std::slice::from_ref(&running.record));
    let mut elapsed: u128 = 0;
    loop {
        let (_, action) = await_step(&mut state, std::slice::from_ref(&running), elapsed, 1800, false, 0);
        match action {
            AwaitAction::Sleep { nanos } => elapsed += nanos,
            AwaitAction::Stop { reason } => {
                assert_eq!(
                    reason.as_deref(),
                    Some("wait budget of 1800s elapsed; jobs are still running \u{2014} call job_await again")
                );
                break;
            }
        }
    }
    assert_eq!(elapsed, 1_800_000_000_000);
}

#[test]
fn await_with_no_attached_jobs_is_refused() {
    match AwaitState::await_start(&[]) {
        Err(message) => assert_eq!(
            message,
            "no jobs are attached in this thread; submit via the shell, then jobs.job_attach"
        ),
        Ok(_) => panic!("an empty wait must be refused"),
    }
    let running = snapshot_at(9, JobState::active("RUNNING"), 0);
    let state = AwaitState::await_start(std::slice::from_ref(&running.record)).expect("one job");
    assert_eq!(state.consecutive_unknown, 0);
}
