use job_monitor::snapshot::suspicious_signature;
use job_monitor::watcher::session_start_briefing;
use job_monitor::watcher::compact_now;
use job_monitor::watcher::reaches_check_in_at;
use job_monitor::watcher::should_compact_before_wake;
use job_monitor::watcher::wake_decision;
use job_monitor::watcher::wake_marked_record;
use job_monitor::watcher::wake_message;
use job_monitor::watcher::watched_records;
use job_monitor::watcher::WakeCause;
use job_monitor::watcher::WatchAction;
use job_monitor::watcher::WatchState;
use job_monitor::watcher::watch_step;
use job_monitor::watcher::COMPACT_BEFORE_WAKE_MIN_TOKENS;
use job_monitor::JobRecord;
use job_monitor::JobSnapshot;
use job_monitor::JobState;
use job_monitor::JobTarget;
use job_monitor::LogTail;
use job_monitor::WakePolicy;

const SECOND: u128 = 1_000_000_000;

fn snapshot(state: JobState, suspicious: Vec<String>) -> JobSnapshot {
    snapshot_for_pid(42, state, suspicious)
}

fn snapshot_for_pid(pid: u32, state: JobState, suspicious: Vec<String>) -> JobSnapshot {
    let mut record = JobRecord::new(JobTarget::Pid { pid }, None, Vec::new());
    record.observe(state.clone());
    JobSnapshot {
        record,
        state,
        log_tails: vec![LogTail {
            path: "/tmp/run.log".to_string(),
            file_len: 100,
            tail: String::new(),
            suspicious_lines: suspicious,
        }],
    }
}

fn reason_of(decision: Option<(String, WakeCause)>) -> Option<String> {
    decision.map(|(reason, _)| reason)
}

#[test]
fn terminal_state_wakes_and_check_in_wakes_after_interval() {
    let mut check_in = None;
    let decision = wake_decision(&[snapshot(JobState::completed(), Vec::new())], 0, &mut check_in);
    let (reason, cause) = decision.expect("terminal job wakes");
    assert_eq!(reason, "pid:42 reached terminal state COMPLETED");
    assert_eq!(cause, WakeCause::Terminal { indices: vec![0] });

    let running = [snapshot(JobState::active("RUNNING"), Vec::new())];
    let mut check_in = Some(600 * SECOND);
    assert_eq!(reason_of(wake_decision(&running, 60 * SECOND, &mut check_in)), None);
    let (reason, cause) =
        wake_decision(&running, 700 * SECOND, &mut check_in).expect("check-in interval elapsed");
    assert_eq!(reason, "check-in: jobs still running after 11 min idle");
    assert_eq!(cause, WakeCause::CheckIn);
    // The next check-in threshold moved forward.
    assert_eq!(check_in, Some(1200 * SECOND));
}

#[test]
fn batch_jobs_wake_together_but_failures_wake_immediately() {
    let batch = |pid: u32, state: JobState| {
        let mut snapshot = snapshot_for_pid(pid, state, Vec::new());
        snapshot.record.wake_policy = WakePolicy::Batch;
        snapshot
    };

    // One sweep member done, one still running: stay parked.
    let partial = [batch(1, JobState::completed()), batch(2, JobState::active("RUNNING"))];
    assert_eq!(reason_of(wake_decision(&partial, 0, &mut None)), None);

    // A failed member wakes at once, and only it is marked notified.
    let failed = [batch(1, JobState::failed("FAILED")), batch(2, JobState::active("RUNNING"))];
    let (reason, cause) = wake_decision(&failed, 0, &mut None).expect("failure wakes");
    assert_eq!(reason, "pid:1 reached terminal state FAILED");
    assert_eq!(cause, WakeCause::Terminal { indices: vec![0] });

    // The whole sweep terminal wakes once for all members.
    let done = [batch(1, JobState::completed()), batch(2, JobState::completed())];
    let (reason, cause) = wake_decision(&done, 0, &mut None).expect("batch done");
    assert_eq!(reason, "all 2 batch jobs reached terminal states");
    assert_eq!(cause, WakeCause::BatchComplete { indices: vec![0, 1] });
}

#[test]
fn suspicious_logs_wake_once_per_signature() {
    let mut fresh = snapshot(
        JobState::active("RUNNING"),
        vec!["energy is NaN at step 2".to_string()],
    );
    let (reason, cause) = wake_decision(std::slice::from_ref(&fresh), 0, &mut None)
        .expect("new suspicious lines wake");
    assert_eq!(reason, "suspicious log lines appeared for pid:42");
    assert_eq!(cause, WakeCause::Suspicious { indices: vec![0] });

    // Once the signature is recorded, the same lines no longer wake.
    fresh.record.suspicious_signature = Some(suspicious_signature(&fresh));
    assert_eq!(reason_of(wake_decision(std::slice::from_ref(&fresh), 0, &mut None)), None);
}

#[test]
fn runtime_overrun_wakes_once() {
    let mut overdue = snapshot(JobState::active("RUNNING"), Vec::new());
    overdue.record.expected_runtime_seconds = Some(60);
    // Backdate the RUNNING observation to three expected runtimes ago.
    let started = chrono::Utc::now().timestamp_millis() - 180_000;
    overdue.record.history[0].at = started;

    let (reason, cause) = wake_decision(std::slice::from_ref(&overdue), 0, &mut None)
        .expect("overrun wakes");
    assert!(
        reason.starts_with("pid:42 has been running 3.")
            && reason.ends_with("its expected runtime; check for a hang"),
        "unexpected overrun reason: {reason}"
    );
    assert_eq!(cause, WakeCause::Overrun { indices: vec![0] });

    // Marked overruns stay silent.
    overdue.record.overrun_notified = true;
    assert_eq!(reason_of(wake_decision(std::slice::from_ref(&overdue), 0, &mut None)), None);
}

#[test]
fn wake_message_is_minimal_and_actionable() {
    let message = wake_message("pid:42 reached terminal state EXITED");
    assert_eq!(
        message,
        "[job monitor] pid:42 reached terminal state EXITED. Update memory.md and continue the workflow."
    );
}

#[test]
fn compact_before_wake_gates_on_flag_and_context_size() {
    // Disabled by config: never compacts.
    assert!(!should_compact_before_wake(false, Some(200_000)));
    // No usage recorded yet (nothing to compact).
    assert!(!should_compact_before_wake(true, None));
    // Small histories are left intact: the raw detail beats the summary.
    assert!(!should_compact_before_wake(true, Some(COMPACT_BEFORE_WAKE_MIN_TOKENS - 1)));
    // Large histories compact so the wake turn starts small.
    assert!(should_compact_before_wake(true, Some(COMPACT_BEFORE_WAKE_MIN_TOKENS)));
}

#[test]
fn marked_records_do_not_wake_again() {
    let done = snapshot(JobState::completed(), vec!["Traceback (most recent call last):".to_string()]);
    let (_, cause) = wake_decision(std::slice::from_ref(&done), 0, &mut None).expect("terminal wakes");
    let marked = wake_marked_record(&done, &cause, 1_234);
    assert_eq!(marked.notified_at, Some(1_234));
    assert_eq!(marked.suspicious_signature, Some(suspicious_signature(&done)));
    // A notified record is no longer watched.
    let kept = watched_records(vec![marked, done.record.clone()]);
    assert_eq!(kept, vec![done.record.clone()]);
}

#[test]
fn watcher_wakes_up_to_the_cap() {
    let done = [snapshot(JobState::completed(), Vec::new())];
    let mut state = WatchState::new(None);
    match watch_step(&mut state, &done, 1, 5_000) {
        WatchAction::Wake { message, marked } => {
            assert_eq!(
                message,
                "[job monitor] pid:42 reached terminal state COMPLETED. Update memory.md and continue the workflow."
            );
            assert_eq!(marked.len(), 1);
            assert_eq!(marked[0].notified_at, Some(5_000));
        }
        _ => panic!("terminal job wakes"),
    }
    assert_eq!(state.auto_continues, 1);
    assert!(matches!(watch_step(&mut state, &done, 1, 6_000), WatchAction::Stop));

    let running = [snapshot(JobState::active("RUNNING"), Vec::new())];
    let mut state = WatchState::new(Some(600 * SECOND));
    assert!(matches!(
        watch_step(&mut state, &running, 50, 6_000),
        WatchAction::Sleep { nanos: 15_000_000_000 }
    ));
    state.slept();
    assert_eq!(state.idle_for, 15 * SECOND);
    assert_eq!(state.poll_interval, 22_500_000_000);
    state.restart(Some(600 * SECOND));
    assert_eq!(state.idle_for, 0);
    assert_eq!(state.poll_interval, 15 * SECOND);
}

#[test]
fn briefing_lists_tracked_jobs() {
    let mut first = JobRecord::new(JobTarget::Slurm { job_id: "12345".to_string() }, Some("meep".to_string()), Vec::new());
    first.observe(JobState::active("RUNNING"));
    let second = JobRecord::new(JobTarget::Pid { pid: 7 }, None, Vec::new());
    assert_eq!(
        session_start_briefing(&[first, second]),
        "[jobs] 2 tracked job(s) from earlier work: slurm:12345 (meep) last seen RUNNING; pid:7 last seen never probed. jobs.job_status re-probes them."
    );
}

#[test]
fn compaction_needs_a_live_idle_session() {
    assert!(compact_now(true, true, Some(60_000), true));
    assert!(!compact_now(false, true, Some(60_000), true));
    assert!(!compact_now(true, true, Some(60_000), false));
    assert!(!compact_now(true, false, Some(60_000), true));
    assert!(!compact_now(true, true, Some(10), true));
}

#[test]
fn a_terminal_job_wakes_before_a_huge_check_in_would_double() {
    let idle = job_monitor::polling::MAX_DURATION_NANOS;
    let done = [snapshot(JobState::completed(), Vec::new())];
    assert!(!reaches_check_in_at(&done, 0));
    let mut check_in = Some(idle);
    let (reason, _) = wake_decision(&done, idle, &mut check_in).expect("terminal job wakes");
    assert_eq!(reason, "pid:42 reached terminal state COMPLETED");
    assert_eq!(check_in, Some(idle));

    let running = [snapshot(JobState::active("RUNNING"), Vec::new())];
    assert!(reaches_check_in_at(&running, 0));
}
