use job_monitor::record::RuntimeRatio;
use job_monitor::JobRecord;
use job_monitor::JobSnapshot;
use job_monitor::StateObservation;
use job_monitor::JobState;
use job_monitor::JobTarget;

fn now_millis() -> i64 {
    chrono::Utc::now().timestamp_millis()
}

#[test]
fn parses_job_specs() {
    assert_eq!(
        JobTarget::parse("slurm:12345"),
        Ok(JobTarget::Slurm {
            job_id: "12345".to_string()
        })
    );
    assert_eq!(
        JobTarget::parse("pid:4242"),
        Ok(JobTarget::Pid { pid: 4242 })
    );
    assert!(JobTarget::parse("12345").is_err());
    assert!(JobTarget::parse("pid:0").is_err());
    assert!(JobTarget::parse("pbs:1").is_err());
    assert!(JobTarget::parse("slurm:not a job").is_err());
}

#[test]
fn observe_collapses_consecutive_duplicates() {
    let mut record = JobRecord::new(
        JobTarget::Pid { pid: 7 },
        Some("acquisition".to_string()),
        Vec::new(),
    );
    record.observe(JobState::active("RUNNING"));
    record.observe(JobState::active("RUNNING"));
    record.observe(JobState::completed());
    assert_eq!(record.history.len(), 2);
    assert_eq!(record.latest_state(), Some(&JobState::completed()));
}

#[test]
fn runtime_ratio_counts_from_the_first_running_observation() {
    let mut record = JobRecord::new(JobTarget::Pid { pid: 7 }, None, Vec::new());
    record.expected_runtime_seconds = Some(100);
    // Not yet observed running: no ratio.
    assert_eq!(record.runtime_ratio(now_millis()), None);
    // Queue time does not count.
    record.observe(JobState::active("PENDING"));
    assert_eq!(record.runtime_ratio(now_millis()), None);
    record.observe(JobState::active("RUNNING"));
    record.history.last_mut().expect("running observation").at = now_millis() - 250_000;
    let ratio = record
        .runtime_ratio(now_millis())
        .expect("ratio once running");
    let ratio = ratio.elapsed_millis as f64 / 1000.0 / ratio.expected_seconds as f64;
    assert!((2.4..2.7).contains(&ratio), "unexpected ratio {ratio}");
}

#[test]
fn history_is_capped() {
    let mut record = JobRecord::new(JobTarget::Pid { pid: 7 }, None, Vec::new());
    for step in 0..300 {
        record.observe(JobState::active(&format!("S{step}")));
    }
    assert_eq!(record.history.len(), 100);
    // The newest observations survive.
    assert_eq!(record.latest_state(), Some(&JobState::active("S299")));
}

#[test]
fn target_keys_and_display_forms() {
    let slurm = JobTarget::Slurm { job_id: "900_2".to_string() };
    assert_eq!(slurm.key(), "slurm-900_2");
    assert_eq!(slurm.display(), "slurm:900_2");
    let pid = JobTarget::Pid { pid: 4242 };
    assert_eq!(pid.key(), "pid-4242");
    assert_eq!(pid.display(), "pid:4242");
    // The display form parses back to the target.
    assert_eq!(JobTarget::parse(&slurm.display()), Ok(slurm));
    assert_eq!(JobTarget::parse(&pid.display()), Ok(pid));
}

#[test]
fn parse_errors_name_the_spec() {
    assert_eq!(
        JobTarget::parse("12345"),
        Err("job spec `12345` must look like slurm:<id> or pid:<pid>".to_string())
    );
    assert_eq!(
        JobTarget::parse("pid:0"),
        Err("invalid pid in job spec `pid:0`".to_string())
    );
    assert_eq!(
        JobTarget::parse(" pid : 17 "),
        Ok(JobTarget::Pid { pid: 17 })
    );
    assert_eq!(
        JobTarget::parse("pid:4294967296"),
        Err("invalid pid in job spec `pid:4294967296`".to_string())
    );
}

#[test]
fn observe_at_records_the_time_and_run_start() {
    let mut record = JobRecord::new_at(JobTarget::Pid { pid: 9 }, None, Vec::new(), 1_000);
    assert_eq!(record.attached_at, 1_000);
    record.observe_at(JobState::active("PENDING"), 2_000);
    record.observe_at(JobState::active("RUNNING"), 5_000);
    record.observe_at(JobState::active("RUNNING"), 9_000);
    assert_eq!(record.history.len(), 2);
    assert_eq!(record.history[1].at, 5_000);
    assert_eq!(record.run_started_at(), Some(5_000));
    record.expected_runtime_seconds = Some(10);
    assert_eq!(
        record.runtime_ratio(35_500),
        Some(RuntimeRatio { elapsed_millis: 30_500, expected_seconds: 10 })
    );
    // Before the start, no time has elapsed.
    assert_eq!(
        record.runtime_ratio(4_000),
        Some(RuntimeRatio { elapsed_millis: 0, expected_seconds: 10 })
    );
}

#[test]
fn records_list_newest_attachment_first() {
    let at = |pid: u32, t: i64| JobRecord::new_at(JobTarget::Pid { pid }, None, Vec::new(), t);
    let sorted = job_monitor::record::sort_newest_first(vec![at(1, 10), at(2, 30), at(3, 20), at(4, 30)]);
    let order: Vec<JobTarget> = sorted.into_iter().map(|r| r.target).collect();
    assert_eq!(
        order,
        vec![
            JobTarget::Pid { pid: 2 },
            JobTarget::Pid { pid: 4 },
            JobTarget::Pid { pid: 3 },
            JobTarget::Pid { pid: 1 },
        ]
    );
}

#[test]
fn zero_expected_runtime_overruns_after_one_millisecond() {
    let mut record = JobRecord::new_at(JobTarget::Pid { pid: 11 }, None, Vec::new(), 0);
    record.expected_runtime_seconds = Some(0);
    record.observe_at(JobState::active("RUNNING"), 1_000);
    let snapshot = JobSnapshot { record, state: JobState::active("RUNNING"), log_tails: Vec::new() };
    assert_eq!(snapshot.unreported_overrun_at(1_000), None);
    assert_eq!(
        snapshot.unreported_overrun_at(1_001),
        Some(RuntimeRatio { elapsed_millis: 1, expected_seconds: 0 })
    );
}

#[test]
fn observing_the_newest_state_leaves_a_long_history_alone() {
    let mut record = JobRecord::new_at(JobTarget::Pid { pid: 12 }, None, Vec::new(), 0);
    for i in 0..150i64 {
        let token = if i % 2 == 0 { "PENDING" } else { "RUNNING" };
        record.history.push(StateObservation { at: i, state: JobState::active(token) });
    }
    let before = record.history.clone();
    record.observe_at(JobState::active("RUNNING"), 10_000);
    assert_eq!(record.history, before);
    record.observe_at(JobState::active("PENDING"), 10_001);
    assert_eq!(record.history.len(), 100);
    assert_eq!(record.history[99].at, 10_001);
    assert_eq!(record.history[98].at, 149);
}
