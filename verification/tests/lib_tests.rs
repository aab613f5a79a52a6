use job_monitor::next_poll_interval;
use job_monitor::parse_expected_runtime;
use job_monitor::polling::INITIAL_POLL_INTERVAL_NANOS;
use job_monitor::polling::MAX_POLL_INTERVAL_NANOS;
use job_monitor::resolve_slurm_probe;
use job_monitor::JobPhase;
use job_monitor::JobRecord;
use job_monitor::JobState;
use job_monitor::JobTarget;
use job_monitor::SlurmProbe;

#[test]
fn poll_interval_backs_off_to_ceiling() {
    let mut interval = INITIAL_POLL_INTERVAL_NANOS;
    for _ in 0..32 {
        let next = next_poll_interval(interval);
        assert!(next >= interval);
        interval = next;
    }
    assert_eq!(interval, MAX_POLL_INTERVAL_NANOS, "backoff must reach the ceiling");
}

#[test]
fn expected_runtime_specs_parse_to_seconds() {
    assert_eq!(parse_expected_runtime("90"), Ok(90));
    assert_eq!(parse_expected_runtime("90s"), Ok(90));
    assert_eq!(parse_expected_runtime("45m"), Ok(2700));
    assert_eq!(parse_expected_runtime(" 6H "), Ok(21600));
    assert_eq!(parse_expected_runtime("2d"), Ok(172800));
    assert!(parse_expected_runtime("").is_err());
    assert!(parse_expected_runtime("0").is_err());
    assert!(parse_expected_runtime("6 hours").is_err());
    assert!(parse_expected_runtime("-1h").is_err());
    assert!(parse_expected_runtime("5w").is_err());
}

#[test]
fn vanished_job_seen_running_has_exited() {
    let mut record = JobRecord::new(
        JobTarget::Slurm {
            job_id: "3044".to_string(),
        },
        None,
        Vec::new(),
    );
    record.observe(JobState::active("RUNNING"));
    let state = resolve_slurm_probe(SlurmProbe::NotFound, &record);
    assert_eq!(
        (state.token.as_str(), state.phase, state.detail.is_some()),
        ("EXITED", JobPhase::Completed, true)
    );
    assert!(state.is_terminal());
}

#[test]
fn vanished_job_never_seen_active_is_not_found() {
    let mut record = JobRecord::new(
        JobTarget::Slurm {
            job_id: "3043".to_string(),
        },
        None,
        Vec::new(),
    );
    let fresh = resolve_slurm_probe(SlurmProbe::NotFound, &record);
    assert_eq!(
        (fresh.token.as_str(), fresh.phase),
        ("NOT_FOUND", JobPhase::Failed)
    );
    assert!(fresh.is_terminal());

    // An earlier UNKNOWN (scheduler unreachable) is not evidence the job ran.
    record.observe(JobState::unknown());
    let after_unknown = resolve_slurm_probe(SlurmProbe::NotFound, &record);
    assert_eq!(after_unknown.token, "NOT_FOUND");
}

#[test]
fn scheduler_answers_pass_through_resolution() {
    let record = JobRecord::new(
        JobTarget::Slurm {
            job_id: "77".to_string(),
        },
        None,
        Vec::new(),
    );
    assert_eq!(
        resolve_slurm_probe(SlurmProbe::State(JobState::active("PENDING")), &record),
        JobState::active("PENDING")
    );
    assert_eq!(
        resolve_slurm_probe(SlurmProbe::State(JobState::failed("TIMEOUT")), &record),
        JobState::failed("TIMEOUT")
    );
    assert_eq!(
        resolve_slurm_probe(SlurmProbe::Unavailable, &record),
        JobState::unknown()
    );
}

#[test]
fn backoff_steps_are_exact() {
    assert_eq!(next_poll_interval(15_000_000_000), 22_500_000_000);
    assert_eq!(next_poll_interval(256_000_000_000), 300_000_000_000);
    assert_eq!(next_poll_interval(300_000_000_000), 300_000_000_000);
}

#[test]
fn expected_runtime_errors_are_exact() {
    assert_eq!(
        parse_expected_runtime("6 hours"),
        Err("invalid expected_runtime `6 hours`; use e.g. 90s, 45m, 6h, 2d".to_string())
    );
    assert_eq!(
        parse_expected_runtime("5w"),
        Err("invalid expected_runtime unit `w`; use s, m, h, or d".to_string())
    );
    assert_eq!(
        parse_expected_runtime("0m"),
        Err("expected_runtime `0m` must be a positive duration".to_string())
    );
}
