use job_monitor::pid_alive;
use job_monitor::probe::is_zombie;
use job_monitor::probe::pid_job_state;
use job_monitor::probe::sacct_probe;
use job_monitor::probe::squeue_probe;
use job_monitor::probe::QueryOutcome;
use job_monitor::JobPhase;
use job_monitor::JobState;
use job_monitor::SlurmProbe;

#[test]
fn zombie_and_dead_tasks_count_as_exited() {
    assert!(is_zombie("4242 (python) Z 1 4242 4242 0 -1"));
    assert!(is_zombie("4242 (a) b) X 1"));
    // The state is the first field after the last `)`, even when the
    // command name holds spaces and parentheses.
    assert!(!is_zombie("4242 (weird (Z) name) S 1 2 3"));
    assert!(!is_zombie("no parenthesis"));
    assert!(pid_alive(7, true, Some("7 (sleep) S 1")));
    assert!(!pid_alive(7, true, Some("7 (sleep) Z 1")));
    assert!(pid_alive(7, true, None));
    assert!(!pid_alive(7, false, Some("7 (sleep) S 1")));
}

#[test]
fn impossible_pids_are_never_alive() {
    assert!(!pid_alive(0, true, None));
    assert!(!pid_alive(2_147_483_648, true, None));
    assert!(!pid_alive(u32::MAX, true, None));
    assert!(pid_alive(2_147_483_647, true, None));
    assert_eq!(job_monitor::probe::signal_target(0), None);
    assert_eq!(job_monitor::probe::signal_target(4242), Some(4242));
    assert_eq!(job_monitor::probe::signal_target(u32::MAX), None);
}

#[test]
fn pid_states_are_running_or_exited() {
    assert_eq!(pid_job_state(true), JobState::active("RUNNING"));
    let gone = pid_job_state(false);
    assert_eq!((gone.token.as_str(), gone.phase), ("EXITED", JobPhase::Completed));
}

#[test]
fn sacct_answers_decide_only_when_they_know_the_job() {
    let ok = QueryOutcome::Success("123|RUNNING\n".to_string());
    assert_eq!(sacct_probe(&ok, "123"), Some(SlurmProbe::State(JobState::active("RUNNING"))));
    assert_eq!(sacct_probe(&ok, "124"), None);
    assert_eq!(sacct_probe(&QueryOutcome::Failed("accounting disabled".to_string()), "123"), None);
    assert_eq!(sacct_probe(&QueryOutcome::Unavailable, "123"), None);
}

#[test]
fn squeue_answers_tell_vanished_jobs_from_outages() {
    assert_eq!(
        squeue_probe(&QueryOutcome::Success("COMPLETING\n".to_string())),
        SlurmProbe::State(JobState::active("COMPLETING"))
    );
    assert_eq!(squeue_probe(&QueryOutcome::Success(String::new())), SlurmProbe::Unavailable);
    assert_eq!(
        squeue_probe(&QueryOutcome::Failed(
            "slurm_load_jobs error: Invalid job id specified\n".to_string()
        )),
        SlurmProbe::NotFound
    );
    assert_eq!(
        squeue_probe(&QueryOutcome::Failed("Unable to contact slurm controller".to_string())),
        SlurmProbe::Unavailable
    );
    assert_eq!(squeue_probe(&QueryOutcome::Unavailable), SlurmProbe::Unavailable);
}
