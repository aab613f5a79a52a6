//! Deterministic monitoring of long-running scientific jobs.
//!
//! Agents submit jobs through the normal shell, then hand the job ID or
//! detached PID to this library. It classifies SLURM (`sacct`, `squeue`) and
//! process answers, keeps durable per-job records, scans log tails for
//! suspicious events, and decides when an idle agent must be woken: on
//! terminal states, suspicious log events, runtime overruns or a check-in
//! interval, never by burning turns on scheduler polling.

pub mod text;
pub mod state;
pub mod polling;
pub mod record;
mod clock;
pub mod probe;
pub mod tail;
pub mod snapshot;
pub mod watcher;
pub mod tools;
pub mod attach;
pub mod awaiting;

pub use polling::next_poll_interval;
pub use polling::parse_expected_runtime;
pub use state::classify_sacct_output;
pub use state::classify_squeue_output;
pub use state::classify_states;
pub use state::normalize_state_token;
pub use state::JobPhase;
pub use state::JobState;
pub use record::JobRecord;
pub use record::JobTarget;
pub use record::StateObservation;
pub use record::WakePolicy;
pub use probe::pid_alive;
pub use probe::resolve_slurm_probe;
pub use probe::SlurmProbe;
pub use tail::compile_watch_patterns;
pub use tail::validate_watch_pattern;
pub use tail::LogTail;
pub use tail::TAIL_BYTES;
pub use snapshot::JobSnapshot;
pub mod profiles;
