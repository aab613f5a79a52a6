# job_monitor

Deterministic monitoring of long-running scientific jobs (SLURM jobs and
detached processes) for coding agents, with built-in agent profiles.

- `src/` is the verified library. `state` classifies scheduler answers,
  `record` keeps per-job records, `probe` interprets `sacct`/`squeue` and
  process answers, `tail` scans log tails, `snapshot` and `watcher` decide
  when an idle agent is woken, `attach`, `awaiting` and `tools` hold what the
  `jobs` tools decide and reply, `profiles` is the catalog of agent
  profiles, and `polling` and `text` hold shared helpers.
- `app/` performs the I/O the library asks for: JSON records on disk,
  scheduler commands, process signals, log reads, the asynchronous loop of
  `job_await`, and the watcher's polling of one idle period. The session
  task around that (agent status, history compaction, injecting the wake-up
  message) belongs to the agent runtime, which is not part of this crate.
- `tests/` exercises the library on concrete values.
