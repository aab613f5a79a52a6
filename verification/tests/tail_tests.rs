use job_monitor::compile_watch_patterns;
use job_monitor::tail::log_tail;
use job_monitor::tail::scan_suspicious_lines;
use job_monitor::tail::tail_start;
use job_monitor::validate_watch_pattern;
use job_monitor::TAIL_BYTES;

/// The tail of `contents` as read from a file holding it.
fn tail_of(contents: &str, patterns: &[String]) -> job_monitor::LogTail {
    let bytes = contents.as_bytes();
    let file_len = bytes.len() as u64;
    let start = tail_start(file_len);
    let extras = compile_watch_patterns(patterns);
    log_tail("run.log".to_string(), file_len, start, &bytes[start as usize..], &extras)
}

#[test]
fn tails_are_bounded_and_line_aligned() {
    let mut contents = String::new();
    for step in 0..600 {
        contents.push_str(&format!("step {step:04} energy -1.0\n"));
    }
    let tail = tail_of(&contents, &[]);
    assert_eq!(tail.file_len, contents.len() as u64);
    assert!(tail.tail.len() as u64 <= TAIL_BYTES);
    assert!(tail.tail.starts_with("step "));
    assert!(tail.tail.ends_with("step 0599 energy -1.0\n"));
    assert_eq!(tail.suspicious_lines, Vec::<String>::new());
}

#[test]
fn suspicious_lines_are_detected() {
    let tail = tail_of("step 1 ok\nenergy is NaN at step 2\nstep 3 ok\n", &[]);
    assert_eq!(tail.suspicious_lines, vec!["energy is NaN at step 2".to_string()]);
}

#[test]
fn extra_watch_patterns_extend_the_builtins() {
    let contents = "phase flip detected in cell 3\nenergy is NaN at step 2\nall good\n";

    assert!(validate_watch_pattern("phase flip").is_ok());
    assert!(validate_watch_pattern("(").is_err());

    // Invalid patterns are skipped at compile time, not matched at all.
    let patterns = compile_watch_patterns(&["phase flip".to_string(), "(".to_string()]);
    assert_eq!(patterns.len(), 1);

    let tail = tail_of(contents, &["phase flip".to_string(), "(".to_string()]);
    assert_eq!(
        tail.suspicious_lines,
        vec![
            "phase flip detected in cell 3".to_string(),
            "energy is NaN at step 2".to_string(),
        ]
    );

    // Without the extra patterns only the built-ins match.
    let tail = tail_of(contents, &[]);
    assert_eq!(tail.suspicious_lines, vec!["energy is NaN at step 2".to_string()]);
}

#[test]
fn missing_log_is_empty_not_an_error() {
    let tail = log_tail("/nonexistent/run.log".to_string(), 0, 0, &[], &[]);
    assert_eq!(tail.file_len, 0);
    assert_eq!(tail.tail, "");
    assert_eq!(tail.suspicious_lines, Vec::<String>::new());
}

#[test]
fn tail_starts_within_the_last_bytes() {
    assert_eq!(tail_start(0), 0);
    assert_eq!(tail_start(4096), 0);
    assert_eq!(tail_start(10_000), 10_000 - 4096);
}

#[test]
fn builtin_patterns_cover_crashes_and_numerics() {
    let lines = scan_suspicious_lines(
        "ok\nSegmentation fault (core dumped)\nresidual inf\ninformation\nOut-Of-Memory\nslurmstepd: error: oom-kill\n",
        &[],
    );
    assert_eq!(
        lines,
        vec![
            "Segmentation fault (core dumped)".to_string(),
            "residual inf".to_string(),
            "Out-Of-Memory".to_string(),
            "slurmstepd: error: oom-kill".to_string(),
        ]
    );
}

#[test]
fn invalid_pattern_error_names_the_pattern() {
    let err = validate_watch_pattern("(").expect_err("unbalanced group");
    assert!(err.starts_with("invalid watch pattern `(`: "), "{err}");
}

#[test]
fn partial_first_line_is_dropped_mid_file() {
    let tail = log_tail("run.log".to_string(), 20, 5, b"tial\nwhole line\n", &[]);
    assert_eq!(tail.tail, "whole line\n");
    let tail = log_tail("run.log".to_string(), 15, 0, b"tial\nwhole line\n", &[]);
    assert_eq!(tail.tail, "tial\nwhole line\n");
}
