use timeframe::directive::{is_gettime, process, time_result, TimeOutcome};

#[test]
fn recognizes_the_time_directive() {
    assert!(is_gettime("gettime"));
    assert!(!is_gettime("ping"));
    assert!(!is_gettime(""));
    assert!(!is_gettime("gettime "));
    assert!(!is_gettime("GetTime"));
}

#[test]
fn unrecognized_directives_get_the_sentinel() {
    let failed = TimeOutcome::Failed;
    assert_eq!(process("ping", &failed), "invalid directive");
    assert_eq!(process("", &failed), "invalid directive");
    assert_eq!(process("settime", &failed), "invalid directive");
    // The match is case-sensitive and exact.
    assert_eq!(process("GETTIME", &failed), "invalid directive");
    assert_eq!(process("gettime\n", &failed), "invalid directive");
}

#[test]
fn the_time_answer_is_verbatim() {
    let out = TimeOutcome::Output("Mon Jan  1 00:00:00 UTC 2024\n".to_string());
    assert_eq!(process("gettime", &out), "Mon Jan  1 00:00:00 UTC 2024\n");
    assert_eq!(time_result(&out), "Mon Jan  1 00:00:00 UTC 2024\n");
}

#[test]
fn a_failed_time_action_still_gets_a_non_empty_answer() {
    let r = process("gettime", &TimeOutcome::Failed);
    assert!(!r.is_empty());
    assert_eq!(r, "error: time unavailable");
}

#[test]
fn the_time_outcome_is_ignored_for_other_directives() {
    let out = TimeOutcome::Output("whatever".to_string());
    assert_eq!(process("ping", &out), "invalid directive");
}
