use ide_scaffold::retry::{RetryConfig, RetryState, RetryStep};

/// Drives an operation through the retry decisions, recording the pauses
/// instead of sleeping.
fn run_with_retries<T, E>(mut operation: impl FnMut() -> Result<T, E>, config: RetryConfig, pauses: &mut Vec<u64>) -> Result<T, E> {
    let mut state = RetryState::start(&config);
    loop {
        match state.on_outcome(&config, operation(), true) {
            RetryStep::Finish(r) => return r,
            RetryStep::Wait(ms) => pauses.push(ms),
        }
    }
}

#[test]
fn test_retry_success_first_attempt() {
    let mut call_count = 0;
    let mut pauses = Vec::new();
    let result = run_with_retries(
        || {
            call_count += 1;
            Ok::<i32, String>(42)
        },
        RetryConfig::default(),
        &mut pauses,
    );
    assert_eq!(result, Ok(42));
    assert_eq!(call_count, 1);
    assert!(pauses.is_empty());
}

#[test]
fn test_retry_success_after_failures() {
    let mut call_count = 0;
    let mut pauses = Vec::new();
    let result = run_with_retries(
        || {
            call_count += 1;
            if call_count < 3 {
                Err("Temporary failure".to_string())
            } else {
                Ok(42)
            }
        },
        RetryConfig::default(),
        &mut pauses,
    );
    assert_eq!(result, Ok(42));
    assert_eq!(call_count, 3);
    assert_eq!(pauses, vec![1000, 2000]);
}

#[test]
fn test_retry_all_attempts_fail() {
    let mut call_count = 0;
    let mut pauses = Vec::new();
    let result = run_with_retries(
        || {
            call_count += 1;
            Err::<i32, String>("Permanent failure".to_string())
        },
        RetryConfig { max_retries: 2, initial_delay_ms: 10, max_delay_ms: 100 },
        &mut pauses,
    );
    assert!(result.is_err());
    assert_eq!(call_count, 3);
    assert_eq!(result, Err("Permanent failure".to_string()));
    assert_eq!(pauses, vec![10, 20]);
}

#[test]
fn default_config_values() {
    let c = RetryConfig::default();
    assert_eq!((c.max_retries, c.initial_delay_ms, c.max_delay_ms), (3, 1000, 8000));
}

#[test]
fn always_failing_is_invoked_max_retries_plus_one_times() {
    for n in [0u32, 1, 4, 7] {
        let mut calls = 0;
        let mut pauses = Vec::new();
        let config = RetryConfig { max_retries: n, initial_delay_ms: 1, max_delay_ms: 1000 };
        let r = run_with_retries(
            || {
                calls += 1;
                Err::<(), u32>(calls)
            },
            config,
            &mut pauses,
        );
        assert_eq!(calls, n + 1);
        assert_eq!(r, Err(n + 1));
        assert_eq!(pauses.len() as u32, n);
    }
}

#[test]
fn success_on_attempt_k_stops_there() {
    let config = RetryConfig { max_retries: 5, initial_delay_ms: 1, max_delay_ms: 1000 };
    for k in 1..=6u32 {
        let mut calls = 0;
        let mut pauses = Vec::new();
        let r = run_with_retries(
            || {
                calls += 1;
                if calls == k { Ok(calls) } else { Err("down") }
            },
            config,
            &mut pauses,
        );
        assert_eq!(r, Ok(k));
        assert_eq!(calls, k);
        assert_eq!(pauses.len() as u32, k - 1);
    }
}

#[test]
fn backoff_doubles_and_caps_with_defaults() {
    let config = RetryConfig { max_retries: 6, ..RetryConfig::default() };
    let mut pauses = Vec::new();
    let _ = run_with_retries(|| Err::<(), ()>(()), config, &mut pauses);
    assert_eq!(pauses, vec![1000, 2000, 4000, 8000, 8000, 8000]);
}

#[test]
fn initial_delay_above_cap_is_capped() {
    let config = RetryConfig { max_retries: 2, initial_delay_ms: 500, max_delay_ms: 300 };
    let mut pauses = Vec::new();
    let _ = run_with_retries(|| Err::<(), ()>(()), config, &mut pauses);
    assert_eq!(pauses, vec![300, 300]);
}

#[test]
fn huge_delays_saturate_at_cap() {
    let config = RetryConfig { max_retries: 3, initial_delay_ms: u64::MAX / 2 + 1, max_delay_ms: u64::MAX };
    let mut pauses = Vec::new();
    let _ = run_with_retries(|| Err::<(), ()>(()), config, &mut pauses);
    assert_eq!(pauses, vec![u64::MAX / 2 + 1, u64::MAX, u64::MAX]);
}

#[test]
fn non_retryable_error_stops_at_once() {
    let config = RetryConfig::default();
    let mut state = RetryState::start(&config);
    match state.on_outcome::<(), &str>(&config, Err("auth failed"), false) {
        RetryStep::Finish(Err(e)) => assert_eq!(e, "auth failed"),
        _ => panic!("expected the error to be returned"),
    }
    assert_eq!(state.attempt, 0);
}
