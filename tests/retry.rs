use senhasegura::{ApiError, Error, Next, Response, RetryPolicy, RetryState, StatusCode};

fn policy(base_delay_secs: u32, max_retries: u32) -> RetryPolicy {
    RetryPolicy {
        base_delay_secs,
        max_retries,
    }
}

#[test]
fn ceilings_double_per_retry() {
    let p = policy(2, 3);
    assert_eq!(p.ceiling_ms(0), 2_000);
    assert_eq!(p.ceiling_ms(1), 4_000);
    assert_eq!(p.ceiling_ms(2), 8_000);
    assert_eq!(p.ceiling_ms(10), 2_048_000);
    assert_eq!(policy(0, 3).ceiling_ms(40), 0);
}

#[test]
fn ceilings_saturate() {
    assert_eq!(policy(2, 3).ceiling_ms(64), u64::MAX);
    assert_eq!(policy(u32::MAX, 3).ceiling_ms(u32::MAX), u64::MAX);
    assert_eq!(policy(1, 3).ceiling_ms(53), 1_000u64 << 53);
}

#[test]
fn delays_are_jittered_within_ceiling() {
    let p = policy(1, 3);
    let delays: Vec<u64> = (0..200).map(|_| p.backoff_delay_ms(2)).collect();
    assert!(delays.iter().all(|d| *d <= 4_000));
    assert!(delays.iter().any(|d| *d != 4_000));
    assert_eq!(policy(0, 3).backoff_delay_ms(5), 0);
}

#[test]
fn api_errors_are_not_retried() {
    let mut state = RetryState::new(policy(0, 5));
    let outcome: Result<(), Error> = Err(Error::Api(ApiError {
        response: Response {
            status: StatusCode::from_u16(500).unwrap(),
            message: "boom".to_string(),
            error: true,
            error_code: 0,
        },
        exception: None,
    }));
    match state.after_attempt(outcome) {
        Next::Done(Err(Error::Api(a))) => assert_eq!(a.response.message, "boom"),
        other => panic!("unexpected {:?}", other),
    }
    assert_eq!(state.retries, 0);
}

#[test]
fn other_errors_and_successes_end_the_call() {
    let mut state = RetryState::new(policy(0, 5));
    assert!(matches!(
        state.after_attempt::<u8>(Err(Error::Other("x".to_string()))),
        Next::Done(Err(Error::Other(_)))
    ));
    assert!(matches!(state.after_attempt::<u8>(Ok(7)), Next::Done(Ok(7))));
    assert_eq!(state.retries, 0);
}

#[test]
fn transport_failures_make_max_retries_plus_one_attempts() {
    for n in [0u32, 1, 3] {
        let mut state = RetryState::new(policy(0, n));
        let mut attempts = 0;
        let last = loop {
            attempts += 1;
            let outcome: Result<(), Error> = Err(Error::Transport("unreachable".to_string()));
            match state.after_attempt(outcome) {
                Next::Retry(delay) => assert_eq!(delay, 0),
                Next::Done(result) => break result,
            }
        };
        assert_eq!(attempts, n + 1);
        assert!(matches!(last, Err(Error::Transport(_))));
    }
}

#[test]
fn disabled_policy_makes_one_attempt() {
    let p = RetryPolicy::disabled();
    assert_eq!(p, policy(0, 0));
    let mut state = RetryState::new(p);
    let outcome: Result<(), Error> = Err(Error::Transport("down".to_string()));
    assert!(matches!(state.after_attempt(outcome), Next::Done(Err(Error::Transport(_)))));
}
