use aws_lite::request::{after_attempt, backoff_delay, with_retry, Error, SigningFailure, Step};
use std::cell::{Cell, RefCell};

#[test]
fn always_failing_closure_is_called_as_often_as_the_budget() {
    for budget in [1u32, 2, 3, 5, 8] {
        let calls = Cell::new(0u32);
        let pauses = RefCell::new(Vec::new());
        let r: Result<(), Error> = with_retry(
            || {
                calls.set(calls.get() + 1);
                Err(Error::Transport(format!("attempt {}", calls.get())))
            },
            budget,
            |ms| pauses.borrow_mut().push(ms),
        );
        assert_eq!(calls.get(), budget);
        match r {
            Err(Error::Transport(message)) => assert_eq!(message, format!("attempt {}", budget)),
            _ => panic!("the last failure is returned"),
        }
        let expected: Vec<u64> = (1..budget as u64).map(|k| k * 10).collect();
        assert_eq!(*pauses.borrow(), expected);
    }
}

#[test]
fn status_failures_are_retried_like_transport_failures() {
    let calls = Cell::new(0u16);
    let r: Result<(), Error> = with_retry(
        || {
            calls.set(calls.get() + 1);
            Err(Error::Api(400 + calls.get(), vec![calls.get() as u8]))
        },
        5,
        |_| (),
    );
    assert_eq!(calls.get(), 5);
    assert!(matches!(r, Err(Error::Api(405, body)) if body == vec![5u8]));
}

#[test]
fn success_on_the_third_call_stops_the_run() {
    let calls = Cell::new(0u32);
    let pauses = RefCell::new(Vec::new());
    let r = with_retry(
        || {
            calls.set(calls.get() + 1);
            if calls.get() < 3 {
                Err(Error::Api(503, Vec::new()))
            } else {
                Ok(calls.get())
            }
        },
        5,
        |ms| pauses.borrow_mut().push(ms),
    );
    assert_eq!(r.unwrap(), 3);
    assert_eq!(calls.get(), 3);
    assert_eq!(*pauses.borrow(), vec![10, 20]);
}

#[test]
fn immediate_success_makes_one_call_and_no_pause() {
    let calls = Cell::new(0u32);
    let pauses = Cell::new(0u32);
    let r = with_retry(
        || {
            calls.set(calls.get() + 1);
            Ok::<&str, Error>("done")
        },
        5,
        |_| pauses.set(pauses.get() + 1),
    );
    assert_eq!(r.unwrap(), "done");
    assert_eq!(calls.get(), 1);
    assert_eq!(pauses.get(), 0);
}

#[test]
fn signing_failure_is_never_retried() {
    let calls = Cell::new(0u32);
    let pauses = Cell::new(0u32);
    let r: Result<(), Error> = with_retry(
        || {
            calls.set(calls.get() + 1);
            Err(Error::SigningError(SigningFailure::RelativeUrl))
        },
        5,
        |_| pauses.set(pauses.get() + 1),
    );
    assert!(matches!(r, Err(Error::SigningError(SigningFailure::RelativeUrl))));
    assert_eq!(calls.get(), 1);
    assert_eq!(pauses.get(), 0);
}

#[test]
fn signing_failure_after_retries_ends_the_run() {
    let calls = Cell::new(0u32);
    let r: Result<(), Error> = with_retry(
        || {
            calls.set(calls.get() + 1);
            if calls.get() < 2 {
                Err(Error::Transport("refused".to_string()))
            } else {
                Err(Error::SigningError(SigningFailure::ClockOutOfRange))
            }
        },
        5,
        |_| (),
    );
    assert!(matches!(r, Err(Error::SigningError(SigningFailure::ClockOutOfRange))));
    assert_eq!(calls.get(), 2);
}

#[test]
fn zero_budget_still_makes_one_attempt() {
    let calls = Cell::new(0u32);
    let r: Result<(), Error> = with_retry(
        || {
            calls.set(calls.get() + 1);
            Err(Error::Transport("down".to_string()))
        },
        0,
        |_| panic!("no pause without a retry"),
    );
    assert!(matches!(r, Err(Error::Transport(_))));
    assert_eq!(calls.get(), 1);
}

#[test]
fn backoff_is_linear_in_the_attempts_made() {
    assert_eq!(backoff_delay(0), 0);
    assert_eq!(backoff_delay(1), 10);
    assert_eq!(backoff_delay(4), 40);
    assert_eq!(backoff_delay(u32::MAX), 42_949_672_950);
}

#[test]
fn policy_decides_each_step() {
    let ok: Result<u8, Error> = Ok(1);
    let transport: Result<u8, Error> = Err(Error::Transport("t".to_string()));
    let status: Result<u8, Error> = Err(Error::Api(404, Vec::new()));
    let signing: Result<u8, Error> = Err(Error::SigningError(SigningFailure::TooManyHeaders));
    assert_eq!(after_attempt(&ok, 1, 5), Step::Return);
    assert_eq!(after_attempt(&transport, 1, 5), Step::RetryAfter(10));
    assert_eq!(after_attempt(&status, 4, 5), Step::RetryAfter(40));
    assert_eq!(after_attempt(&status, 5, 5), Step::Return);
    assert_eq!(after_attempt(&transport, 6, 5), Step::Return);
    assert_eq!(after_attempt(&signing, 1, 5), Step::Return);
    assert_eq!(after_attempt(&transport, 1, 0), Step::Return);
}

#[test]
fn errors_classify_as_retryable_or_terminal() {
    assert!(Error::Transport(String::new()).is_retryable());
    assert!(Error::Api(500, Vec::new()).is_retryable());
    assert!(Error::Api(404, Vec::new()).is_retryable());
    assert!(!Error::SigningError(SigningFailure::RelativeUrl).is_retryable());
}
