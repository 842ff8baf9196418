use ai_ping::attempt::{attempt_finished, attempt_http_error, FirstOutput};
use ai_ping::retry::{after_first_attempt, after_retry, retries_exhausted, RetryStep, RETRY_BACKOFF_MS};

fn success(sample: &str) -> ai_ping::model::PingResult {
    attempt_finished(
        "m",
        3,
        8,
        Some(FirstOutput { at_ms: 6, sample: sample.to_string() }),
        None,
    )
}

#[test]
fn first_success_needs_one_attempt() {
    match after_first_attempt(success("ok"), 10, 1) {
        RetryStep::Done(r) => {
            assert_eq!(r.attempts, 1);
            assert_eq!(r.sample, "ok");
            assert_eq!(r.overall_ms, Some(10));
        }
        _ => panic!("expected done"),
    }
}

#[test]
fn no_retry_when_count_is_zero() {
    let failed = attempt_http_error("m", 1, "500 Internal Server Error", "error");
    match after_first_attempt(failed, 4, 0) {
        RetryStep::Done(r) => {
            assert!(!r.ok);
            assert_eq!(r.attempts, 1);
            assert_eq!(r.error.as_deref(), Some("HTTP 500 Internal Server Error·error"));
        }
        _ => panic!("expected done"),
    }
}

#[test]
fn retry_success_counts_two_attempts() {
    let failed = attempt_http_error("m_retry", 1, "500 Internal Server Error", "error");
    let state = match after_first_attempt(failed, 5, 2) {
        RetryStep::Backoff(s) => s,
        _ => panic!("expected a retry"),
    };
    assert_eq!(RETRY_BACKOFF_MS, 200);
    assert_eq!(state.retries_done(), 0);
    match after_retry(state, success("retry_ok"), 215) {
        RetryStep::Done(r) => {
            assert!(r.ok);
            assert_eq!(r.attempts, 2);
            assert_eq!(r.sample, "retry_ok");
            assert!(r.overall_ms.unwrap() >= 200);
        }
        _ => panic!("expected done"),
    }
}

#[test]
fn failures_are_reported_after_every_retry() {
    let fail = || attempt_http_error("m", 1, "404 Not Found", "not-found");
    let mut step = after_first_attempt(fail(), 2, 2);
    let mut clock = 2;
    let report = loop {
        match step {
            RetryStep::Done(r) => break r,
            RetryStep::Backoff(s) => {
                clock += 200;
                step = after_retry(s, fail(), clock);
            }
            RetryStep::Exhausted(r) => break retries_exhausted(r, clock + 1),
        }
    };
    assert!(!report.ok);
    assert_eq!(report.attempts, 3);
    assert_eq!(report.overall_ms, Some(403));
    let err = report.error.unwrap();
    assert!(err.contains("404"));
    assert!(err.contains("重试2次仍失败"));
    assert_eq!(
        err,
        "重试2次仍失败：HTTP 404 Not Found·not-found (初次: 重试1次仍失败：HTTP 404 Not Found·not-found (初次: HTTP 404 Not Found·not-found))"
    );
}
