use ensure_delivery::gateway::{ensure, execute, EnsureError, RetryError};
use ensure_delivery::handling::{advance, begin, HandlingAction, HandlingEvent, HandlingState, Settlement};
use ensure_delivery::outcome::{classify_response, retryable, DeliveryOutcome, FailureKind};
use ensure_delivery::request::{parts_well_formed, is_well_formed, RetryPayload};
use ensure_delivery::scheduler::{decide, first_attempt, Decision, RetryEnvelope};

fn payload(method: &str, retries: u32) -> RetryPayload {
    RetryPayload {
        reference: "ref-1".to_string(),
        retries,
        method: method.to_string(),
        headers: vec![
            ("Content-Type".to_string(), "application/json".to_string()),
            ("X-Tag".to_string(), "a".to_string()),
            ("X-Tag".to_string(), "b".to_string()),
        ],
        request_url: "http://127.0.0.1:9000/hook".to_string(),
        payload: "{\"k\":1}".to_string(),
    }
}

fn failed(status: u16) -> HandlingEvent {
    HandlingEvent::AttemptFinished { outcome: classify_response(Some(status)) }
}

fn envelope_of(state: &HandlingState) -> &RetryEnvelope {
    match state {
        HandlingState::Publishing { next } => next,
        HandlingState::Attempting { envelope } => envelope,
        HandlingState::Settled { .. } => panic!("settled"),
    }
}

#[test]
fn classifies_statuses() {
    assert_eq!(classify_response(Some(200)), DeliveryOutcome::Success { status: 200 });
    assert_eq!(classify_response(Some(299)), DeliveryOutcome::Success { status: 299 });
    assert_eq!(
        classify_response(Some(300)),
        DeliveryOutcome::Failure { kind: FailureKind::Rejected { status: 300 } }
    );
    assert_eq!(
        classify_response(Some(199)),
        DeliveryOutcome::Failure { kind: FailureKind::Rejected { status: 199 } }
    );
    assert_eq!(classify_response(None), DeliveryOutcome::Failure { kind: FailureKind::Network });
    assert!(retryable(FailureKind::Network));
    assert!(retryable(FailureKind::Rejected { status: 404 }));
    assert!(!retryable(FailureKind::MalformedRequest));
}

#[test]
fn validates_method_headers_and_url() {
    assert!(is_well_formed(&payload("POST", 1)));
    assert!(is_well_formed(&payload("PURGE", 1)));
    assert!(!is_well_formed(&payload("BOGUS METHOD", 1)));
    assert!(!is_well_formed(&payload("", 1)));
    let mut p = payload("GET", 1);
    p.headers.push(("Bad Name".to_string(), "v".to_string()));
    assert!(!is_well_formed(&p));
    let mut p = payload("GET", 1);
    p.headers.push(("X-Ok".to_string(), "line\nbreak".to_string()));
    assert!(!is_well_formed(&p));
    let mut p = payload("GET", 1);
    p.headers.push(("X-Ok".to_string(), "tab\tis fine".to_string()));
    assert!(is_well_formed(&p));
    let mut p = payload("GET", 1);
    p.request_url = "http://exa mple.com/".to_string();
    assert!(!is_well_formed(&p));
    let mut p = payload("GET", 1);
    p.request_url = String::new();
    assert!(!is_well_formed(&p));
    let target = |scheme: Option<&str>, host: Option<&str>| {
        Some((scheme.map(|x| x.to_string()), host.map(|x| x.to_string())))
    };
    assert!(parts_well_formed(&payload("GET", 1), &target(Some("http"), Some("a"))));
    assert!(parts_well_formed(&payload("GET", 1), &target(Some("https"), Some("a"))));
    assert!(!parts_well_formed(&payload("GET", 1), &target(Some("ftp"), Some("a"))));
    assert!(!parts_well_formed(&payload("GET", 1), &target(Some("http"), None)));
    assert!(!parts_well_formed(&payload("GET", 1), &target(None, Some("a"))));
    assert!(!parts_well_formed(&payload("GET", 1), &None));
    assert!(!parts_well_formed(&payload("GE T", 1), &target(Some("http"), Some("a"))));
    for (url, ok) in [
        ("/hook", false),
        ("example.com", false),
        ("ftp://example.com/x", false),
        ("HTTPS://example.com/x", true),
        ("https://example.com:8443/x?y=1", true),
    ] {
        let mut p = payload("GET", 1);
        p.request_url = url.to_string();
        assert_eq!(is_well_formed(&p), ok, "{}", url);
    }
}

#[test]
fn decide_spends_one_retry_per_retryable_failure() {
    let env = first_attempt(payload("POST", 3));
    match decide(env, DeliveryOutcome::Failure { kind: FailureKind::Network }) {
        Decision::Requeue { envelope } => {
            assert_eq!(envelope.request.retries, 2);
            assert_eq!(envelope.attempt, 2);
            assert_eq!(envelope.request.reference, "ref-1");
            assert_eq!(envelope.request.headers.len(), 3);
            assert_eq!(envelope.request.headers[2].1, "b");
        }
        _ => panic!("expected a requeue"),
    }
    match decide(first_attempt(payload("POST", 3)), DeliveryOutcome::Success { status: 201 }) {
        Decision::Done { status } => assert_eq!(status, 201),
        _ => panic!("expected done"),
    }
    match decide(
        first_attempt(payload("POST", 3)),
        DeliveryOutcome::Failure { kind: FailureKind::MalformedRequest },
    ) {
        Decision::Exhausted { failure, retries } => {
            assert_eq!(failure, FailureKind::MalformedRequest);
            assert_eq!(retries, 3);
        }
        _ => panic!("expected exhausted"),
    }
}

#[test]
fn no_retries_endpoint_500() {
    let (state, action) = begin(first_attempt(payload("POST", 0)));
    assert!(matches!(action, HandlingAction::Send));
    let (state, action) = advance(state, failed(500));
    assert!(matches!(action, HandlingAction::Acknowledge));
    let settlement = match state {
        HandlingState::Settled { settlement } => settlement,
        _ => panic!("not settled"),
    };
    assert!(matches!(
        settlement,
        Settlement::Exhausted { failure: FailureKind::Rejected { status: 500 }, retries: 0 }
    ));
    assert_eq!(ensure(&settlement), Err(EnsureError::Exhausted(RetryError { retry_no: 0 })));
    match execute(&settlement) {
        Err(e) => {
            assert_eq!(e.status, 402);
            assert_eq!(e.message, "Failed will retry 0 times");
        }
        Ok(_) => panic!("expected an error answer"),
    }
}

#[test]
fn two_failures_then_success() {
    let mut attempts = 0;
    let (state, action) = begin(first_attempt(payload("POST", 2)));
    assert!(matches!(action, HandlingAction::Send));
    attempts += 1;
    let (state, action) = advance(state, failed(503));
    assert!(matches!(action, HandlingAction::Publish));
    let first = envelope_of(&state);
    assert_eq!((first.attempt, first.request.retries), (2, 1));
    let (settled, action) = advance(state, HandlingEvent::PublishFinished { published: true });
    assert!(matches!(action, HandlingAction::Acknowledge));
    match &settled {
        HandlingState::Settled { settlement } => {
            assert!(matches!(settlement, Settlement::Requeued { retries: 1, attempt: 2 }));
            match execute(settlement) {
                Ok(r) => assert_eq!(r.message, "Failed will retry 1 times"),
                Err(_) => panic!("expected an accepted answer"),
            }
        }
        _ => panic!("not settled"),
    }
    // the worker consumes the first envelope
    let consumed = RetryEnvelope {
        request: payload("POST", 1),
        attempt: 2,
    };
    let (state, action) = begin(consumed);
    assert!(matches!(action, HandlingAction::Send));
    attempts += 1;
    let (state, action) = advance(state, failed(502));
    assert!(matches!(action, HandlingAction::Publish));
    let second = envelope_of(&state);
    assert_eq!((second.attempt, second.request.retries), (3, 0));
    let (_, action) = advance(state, HandlingEvent::PublishFinished { published: true });
    assert!(matches!(action, HandlingAction::Acknowledge));
    let (state, action) = begin(RetryEnvelope { request: payload("POST", 0), attempt: 3 });
    assert!(matches!(action, HandlingAction::Send));
    attempts += 1;
    let (state, action) = advance(state, failed(200));
    assert!(matches!(action, HandlingAction::Acknowledge));
    assert!(matches!(
        state,
        HandlingState::Settled { settlement: Settlement::Delivered { status: 200 } }
    ));
    assert_eq!(attempts, 3);
}

#[test]
fn bogus_method_never_reaches_broker() {
    let (state, action) = begin(first_attempt(payload("BOGUS METHOD", 5)));
    assert!(matches!(action, HandlingAction::Acknowledge));
    let settlement = match state {
        HandlingState::Settled { settlement } => settlement,
        _ => panic!("not settled"),
    };
    assert!(matches!(
        settlement,
        Settlement::Exhausted { failure: FailureKind::MalformedRequest, retries: 5 }
    ));
    assert_eq!(ensure(&settlement), Err(EnsureError::Exhausted(RetryError { retry_no: 5 })));
    match execute(&settlement) {
        Err(e) => {
            assert_eq!(e.status, 400);
            assert_eq!(e.message, "malformed request");
        }
        Ok(_) => panic!("expected an error answer"),
    }
}

#[test]
fn timeout_retried_like_rejection() {
    let timeout = HandlingEvent::AttemptFinished { outcome: classify_response(None) };
    let (s1, _) = begin(first_attempt(payload("PUT", 4)));
    let (s1, a1) = advance(s1, timeout);
    let (s2, _) = begin(first_attempt(payload("PUT", 4)));
    let (s2, a2) = advance(s2, failed(404));
    assert!(matches!(a1, HandlingAction::Publish));
    assert!(matches!(a2, HandlingAction::Publish));
    let (e1, e2) = (envelope_of(&s1), envelope_of(&s2));
    assert_eq!((e1.attempt, e1.request.retries), (2, 3));
    assert_eq!((e1.attempt, e1.request.retries), (e2.attempt, e2.request.retries));
}

#[test]
fn publish_outage_keeps_message() {
    let redelivered = || RetryEnvelope { request: payload("POST", 2), attempt: 2 };
    let (state, _) = begin(redelivered());
    let (state, action) = advance(state, failed(500));
    assert!(matches!(action, HandlingAction::Publish));
    let (state, action) = advance(state, HandlingEvent::PublishFinished { published: false });
    assert!(matches!(action, HandlingAction::LeaveUnacknowledged));
    let settlement = match state {
        HandlingState::Settled { settlement } => settlement,
        _ => panic!("not settled"),
    };
    assert!(matches!(settlement, Settlement::Unscheduled));
    assert_eq!(ensure(&settlement), Err(EnsureError::SchedulingFailure));
    match execute(&settlement) {
        Err(e) => assert_eq!(e.status, 503),
        Ok(_) => panic!("expected an error answer"),
    }
    // the broker delivers the same message again once it is back
    let (state, _) = begin(redelivered());
    let (state, action) = advance(state, failed(500));
    assert!(matches!(action, HandlingAction::Publish));
    let next = envelope_of(&state);
    assert_eq!((next.attempt, next.request.retries), (3, 1));
}

#[test]
fn out_of_order_events_are_ignored() {
    let (state, _) = begin(first_attempt(payload("POST", 1)));
    let (state, action) = advance(state, HandlingEvent::PublishFinished { published: true });
    assert!(matches!(action, HandlingAction::Ignore));
    assert!(matches!(state, HandlingState::Attempting { .. }));
    let (state, _) = advance(state, failed(200));
    let (_, action) = advance(state, failed(500));
    assert!(matches!(action, HandlingAction::Ignore));
}

#[test]
fn attempts_never_exceed_budget_plus_one() {
    for budget in 0u32..5 {
        let (mut state, mut action) = begin(first_attempt(payload("POST", budget)));
        let mut attempts = 0u32;
        loop {
            match action {
                HandlingAction::Send => {
                    attempts += 1;
                    let r = advance(state, failed(500));
                    state = r.0;
                    action = r.1;
                }
                HandlingAction::Publish => {
                    let next = match &state {
                        HandlingState::Publishing { next } => RetryEnvelope {
                            request: RetryPayload {
                                reference: next.request.reference.clone(),
                                retries: next.request.retries,
                                method: next.request.method.clone(),
                                headers: next.request.headers.clone(),
                                request_url: next.request.request_url.clone(),
                                payload: next.request.payload.clone(),
                            },
                            attempt: next.attempt,
                        },
                        _ => panic!("not publishing"),
                    };
                    let r = begin(next);
                    state = r.0;
                    action = r.1;
                }
                _ => break,
            }
        }
        assert_eq!(attempts, budget + 1);
    }
}

#[test]
fn ensure_reports_delivery_and_retries() {
    assert_eq!(ensure(&Settlement::Delivered { status: 204 }), Ok(()));
    assert_eq!(
        ensure(&Settlement::Requeued { retries: 17, attempt: 4 }),
        Err(EnsureError::WillRetry(RetryError { retry_no: 17 }))
    );
    assert_eq!(ensure(&Settlement::Unscheduled), Err(EnsureError::SchedulingFailure));
    assert_eq!(
        ensure(&Settlement::Exhausted { failure: FailureKind::Network, retries: 0 }),
        Err(EnsureError::Exhausted(RetryError { retry_no: 0 }))
    );
    match execute(&Settlement::Delivered { status: 200 }) {
        Ok(r) => assert_eq!(r.message, "all ok"),
        Err(_) => panic!("expected success"),
    }
    match execute(&Settlement::Requeued { retries: 4294967294, attempt: 2 }) {
        Ok(r) => assert_eq!(r.message, "Failed will retry 4294967294 times"),
        Err(_) => panic!("expected an accepted answer"),
    }
}

#[test]
fn retry_error_text() {
    assert_eq!(RetryError { retry_no: 3 }.to_string(), "RetryError is here!");
}
