use transaction_queue_api::rate_limit::RateLimitResult;
use transaction_queue_api::submit::{
    begin, step, validate_priority, ErrorStatus, RateLimitHeaders, SubmitAction, SubmitEvent,
    SubmitState, SubmitTransactionRequest,
};
use transaction_queue_api::validation::{MinMaxI32, NonNullJsonMaxSize, StrLen, ValidationError};

fn request(account: &str, priority: Option<i32>) -> SubmitTransactionRequest {
    SubmitTransactionRequest {
        account_id: StrLen::new(account.to_string()).unwrap(),
        transaction_data: NonNullJsonMaxSize::new(value(r#"{"amount": 10}"#)).unwrap(),
        priority: priority.map(|p| validate_priority(p).unwrap()),
    }
}

fn loaded(account: &str, priority: Option<i32>, max: i32, window: i32) -> (SubmitState, SubmitAction) {
    let (s, a) = begin(request(account, priority), NOW_MS);
    match a {
        SubmitAction::LoadRateLimit { account_id } => assert_eq!(account_id, account),
        _ => panic!("expected the rate limit to be loaded first"),
    }
    step(s, SubmitEvent::RateLimitLoaded { max_requests: max, window_seconds: window })
}

const NOW_MS: u64 = 1_700_000_000_500;

const HEADERS: RateLimitHeaders = RateLimitHeaders { limit: 100, remaining: 99, reset: 1_700_000_060 };

fn value(text: &str) -> serde_json::Value {
    serde_json::from_str(text).unwrap()
}

#[test]
fn priority_range() {
    assert_eq!(validate_priority(1000), Ok(MinMaxI32(1000)));
    assert_eq!(
        validate_priority(1000000),
        Err(ValidationError::TooHigh { max_value: 1000, value: 1000000 })
    );
    assert_eq!(
        validate_priority(-1001),
        Err(ValidationError::TooLow { min_value: -1000, value: -1001 })
    );
}

#[test]
fn accepted_submission() {
    let (s, a) = loaded("premium_a", Some(10), 100, 60);
    match a {
        SubmitAction::CheckRateLimit { key, max_requests, window_seconds } => {
            assert_eq!(key, "premium_a");
            assert_eq!(max_requests, 100);
            assert_eq!(window_seconds, 60);
        }
        _ => panic!("expected a rate limit check"),
    }
    let (s, a) = step(
        s,
        SubmitEvent::RateLimitChecked(RateLimitResult { allowed: true, remaining: 99, reset_at: 1_700_000_060 }),
    );
    match a {
        SubmitAction::Insert { account_id, data, priority } => {
            assert_eq!(account_id, "premium_a");
            assert_eq!(data.0, value(r#"{"amount": 10}"#));
            assert_eq!(priority, 10);
        }
        _ => panic!("expected an insert"),
    }
    let id: u128 = 0x67e5_5044_10b1_426f_9247_bb68_0e5f_e0c8;
    let (s, a) = step(s, SubmitEvent::Inserted { id, status: "pending".to_string() });
    match a {
        SubmitAction::Enqueue { queue_name, member, priority } => {
            assert_eq!(queue_name, "transactions");
            assert_eq!(member, "67e55044-10b1-426f-9247-bb680e5fe0c8");
            assert_eq!(priority, 10);
        }
        _ => panic!("expected an enqueue"),
    }
    let (s, a) = step(s, SubmitEvent::Enqueued { position: 3 });
    assert!(matches!(s, SubmitState::Done));
    match a {
        SubmitAction::Respond { result: Ok(resp), headers } => {
            assert_eq!(resp.transaction_id, "67e55044-10b1-426f-9247-bb680e5fe0c8");
            assert_eq!(resp.queue_position, 3);
            assert_eq!(resp.estimated_processing_time_seconds, 90);
            assert_eq!(resp.status, "pending");
            assert_eq!(headers, Some(HEADERS));
        }
        _ => panic!("expected an accepted answer"),
    }
}

#[test]
fn uuid_text_pads_with_zeros() {
    let (s, _) = loaded("a", None, 100, 60);
    let (s, _) = step(
        s,
        SubmitEvent::RateLimitChecked(RateLimitResult { allowed: true, remaining: 99, reset_at: 1_700_000_060 }),
    );
    let (_, a) = step(s, SubmitEvent::Inserted { id: 1, status: "pending".to_string() });
    match a {
        SubmitAction::Enqueue { member, priority, .. } => {
            assert_eq!(member, "00000000-0000-0000-0000-000000000001");
            assert_eq!(member, uuid::Uuid::from_u128(1).to_string());
            assert_eq!(priority, 0);
        }
        _ => panic!("expected an enqueue"),
    }
}

#[test]
fn refused_submission() {
    let (s, _) = loaded("basic_a", None, 20, 60);
    let (s, a) = step(
        s,
        SubmitEvent::RateLimitChecked(RateLimitResult { allowed: false, remaining: 0, reset_at: 77 }),
    );
    assert!(matches!(s, SubmitState::Done));
    match a {
        SubmitAction::Respond { result: Err(e), headers } => {
            assert_eq!(e.status, ErrorStatus::TooManyRequests);
            assert_eq!(e.message, "rate limit exceeded: too many requests");
            assert!(e.message.contains("rate limit") && e.message.contains("too many"));
            assert_eq!(headers, Some(RateLimitHeaders { limit: 20, remaining: 0, reset: 77 }));
        }
        _ => panic!("expected a refusal"),
    }
}

#[test]
fn misconfigured_limits() {
    let (s, a) = loaded("a", None, -1, 60);
    assert!(matches!(s, SubmitState::Done));
    match a {
        SubmitAction::Respond { result: Err(e), headers } => {
            assert_eq!(e.status, ErrorStatus::InternalServerError);
            assert_eq!(e.message, "Misconfigured max_requests");
            assert_eq!(headers, Some(RateLimitHeaders { limit: 20, remaining: 20, reset: 1_700_000_060 }));
        }
        _ => panic!("expected a refusal"),
    }
    let (_, a) = loaded("enterprise_a", None, 5, -60);
    match a {
        SubmitAction::Respond { result: Err(e), headers } => {
            assert_eq!(e.message, "Misconfigured window_seconds");
            assert_eq!(headers, Some(RateLimitHeaders { limit: 500, remaining: 500, reset: 1_700_000_060 }));
        }
        _ => panic!("expected a refusal"),
    }
}

#[test]
fn failures() {
    let (s, _) = begin(request("a", None), NOW_MS);
    let (_, a) = step(s, SubmitEvent::Failed);
    match a {
        SubmitAction::Respond { result: Err(e), headers } => {
            assert_eq!(e.status, ErrorStatus::InternalServerError);
            assert_eq!(e.message, "Internal server error");
            assert_eq!(headers, Some(RateLimitHeaders { limit: 20, remaining: 20, reset: 1_700_000_060 }));
        }
        _ => panic!("expected a refusal"),
    }
    // A failed check answers with the stored budget of a window starting now.
    let (s, _) = loaded("premium_a", None, 100, 30);
    let (_, a) = step(s, SubmitEvent::Failed);
    match a {
        SubmitAction::Respond { result: Err(e), headers } => {
            assert_eq!(e.status, ErrorStatus::InternalServerError);
            assert_eq!(headers, Some(RateLimitHeaders { limit: 100, remaining: 100, reset: 1_700_000_030 }));
        }
        _ => panic!("expected a refusal"),
    }
    let (s, _) = loaded("a", None, 100, 60);
    let (s, _) = step(
        s,
        SubmitEvent::RateLimitChecked(RateLimitResult { allowed: true, remaining: 99, reset_at: 1_700_000_060 }),
    );
    let (_, a) = step(s, SubmitEvent::Failed);
    match a {
        SubmitAction::Respond { result: Err(e), headers } => {
            assert_eq!(e.status, ErrorStatus::InternalServerError);
            assert_eq!(headers, Some(HEADERS));
        }
        _ => panic!("expected a refusal"),
    }
}
