use transaction_queue_api::account::{
    account_type_for, new_rate_limit, AccountType, RateLimitFetch, RateLimitFetchAction,
    RateLimitFetchStep, RateLimitRecord,
};

#[test]
fn tier_budgets() {
    assert_eq!(AccountType::Basic.max_requests(), 20);
    assert_eq!(AccountType::Premium.max_requests(), 100);
    assert_eq!(AccountType::Enterprise.max_requests(), 500);
    assert_eq!(AccountType::Basic.window_seconds(), 60);
    assert_eq!(AccountType::Premium.window_seconds(), 60);
    assert_eq!(AccountType::Enterprise.window_seconds(), 60);
}

#[test]
fn tier_names_round_trip() {
    for t in [AccountType::Basic, AccountType::Premium, AccountType::Enterprise] {
        assert_eq!(AccountType::from_name(t.name()), Some(t));
    }
    assert_eq!(AccountType::Premium.name(), "premium");
    assert_eq!(AccountType::from_name("Premium"), None);
    assert_eq!(AccountType::from_name(""), None);
    assert_eq!(AccountType::from_name("gold"), None);
}

#[test]
fn default_tier_is_basic() {
    assert_eq!(AccountType::default(), AccountType::Basic);
}

#[test]
fn account_id_prefix_selects_tier() {
    assert_eq!(account_type_for("premium_test_account_42"), AccountType::Premium);
    assert_eq!(account_type_for("enterprise_x"), AccountType::Enterprise);
    assert_eq!(account_type_for("basic_"), AccountType::Basic);
    assert_eq!(account_type_for("premium"), AccountType::Basic);
    assert_eq!(account_type_for("gold_account"), AccountType::Basic);
    assert_eq!(account_type_for("test_premium_account"), AccountType::Basic);
    assert_eq!(account_type_for("_premium"), AccountType::Basic);
    assert_eq!(account_type_for("тест_премиум"), AccountType::Basic);
    assert_eq!(account_type_for(""), AccountType::Basic);
}

#[test]
fn new_rate_limit_record() {
    let r = new_rate_limit("premium_a", AccountType::Premium);
    assert_eq!(r.account_id, "premium_a");
    assert_eq!(r.limit_type, "premium");
    assert_eq!(r.max_requests, 100);
    assert_eq!(r.window_seconds, 60);
}

fn record(account: &str, max: i32) -> RateLimitRecord {
    RateLimitRecord {
        account_id: account.to_string(),
        limit_type: "enterprise".to_string(),
        max_requests: max,
        window_seconds: 60,
    }
}

#[test]
fn fetch_found_on_lookup() {
    let (fetch, action) = RateLimitFetch::start("enterprise_acme");
    assert_eq!(fetch.limit_type, AccountType::Enterprise);
    assert_eq!(fetch.step, RateLimitFetchStep::Lookup);
    match action {
        RateLimitFetchAction::Query { account_id, limit_type } => {
            assert_eq!(account_id, "enterprise_acme");
            assert_eq!(limit_type, "enterprise");
        }
        _ => panic!("expected a query"),
    }
    let (_, action) = fetch.on_reply(Some(record("enterprise_acme", 7)));
    match action {
        RateLimitFetchAction::Return(r) => assert_eq!(r.max_requests, 7),
        _ => panic!("expected the stored record"),
    }
}

#[test]
fn fetch_inserts_then_retries_on_conflict() {
    let (fetch, _) = RateLimitFetch::start("someone");
    assert_eq!(fetch.limit_type, AccountType::Basic);
    let (fetch, action) = fetch.on_reply(None);
    assert_eq!(fetch.step, RateLimitFetchStep::Insert);
    match action {
        RateLimitFetchAction::Insert(r) => {
            assert_eq!(r.account_id, "someone");
            assert_eq!(r.limit_type, "basic");
            assert_eq!(r.max_requests, 20);
            assert_eq!(r.window_seconds, 60);
        }
        _ => panic!("expected an insert"),
    }
    let (fetch, action) = fetch.on_reply(None);
    assert_eq!(fetch.step, RateLimitFetchStep::Lookup);
    assert!(matches!(action, RateLimitFetchAction::Query { .. }));
    let (_, action) = fetch.on_reply(Some(record("someone", 20)));
    assert!(matches!(action, RateLimitFetchAction::Return(_)));
}
