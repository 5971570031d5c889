use nexus::risk::breakers::token_bucket_throttle::{RateLimitResult, TokenBucketThrottle};

#[test]
fn test_basic_consumption() {
    let mut throttle = TokenBucketThrottle::new(10, 10);

    for i in 0..10 {
        assert_eq!(throttle.try_consume(), RateLimitResult::Allowed, "Failed at iteration {}", i);
    }

    let result = throttle.try_consume();
    assert!(matches!(result, RateLimitResult::Allowed | RateLimitResult::Denied { .. }));
}

#[test]
fn test_rate_limiting() {
    let mut throttle = TokenBucketThrottle::new(5, 5);

    for _ in 0..5 {
        throttle.try_consume();
    }

    let result = throttle.try_consume();
    assert!(matches!(result, RateLimitResult::Denied { .. }));
}

#[test]
fn test_disable_throttle() {
    let mut throttle = TokenBucketThrottle::new(1, 1);

    throttle.try_consume();

    assert!(matches!(throttle.try_consume(), RateLimitResult::Denied { .. }));

    throttle.set_active(false);

    assert_eq!(throttle.try_consume(), RateLimitResult::Allowed);
    assert_eq!(throttle.try_consume(), RateLimitResult::Allowed);
}

#[test]
fn denial_reports_state_and_counts() {
    let mut throttle = TokenBucketThrottle::new(1, 1);
    assert_eq!(throttle.tokens_available(), 1);
    assert_eq!(throttle.try_consume_at(0), RateLimitResult::Allowed);
    assert_eq!(throttle.tokens_available(), 0);
    assert_eq!(
        throttle.try_consume_at(0),
        RateLimitResult::Denied { tokens_available: 0, tokens_required: 1, retry_after_ns: 1_000_000_000 }
    );
    assert_eq!(throttle.allowed_count(), 1);
    assert_eq!(throttle.denied_count(), 1);
    throttle.reset_stats();
    assert_eq!(throttle.allowed_count(), 0);
    assert_eq!(throttle.denied_count(), 0);
    assert!(throttle.is_active());
}

#[test]
fn fast_refill_restores_tokens() {
    // 2 tokens per second: 2 scaled units per nanosecond.
    let mut throttle = TokenBucketThrottle::new(1, 2);
    let start = 0u64;
    // Exhaust at a time before the construction clock so nothing refills.
    assert_eq!(throttle.try_consume_at(start), RateLimitResult::Allowed);
    match throttle.try_consume_at(start) {
        RateLimitResult::Denied { tokens_available, tokens_required, retry_after_ns } => {
            assert_eq!(tokens_available, 0);
            assert_eq!(tokens_required, 1);
            assert_eq!(retry_after_ns, 500_000_000);
        }
        RateLimitResult::Allowed => panic!("expected denial"),
    }
    // Far in the future the bucket is full again, capped at one token.
    assert_eq!(throttle.try_consume_at(u64::MAX), RateLimitResult::Allowed);
    assert_eq!(throttle.tokens_available(), 0);
}

#[test]
fn test_token_refill() {
    let mut throttle = TokenBucketThrottle::new(10, 100); // 100 tokens/sec refill

    // Exhaust tokens
    for _ in 0..10 {
        throttle.try_consume();
    }

    // Wait for refill (50ms should give ~5 tokens at 100/sec)
    let start = std::time::Instant::now();
    while start.elapsed() < std::time::Duration::from_millis(50) {}

    // Should have some tokens now
    let result = throttle.try_consume();
    assert_eq!(result, RateLimitResult::Allowed);
}

#[test]
fn refill_follows_the_rate_per_second() {
    // 10 orders per second with a burst of 20.
    let mut throttle = TokenBucketThrottle::new(20, 10);
    let t0: u64 = 4_000_000_000_000_000_000;
    for _ in 0..20 {
        assert_eq!(throttle.try_consume_at(t0), RateLimitResult::Allowed);
    }
    assert!(matches!(throttle.try_consume_at(t0), RateLimitResult::Denied { .. }));
    // 99 ms later: 0.99 tokens, still refused; retry after the missing 10 ms.
    match throttle.try_consume_at(t0 + 99_000_000) {
        RateLimitResult::Denied { retry_after_ns, .. } => assert_eq!(retry_after_ns, 1_000_000),
        RateLimitResult::Allowed => panic!("expected denial"),
    }
    // 1 ms later the token is whole.
    assert_eq!(throttle.try_consume_at(t0 + 100_000_000), RateLimitResult::Allowed);
    // One second later the bucket has refilled 10 tokens.
    assert_eq!(throttle.try_consume_at(t0 + 1_100_000_000), RateLimitResult::Allowed);
    assert_eq!(throttle.tokens_available(), 9);
}
