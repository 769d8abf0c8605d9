use rate_limiter::clock::now_secs;
use rate_limiter::limiter::{
    decide, Decision, Phase, RateLimiter, Rejection, QUOTA, REJECTION_BODY, RESET_INTERVAL_SECS,
    TOO_MANY_REQUESTS,
};

fn refusal() -> Decision {
    Decision::Reject(Rejection { status: 429, body: "Too many requests".to_string() })
}

#[test]
fn policy_constants() {
    assert_eq!(QUOTA, 5);
    assert_eq!(RESET_INTERVAL_SECS, 60);
    assert_eq!(TOO_MANY_REQUESTS, 429);
    assert_eq!(REJECTION_BODY, "Too many requests");
}

#[test]
fn seven_requests_then_one_after_the_window() {
    let mut limiter = RateLimiter::new(1_000);
    let mut answers = Vec::new();
    for _ in 0..7 {
        answers.push(limiter.check(1_000, "1.2.3.4"));
    }
    assert_eq!(
        answers,
        vec![
            Decision::Forward,
            Decision::Forward,
            Decision::Forward,
            Decision::Forward,
            Decision::Forward,
            refusal(),
            refusal(),
        ]
    );
    assert_eq!(limiter.check(1_061, "1.2.3.4"), Decision::Forward);
    assert_eq!(limiter.count("1.2.3.4"), 1);
}

#[test]
fn nth_request_passes_iff_n_at_most_five() {
    let mut limiter = RateLimiter::new(0);
    for n in 1..=20usize {
        let decision = limiter.check(n as u64, "client");
        assert_eq!(decision.is_forward(), n <= 5);
        assert_eq!(limiter.count("client"), n);
        // Another client's requests change nothing for this one.
        limiter.check(n as u64, "bystander");
    }
}

#[test]
fn refusal_carries_status_and_body() {
    let mut limiter = RateLimiter::new(0);
    for _ in 0..5 {
        limiter.check(0, "a");
    }
    match limiter.check(0, "a") {
        Decision::Reject(rejection) => {
            assert_eq!(rejection.status, 429);
            assert_eq!(rejection.body, "Too many requests");
        }
        Decision::Forward => panic!("the sixth request was forwarded"),
    }
}

#[test]
fn decide_by_count() {
    assert_eq!(decide(0), Decision::Forward);
    assert_eq!(decide(1), Decision::Forward);
    assert_eq!(decide(5), Decision::Forward);
    assert_eq!(decide(6), refusal());
    assert_eq!(decide(usize::MAX), refusal());
}

#[test]
fn clients_are_counted_apart() {
    let mut limiter = RateLimiter::new(0);
    for _ in 0..6 {
        limiter.check(1, "a");
    }
    assert_eq!(limiter.check(1, "a"), refusal());
    assert_eq!(limiter.check(1, "b"), Decision::Forward);
    assert_eq!(limiter.count("a"), 7);
    assert_eq!(limiter.count("b"), 1);
    assert_eq!(limiter.count("c"), 0);
}

#[test]
fn window_lasts_exactly_the_interval() {
    let mut limiter = RateLimiter::new(100);
    for _ in 0..5 {
        assert_eq!(limiter.check(100, "a"), Decision::Forward);
    }
    assert_eq!(limiter.check(159, "a"), refusal());
    assert_eq!(limiter.current_age(159), 59);
    assert_eq!(limiter.check(160, "a"), Decision::Forward);
    assert_eq!(limiter.current_age(160), 0);
    assert_eq!(limiter.count("a"), 1);
}

#[test]
fn expiry_resets_every_client() {
    let mut limiter = RateLimiter::new(0);
    for _ in 0..9 {
        limiter.check(10, "a");
        limiter.check(10, "b");
    }
    assert_eq!(limiter.check(59, "a"), refusal());
    assert_eq!(limiter.check(59, "b"), refusal());
    // The request that arrives once the interval has elapsed reopens the window,
    assert_eq!(limiter.check(75, "a"), Decision::Forward);
    // and the new window is measured from that request.
    assert_eq!(limiter.current_age(80), 5);
    assert_eq!(limiter.count("a"), 1);
    assert_eq!(limiter.count("b"), 0);
    assert_eq!(limiter.check(134, "b"), Decision::Forward);
    assert_eq!(limiter.count("a"), 1);
    assert_eq!(limiter.check(135, "b"), Decision::Forward);
    assert_eq!(limiter.count("a"), 0);
    assert_eq!(limiter.count("b"), 1);
}

#[test]
fn burst_of_k_passes_min_of_k_and_five() {
    for k in 0..=12usize {
        let mut limiter = RateLimiter::new(500);
        let mut forwarded = 0;
        for i in 0..k {
            // Requests of other clients arrive in between.
            if i % 2 == 0 {
                limiter.check(500, "other");
            }
            if limiter.check(500, "burst").is_forward() {
                forwarded += 1;
            }
        }
        assert_eq!(forwarded, k.min(5));
        assert_eq!(limiter.count("burst"), k);
    }
}

#[test]
fn handler_sees_at_most_five_requests_per_window() {
    let mut limiter = RateLimiter::new(0);
    let mut handled = 0;
    for second in 0..60u64 {
        match limiter.check(second, "a") {
            Decision::Forward => handled += 1,
            Decision::Reject(_) => {}
        }
        assert!(handled <= 5);
    }
    assert_eq!(handled, 5);
    for second in 60..120u64 {
        if limiter.check(second, "a").is_forward() {
            handled += 1;
        }
    }
    assert_eq!(handled, 10);
}

#[test]
fn clock_before_the_window_start_does_not_reopen_it() {
    let mut limiter = RateLimiter::new(1_000);
    for _ in 0..5 {
        limiter.check(1_000, "a");
    }
    assert_eq!(limiter.current_age(10), 0);
    assert_eq!(limiter.check(10, "a"), refusal());
    assert_eq!(limiter.count("a"), 6);
}

#[test]
fn new_limiter_is_empty() {
    let limiter = RateLimiter::new(42);
    assert_eq!(limiter.count("anyone"), 0);
    assert_eq!(limiter.current_age(42), 0);
    assert_eq!(limiter.current_age(50), 8);
    let started = RateLimiter::start();
    assert_eq!(started.count("anyone"), 0);
}

#[test]
fn is_forward_tells_the_variants_apart() {
    assert!(Decision::Forward.is_forward());
    assert!(!refusal().is_forward());
}

#[test]
fn client_moves_through_the_phases() {
    let mut limiter = RateLimiter::new(0);
    assert_eq!(limiter.phase("a"), Phase::Fresh);
    for _ in 0..5 {
        assert!(limiter.check(1, "a").is_forward());
        assert_eq!(limiter.phase("a"), Phase::Counting);
    }
    for _ in 0..3 {
        assert!(!limiter.check(2, "a").is_forward());
        assert_eq!(limiter.phase("a"), Phase::Blocked);
    }
    assert_eq!(limiter.phase("b"), Phase::Fresh);
    // Another client's request reopens the window: "a" is fresh again.
    assert!(limiter.check(60, "b").is_forward());
    assert_eq!(limiter.phase("a"), Phase::Fresh);
    assert_eq!(limiter.phase("b"), Phase::Counting);
}

#[test]
fn window_expired_tells_whether_the_next_request_reopens() {
    let mut limiter = RateLimiter::new(100);
    assert!(!limiter.window_expired(100));
    assert!(!limiter.window_expired(159));
    assert!(limiter.window_expired(160));
    assert!(limiter.window_expired(u64::MAX));
    assert!(!limiter.window_expired(0));
    limiter.check(160, "a");
    assert!(!limiter.window_expired(160));
    assert!(!limiter.window_expired(219));
    assert!(limiter.window_expired(220));
}

#[test]
fn started_limiter_opens_its_window_at_the_clock_reading() {
    let before = now_secs();
    let limiter = RateLimiter::start();
    let after = now_secs();
    assert!(!limiter.window_expired(now_secs()));
    // The window opened no earlier than the reading before and no later
    // than the reading after.
    assert_eq!(limiter.current_age(before), 0);
    assert!(limiter.current_age(after) <= after - before);
    assert!(limiter.window_expired(after + 60));
    assert!(!limiter.window_expired(before + 59));
}

#[test]
fn check_now_happens_at_the_clock_reading() {
    let before = now_secs();
    let mut limiter = RateLimiter::new(before.saturating_sub(60));
    for _ in 0..6 {
        limiter.check(before.saturating_sub(60), "unknown");
    }
    assert_eq!(limiter.phase("unknown"), Phase::Blocked);
    // The window is a minute old by the clock, so the request reopens it.
    let headers = axum::http::header::HeaderMap::new();
    assert_eq!(limiter.check_now(&headers), Decision::Forward);
    let after = now_secs();
    assert_eq!(limiter.count("unknown"), 1);
    assert_eq!(limiter.current_age(before), 0);
    assert!(limiter.current_age(after) <= after - before);
}
