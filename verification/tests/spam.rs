use mostlybot::spam::RateLimit;
use mostlybot::spam::RateLimiter;
use mostlybot::spam::Spam;
use std::time::Duration;
use std::time::Instant;

const USER_A: &str = "user_a";
const USER_B: &str = "user_b";
const CMD_A: &str = "cmd_a";

const MS: u128 = 1_000_000;

fn user_rate_limit() -> RateLimit {
    RateLimit::new(3, Duration::from_millis(50))
}

fn failed_command_rate_limit() -> RateLimit {
    RateLimit::new(2, Duration::from_millis(100))
}

/// Lets `duration` pass.
fn wait(duration: Duration) {
    let start = Instant::now();
    while start.elapsed() < duration {}
}

/// Helper function to execute cooldown behavior for a rate limit
fn test_cooldown(rate_limit: &RateLimit, mut cooldown_update: impl FnMut() -> Option<Duration>) {
    // Reset cooldown
    wait(rate_limit.duration());

    // Ensure the action is allowed for the number of attempts equal to the rate limit
    for i in 0..rate_limit.max_attempts() {
        assert!(
            cooldown_update().is_none(),
            "Expected no cooldown on attempt {}, but cooldown was returned",
            i + 1
        );
    }

    // Ensure cooldown triggers on the next attempt after the limit
    let remaining_cooldown = cooldown_update();
    assert!(
        remaining_cooldown.is_some(),
        "Expected cooldown after hitting the rate limit, but none was returned"
    );

    // Ensure the cooldown period works correctly by checking remaining time
    assert!(
        remaining_cooldown.unwrap() <= rate_limit.duration(),
        "Cooldown should be less than or equal to the rate limit duration"
    );

    // Wait for the cooldown duration
    wait(rate_limit.duration());

    // Ensure cooldown has expired and actions can resume
    for i in 0..rate_limit.max_attempts() {
        assert!(
            cooldown_update().is_none(),
            "Expected no cooldown after reset, but cooldown was returned on attempt {}",
            i + 1
        );
    }

    // Ensure cooldown triggers again after hitting the limit
    assert!(
        cooldown_update().is_some(),
        "Expected cooldown to trigger again after hitting rate limit"
    );
}

#[test]
fn test_user_rate_limiter() {
    let mut spam = Spam::new(user_rate_limit(), user_rate_limit(), failed_command_rate_limit());

    // Test for USER_A
    test_cooldown(&user_rate_limit(), || spam.update_user_cooldown(USER_A));
    // Test for USER_B, ensure independent user limits
    test_cooldown(&user_rate_limit(), || spam.update_user_cooldown(USER_B));
    // Re-test USER_A to ensure state is maintained between tests
    test_cooldown(&user_rate_limit(), || spam.update_user_cooldown(USER_A));
}

#[test]
fn test_global_command_rate_limiter() {
    let mut spam = Spam::new(user_rate_limit(), user_rate_limit(), failed_command_rate_limit());
    test_cooldown(&user_rate_limit(), || {
        spam.update_global_command_cooldown(CMD_A, &user_rate_limit())
    });
}

#[test]
fn test_zero_limit() {
    let rate_limit = RateLimit::new(0, Duration::from_millis(50));
    let mut spam = Spam::new(rate_limit, rate_limit, rate_limit);

    // No cooldown with zero limit
    for _ in 0..5 {
        assert!(
            spam.update_user_cooldown(USER_A).is_none(),
            "Expected no cooldown when limit is 0, but got some"
        )
    }
}

/// Tests cooldown behavior, cooldown resets, and respects rate limit config
fn test_rate_limiter(limiter: &mut RateLimiter, limit: RateLimit, key: &str) {
    // Expire any previous cooldown before testing
    wait(limit.duration());

    // Stage 1: Ensure actions are allowed up to `max_attempts`
    for i in 0..limit.max_attempts() {
        assert!(
            limiter.enforce_limit(key, None).is_none(),
            "Failure in Stage 1 - Attempt {}: Expected no cooldown, but cooldown was returned",
            i + 1
        );
    }

    // Stage 2: Verify cooldown triggers once attempts exceed the limit
    let remaining_cooldown = limiter.enforce_limit(key, None);
    if limit.is_unlimited() {
        assert!(
            remaining_cooldown.is_none(),
            "Failure in Stage 2 - Expected no cooldown for an unlimited limit, but cooldown was returned"
        );
    } else {
        assert!(
            remaining_cooldown.is_some(),
            "Failure in Stage 2 - Expected cooldown after reaching limit, but no cooldown was returned"
        );

        let cooldown_time = remaining_cooldown.unwrap();
        assert!(
            cooldown_time <= limit.duration(),
            "Failure in Stage 2 - Expected cooldown <= limit duration, but got {:?}",
            cooldown_time
        );
    }

    // Stage 3: Wait for cooldown to expire and verify actions can resume
    wait(limit.duration());

    for i in 0..limit.max_attempts() {
        assert!(
            limiter.enforce_limit(key, None).is_none(),
            "Failure in Stage 3 - After cooldown reset, expected no cooldown, but cooldown was returned on attempt {}",
            i + 1
        );
    }

    // Stage 4: Ensure cooldown triggers again after hitting the limit post-reset
    let post_reset_cooldown = limiter.enforce_limit(key, None);
    if limit.is_unlimited() {
        assert!(
            post_reset_cooldown.is_none(),
            "Failure in Stage 4 - Expected no cooldown again for an unlimited limit, but cooldown was returned"
        );
    } else {
        assert!(
            post_reset_cooldown.is_some(),
            "Failure in Stage 4 - Expected cooldown to trigger after hitting rate limit post-reset, but no cooldown was returned"
        );
    }
}

fn get_test_limits() -> Vec<RateLimit> {
    vec![
        RateLimit::new(3, Duration::from_millis(100)),
        RateLimit::new(2, Duration::from_millis(100)),
        RateLimit::new(1, Duration::from_millis(100)),
        RateLimit::new(0, Duration::from_millis(100)),
        RateLimit::new(0, Duration::ZERO),
        RateLimit::new(1, Duration::ZERO),
        RateLimit::new(2, Duration::ZERO),
        RateLimit::new(3, Duration::ZERO),
        RateLimit::new(69, Duration::from_millis(1)),
    ]
}

#[test]
fn test_rate_limiter_with_various_limits() {
    for (index, limit) in get_test_limits().into_iter().enumerate() {
        let mut limiter = RateLimiter::new(limit);

        println!("Testing limit configuration #{}: {:?}", index + 1, limit);

        // Test with multiple users and multiple invocations to ensure rate limiting applies across different cases
        test_rate_limiter(&mut limiter, limit, "user1");
        test_rate_limiter(&mut limiter, limit, "user2");
        test_rate_limiter(&mut limiter, limit, "user1");

        test_rate_limiter(&mut limiter, limit, "user1");
        test_rate_limiter(&mut limiter, limit, "user2");
        test_rate_limiter(&mut limiter, limit, "user2");
    }
}

#[test]
fn rate_limit_keeps_what_it_was_given() {
    let limit = RateLimit::new(7, Duration::new(3, 141_592_653));
    assert_eq!(limit.max_attempts(), 7);
    assert_eq!(limit.duration(), Duration::new(3, 141_592_653));
    assert!(!limit.is_unlimited());
    // the longest duration there is survives the way through nanoseconds
    let longest = RateLimit::new(1, Duration::MAX);
    assert_eq!(longest.duration(), Duration::MAX);
}

#[test]
fn unlimited_is_no_attempts_or_no_window() {
    assert!(RateLimit::new(0, Duration::from_secs(1)).is_unlimited());
    assert!(RateLimit::new(1, Duration::ZERO).is_unlimited());
    assert!(RateLimit::new(0, Duration::ZERO).is_unlimited());
    assert!(!RateLimit::new(1, Duration::from_nanos(1)).is_unlimited());
}

#[test]
fn unlimited_limit_never_refuses_at_any_time() {
    for limit in [
        RateLimit::new(0, Duration::from_millis(50)),
        RateLimit::new(5, Duration::ZERO),
        RateLimit::new(0, Duration::ZERO),
    ] {
        let mut limiter = RateLimiter::new(limit);
        for call in 0..100u128 {
            assert_eq!(limiter.enforce_limit_at("anyone", None, call), None);
            assert_eq!(limiter.enforce_limit_at("someone else", None, 0), None);
        }
    }
}

#[test]
fn window_allows_n_attempts_then_tells_the_time_left() {
    let limit = RateLimit::new(3, Duration::from_millis(50));
    let mut limiter = RateLimiter::new(limit);
    // the window begins with the first attempt, at 10 ms
    assert_eq!(limiter.enforce_limit_at(USER_A, None, 10 * MS), None);
    assert_eq!(limiter.enforce_limit_at(USER_A, None, 20 * MS), None);
    assert_eq!(limiter.enforce_limit_at(USER_A, None, 30 * MS), None);
    // the fourth is refused: 50 ms - (35 ms - 10 ms) are left
    assert_eq!(limiter.enforce_limit_at(USER_A, None, 35 * MS), Some(25 * MS));
    // a refused attempt changes nothing: the time left only shrinks
    assert_eq!(limiter.enforce_limit_at(USER_A, None, 36 * MS), Some(24 * MS));
    assert_eq!(limiter.enforce_limit_at(USER_A, None, 60 * MS - 1), Some(1));
    // exactly one window after its start the next window begins
    assert_eq!(limiter.enforce_limit_at(USER_A, None, 60 * MS), None);
    assert_eq!(limiter.enforce_limit_at(USER_A, None, 61 * MS), None);
    assert_eq!(limiter.enforce_limit_at(USER_A, None, 62 * MS), None);
    assert_eq!(limiter.enforce_limit_at(USER_A, None, 63 * MS), Some(47 * MS));
}

#[test]
fn refused_at_the_start_of_the_window_waits_the_whole_window() {
    let limit = RateLimit::new(1, Duration::from_secs(5));
    let mut limiter = RateLimiter::new(limit);
    assert_eq!(limiter.enforce_limit_at(USER_A, None, 7), None);
    assert_eq!(limiter.enforce_limit_at(USER_A, None, 7), Some(5_000_000_000));
}

#[test]
fn window_is_fixed_not_sliding() {
    let limit = RateLimit::new(2, Duration::from_millis(100));
    let mut limiter = RateLimiter::new(limit);
    assert_eq!(limiter.enforce_limit_at(USER_A, None, 0), None);
    assert_eq!(limiter.enforce_limit_at(USER_A, None, 90 * MS), None);
    // a new window begins at 100 ms, though the last attempt was 10 ms ago
    assert_eq!(limiter.enforce_limit_at(USER_A, None, 100 * MS), None);
    assert_eq!(limiter.enforce_limit_at(USER_A, None, 101 * MS), None);
    assert_eq!(limiter.enforce_limit_at(USER_A, None, 102 * MS), Some(98 * MS));
}

#[test]
fn clock_reading_before_the_window_counts_as_its_start() {
    let limit = RateLimit::new(1, Duration::from_millis(100));
    let mut limiter = RateLimiter::new(limit);
    assert_eq!(limiter.enforce_limit_at(USER_A, None, 500 * MS), None);
    assert_eq!(limiter.enforce_limit_at(USER_A, None, 400 * MS), Some(100 * MS));
}

#[test]
fn keys_are_independent() {
    let limit = RateLimit::new(2, Duration::from_millis(100));
    let mut limiter = RateLimiter::new(limit);
    assert_eq!(limiter.enforce_limit_at(USER_A, None, 0), None);
    assert_eq!(limiter.enforce_limit_at(USER_A, None, 1), None);
    assert_eq!(limiter.enforce_limit_at(USER_A, None, 2), Some(100 * MS - 2));
    // user_a is used up, user_b has all attempts
    assert_eq!(limiter.enforce_limit_at(USER_B, None, 3), None);
    assert_eq!(limiter.enforce_limit_at(USER_B, None, 4), None);
    assert_eq!(limiter.enforce_limit_at(USER_B, None, 5), Some(100 * MS - 2));
    assert_eq!(limiter.enforce_limit_at(USER_A, None, 6), Some(100 * MS - 6));
}

#[test]
fn limit_given_with_the_call_goes_before_the_default() {
    let mut limiter = RateLimiter::new(RateLimit::new(1, Duration::from_secs(5)));
    let own = RateLimit::new(2, Duration::from_secs(1));
    assert_eq!(limiter.enforce_limit_at("status", Some(&own), 0), None);
    assert_eq!(limiter.enforce_limit_at("status", Some(&own), 1), None);
    assert_eq!(limiter.enforce_limit_at("status", Some(&own), 2), Some(999_999_998));
    // the same record, judged by the default limit
    assert_eq!(limiter.enforce_limit_at("status", None, 2), Some(4_999_999_998));
    // and by no limit at all
    let unlimited = RateLimit::new(0, Duration::from_secs(1));
    assert_eq!(limiter.enforce_limit_at("status", Some(&unlimited), 2), None);
}

#[test]
fn limiter_with_its_own_clock_tells_durations() {
    let limit = RateLimit::new(1, Duration::from_secs(60));
    let mut limiter = RateLimiter::new(limit);
    assert_eq!(limiter.enforce_limit(USER_A, None), None);
    let left = limiter.enforce_limit(USER_A, None).expect("second attempt is refused");
    assert!(left > Duration::from_secs(59));
    assert!(left <= Duration::from_secs(60));
    let later = limiter.enforce_limit(USER_A, None).expect("third attempt is refused");
    assert!(later <= left);
}

#[test]
fn spam_default_limits() {
    let mut spam = Spam::default();
    // 1 command per user per 5 seconds
    assert_eq!(spam.check_user_command_cooldown_at("u", 0), None);
    assert_eq!(spam.check_user_command_cooldown_at("u", 1_000_000_000), Some(4_000_000_000));
    assert_eq!(spam.check_user_command_cooldown_at("u", 5_000_000_000), None);
    // 1 invocation per command per 5 seconds, unless the command says otherwise
    assert_eq!(spam.check_global_command_cooldown_at("c", None, 0), None);
    assert_eq!(spam.check_global_command_cooldown_at("c", None, 2_000_000_000), Some(3_000_000_000));
    let own = RateLimit::new(1, Duration::from_millis(250));
    assert_eq!(spam.check_global_command_cooldown_at("d", Some(&own), 0), None);
    assert_eq!(spam.check_global_command_cooldown_at("d", Some(&own), 100 * MS), Some(150 * MS));
    assert_eq!(spam.check_global_command_cooldown_at("d", Some(&own), 250 * MS), None);
    // 2 failure notices per user per 30 seconds
    assert_eq!(spam.check_failed_command_cooldown_at("u", 0), None);
    assert_eq!(spam.check_failed_command_cooldown_at("u", 1), None);
    assert_eq!(spam.check_failed_command_cooldown_at("u", 10_000_000_000), Some(20_000_000_000));
    assert_eq!(spam.check_failed_command_cooldown_at("u", 30_000_000_000), None);
}

#[test]
fn spam_limiters_do_not_share_keys() {
    let limit = RateLimit::new(1, Duration::from_secs(5));
    let mut spam = Spam::new(limit, limit, limit);
    assert_eq!(spam.check_user_command_cooldown_at("same", 0), None);
    assert_eq!(spam.check_global_command_cooldown_at("same", None, 0), None);
    assert_eq!(spam.check_failed_command_cooldown_at("same", 0), None);
    assert_eq!(spam.check_user_command_cooldown_at("same", 1), Some(4_999_999_999));
    assert_eq!(spam.check_global_command_cooldown_at("same", None, 2), Some(4_999_999_998));
    assert_eq!(spam.check_failed_command_cooldown_at("same", 3), Some(4_999_999_997));
}

#[test]
fn spam_checks_by_its_clock() {
    let limit = RateLimit::new(1, Duration::from_secs(60));
    let mut spam = Spam::new(limit, limit, limit);
    let user = String::from("user");
    let command = String::from("command");
    assert_eq!(spam.check_user_command_cooldown(&user), None);
    assert!(spam.check_user_command_cooldown(&user).unwrap() <= Duration::from_secs(60));
    assert_eq!(spam.check_failed_command_cooldown(&user), None);
    assert!(spam.check_failed_command_cooldown(&user).unwrap() > Duration::from_secs(59));
    assert_eq!(spam.check_global_command_cooldown(&command, None), None);
    assert!(spam.check_global_command_cooldown(&command, None).is_some());
    assert_eq!(spam.update_failed_command_cooldown("other"), None);
    assert!(spam.update_failed_command_cooldown("other").is_some());
    let first = spam.now();
    let second = spam.now();
    assert!(first <= second);
}
