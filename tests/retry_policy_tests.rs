use retry_policy::{Factor, RetryPolicy, RetryPolicyBuilder, RetryPolicyConfig, TimeSpan};

fn ratio(numer: i64, denom: u64) -> Factor {
    Factor::new(numer, denom).unwrap()
}

fn secs(n: u64) -> TimeSpan {
    TimeSpan::from_secs(n)
}

#[test]
fn build_test() {
    let mut policy = RetryPolicy::builder()
        .with_simple_backoff(secs(1), secs(10))
        .expect("Failed to set simple backoff")
        .with_jitter(ratio(1, 2))
        .expect("Failed to set jitter")
        .with_max_attempts(5)
        .expect("Failed to set max attempts")
        .with_max_duration(secs(30))
        .expect("Failed to set max duration")
        .with_max_retries(3)
        .expect("Failed to set max retries")
        .build();

    let config = policy.get_config();
    assert_eq!(config.max_delay(), Some(secs(10)));
    assert_eq!(config.delay_factor(), Factor::from_integer(2));
    assert_eq!(config.jitter_factor(), ratio(1, 2));
    assert_eq!(config.max_retries(), 3);
    assert_eq!(config.max_duration(), Some(secs(30)));
}

#[test]
fn test_retry_policy_config() {
    let mut config: RetryPolicyConfig = RetryPolicyConfig::new();
    config
        .with_delay_min(Some(secs(1)))
        .with_delay_max(Some(secs(5)))
        .with_delay_factor(Factor::from_integer(2))
        .with_max_delay(Some(secs(10)))
        .with_jitter(Some(TimeSpan::from_millis(100)))
        .with_jitter_factor(ratio(1, 2))
        .with_max_duration(Some(secs(30)))
        .with_max_retries(3);

    assert_eq!(config.delay_min(), Some(secs(1)));
    assert_eq!(config.delay_max(), Some(secs(5)));
    assert_eq!(config.delay_factor(), Factor::from_integer(2));
    assert_eq!(config.max_delay(), Some(secs(10)));
    assert_eq!(config.jitter(), Some(TimeSpan::from_millis(100)));
    assert_eq!(config.jitter_factor(), ratio(1, 2));
    assert_eq!(config.max_duration(), Some(secs(30)));
    assert_eq!(config.max_retries(), 3);
}

#[test]
fn defaults_have_no_retries_and_no_delay() {
    let mut policy = RetryPolicy::of_defaults();
    let config = policy.get_config();
    assert_eq!(config.delay_min(), None);
    assert_eq!(config.delay_max(), None);
    assert_eq!(config.delay_factor(), Factor::from_integer(1));
    assert_eq!(config.max_delay(), None);
    assert_eq!(config.jitter(), None);
    assert_eq!(config.jitter_factor(), Factor::from_integer(0));
    assert_eq!(config.max_duration(), None);
    assert_eq!(config.max_retries(), 0);
}

#[test]
fn simple_backoff_sets_factor_two_and_clears_bounds() {
    let mut policy = RetryPolicyBuilder::new()
        .with_delay_min_max(secs(1), secs(3))
        .unwrap()
        .with_simple_backoff(TimeSpan::from_millis(500), secs(8))
        .unwrap()
        .build();
    let config = policy.get_config();
    assert_eq!(config.delay_factor(), Factor::from_integer(2));
    assert_eq!(config.max_delay(), Some(secs(8)));
    assert_eq!(config.delay_min(), None);
    assert_eq!(config.delay_max(), None);
}

#[test]
fn backoff_keeps_given_factor() {
    let mut policy = RetryPolicy::builder()
        .with_backoff(secs(1), secs(60), ratio(3, 2))
        .unwrap()
        .build();
    assert_eq!(policy.get_config().delay_factor(), ratio(3, 2));
    assert_eq!(policy.get_config().max_delay(), Some(secs(60)));
}

#[test]
fn backoff_rejects_factor_not_above_one() {
    let b = RetryPolicy::builder;
    assert_eq!(
        b().with_backoff(secs(1), secs(10), Factor::from_integer(1)).unwrap_err(),
        "Delay factor must be greater than 1"
    );
    assert!(b().with_backoff(secs(1), secs(10), ratio(1, 2)).is_err());
    assert!(b().with_backoff(secs(1), secs(10), ratio(-3, 1)).is_err());
    assert!(b().with_backoff(secs(1), secs(10), ratio(10, 10)).is_err());
    assert!(b().with_backoff(secs(1), secs(10), ratio(11, 10)).is_ok());
}

#[test]
fn backoff_errors() {
    let b = RetryPolicy::builder;
    let two = Factor::from_integer(2);
    assert_eq!(
        b().with_backoff(TimeSpan::zero(), secs(10), two).unwrap_err(),
        "The delay must be greater than zero"
    );
    assert_eq!(
        b().with_backoff(secs(10), secs(10), two).unwrap_err(),
        "Delay must be less than the max delay"
    );
    assert_eq!(
        b().with_max_duration(secs(5))
            .unwrap()
            .with_backoff(secs(5), secs(10), two)
            .unwrap_err(),
        "Delay must be less than the max duration"
    );
}

#[test]
fn delay_zero_is_rejected() {
    let err = RetryPolicy::builder().with_delay(TimeSpan::zero()).unwrap_err();
    assert_eq!(err, "The delay must be greater than zero");
    assert!(RetryPolicy::builder().with_delay(secs(0)).is_err());
    assert!(RetryPolicy::builder().with_delay(TimeSpan::from_millis(0)).is_err());
}

#[test]
fn delay_clears_backoff_and_bounds() {
    let mut policy = RetryPolicy::builder()
        .with_simple_backoff(secs(1), secs(10))
        .unwrap()
        .with_delay(secs(2))
        .unwrap()
        .build();
    assert_eq!(policy.get_config().max_delay(), None);
    assert_eq!(policy.get_config().delay_min(), None);
    assert_eq!(policy.get_config().delay_max(), None);
}

#[test]
fn delay_must_stay_below_max_duration() {
    let b = RetryPolicy::builder().with_max_duration(secs(3)).unwrap();
    assert_eq!(
        b.with_delay(secs(3)).unwrap_err(),
        "Delay must be less than the max duration"
    );
}

#[test]
fn delay_min_max_min_not_below_max() {
    let err = RetryPolicy::builder()
        .with_delay_min_max(secs(5), secs(1))
        .unwrap_err();
    assert_eq!(err, "delayMin must be less than delayMax");
    assert!(RetryPolicy::builder().with_delay_min_max(secs(2), secs(2)).is_err());
}

#[test]
fn delay_min_max_errors() {
    let b = RetryPolicy::builder;
    assert_eq!(
        b().with_delay_min_max(TimeSpan::zero(), secs(1)).unwrap_err(),
        "delayMin and delayMax must be greater than zero"
    );
    assert_eq!(
        b().with_delay_min_max(secs(1), TimeSpan::zero()).unwrap_err(),
        "delayMin and delayMax must be greater than zero"
    );
    assert_eq!(
        b().with_max_duration(secs(4))
            .unwrap()
            .with_delay_min_max(secs(1), secs(4))
            .unwrap_err(),
        "delayMax must be less than the max duration"
    );
}

#[test]
fn delay_min_max_kept_and_clears_backoff_cap() {
    let mut policy = RetryPolicy::builder()
        .with_simple_backoff(secs(1), secs(10))
        .unwrap()
        .with_delay_min_max(TimeSpan::from_millis(250), secs(2))
        .unwrap()
        .build();
    let config = policy.get_config();
    assert_eq!(config.delay_min(), Some(TimeSpan::from_millis(250)));
    assert_eq!(config.delay_max(), Some(secs(2)));
    assert_eq!(config.max_delay(), None);
}

#[test]
fn jitter_factor_range() {
    let b = RetryPolicy::builder;
    assert_eq!(
        b().with_jitter(ratio(-1, 10)).unwrap_err(),
        "jitterFactor must be >= 0 and <= 1"
    );
    assert!(b().with_jitter(ratio(11, 10)).is_err());
    for f in [ratio(0, 1), ratio(1, 4), ratio(1, 1), ratio(7, 7)] {
        let mut policy = b().with_jitter(f).unwrap().build();
        assert_eq!(policy.get_config().jitter_factor(), f);
        assert_eq!(policy.get_config().jitter(), None);
    }
}

#[test]
fn max_attempts_translate_to_retries() {
    let b = RetryPolicy::builder;
    assert_eq!(b().with_max_attempts(0).unwrap_err(), "maxAttempts cannot be 0");
    assert_eq!(b().with_max_attempts(-2).unwrap_err(), "maxAttempts must be >= -1");
    let mut p = b().with_max_attempts(-1).unwrap().build();
    assert_eq!(p.get_config().max_retries(), -1);
    let mut p = b().with_max_attempts(1).unwrap().build();
    assert_eq!(p.get_config().max_retries(), 0);
    let mut p = b().with_max_attempts(7).unwrap().build();
    assert_eq!(p.get_config().max_retries(), 6);
    let mut p = b().with_max_attempts(i32::MAX).unwrap().build();
    assert_eq!(p.get_config().max_retries(), i32::MAX - 1);
}

#[test]
fn max_retries_range() {
    let b = RetryPolicy::builder;
    assert_eq!(b().with_max_retries(-2).unwrap_err(), "maxRetries must be >= -1");
    let mut p = b().with_max_retries(-1).unwrap().build();
    assert_eq!(p.get_config().max_retries(), -1);
    let mut p = b().with_max_retries(0).unwrap().build();
    assert_eq!(p.get_config().max_retries(), 0);
}

#[test]
fn max_duration_after_larger_delay_max_fails() {
    let b = RetryPolicy::builder().with_delay_min_max(secs(1), secs(10)).unwrap();
    assert_eq!(
        b.with_max_duration(secs(10)).unwrap_err(),
        "maxDuration must be greater than the max random delay"
    );
    let b = RetryPolicy::builder().with_delay_min_max(secs(5), secs(10)).unwrap();
    assert_eq!(
        b.with_max_duration(secs(5)).unwrap_err(),
        "maxDuration must be greater than the delay"
    );
    assert_eq!(
        RetryPolicy::builder().with_max_duration(TimeSpan::zero()).unwrap_err(),
        "maxDuration must be greater than zero"
    );
}

#[test]
fn max_duration_set_first_is_not_revised() {
    let mut policy = RetryPolicy::builder()
        .with_max_duration(secs(30))
        .unwrap()
        .with_backoff(secs(1), secs(60), Factor::from_integer(2))
        .unwrap()
        .build();
    assert_eq!(policy.get_config().max_duration(), Some(secs(30)));
    assert_eq!(policy.get_config().max_delay(), Some(secs(60)));
}

#[test]
fn get_config_changes_are_kept() {
    let mut policy = RetryPolicy::of_defaults();
    policy.get_config().with_max_retries(9);
    assert_eq!(policy.get_config().max_retries(), 9);
}

#[test]
fn time_span_lengths() {
    assert_eq!(TimeSpan::from_millis(1500).as_nanos(), 1_500_000_000);
    assert_eq!(TimeSpan::from_millis(1500).as_secs(), 1);
    assert_eq!(TimeSpan::from_millis(1500).subsec_nanos(), 500_000_000);
    assert_eq!(TimeSpan::new(1, 2_500_000_000), Some(TimeSpan::from_millis(3500)));
    assert_eq!(TimeSpan::new(u64::MAX, 1_000_000_000), None);
    assert!(TimeSpan::from_millis(999).is_shorter_than(&secs(1)));
    assert!(!secs(1).is_shorter_than(&TimeSpan::from_millis(1000)));
    assert!(TimeSpan::zero().is_zero());
}

#[test]
fn factor_parts() {
    assert_eq!(Factor::new(1, 0), None);
    let f = ratio(-3, 4);
    assert_eq!((f.numer(), f.denom()), (-3, 4));
    assert!(ratio(5, 4).is_greater_than_one());
    assert!(!ratio(4, 4).is_greater_than_one());
    assert!(ratio(4, 4).is_within_unit_interval());
    assert!(!f.is_within_unit_interval());
}
