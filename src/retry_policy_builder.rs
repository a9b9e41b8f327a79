use vstd::prelude::*;

use crate::factor::Factor;
use crate::retry_policy::RetryPolicy;
use crate::retry_policy_config::{default_config, ConfigView};
use crate::time_span::TimeSpan;

verus! {

/// The outcome of a builder step: the advanced builder, or a description of
/// the rule that the step broke.
pub type PolicyResult<T> = Result<T, &'static str>;

/// The configuration that a builder step produced, or its error.
pub open spec fn step_outcome(r: PolicyResult<RetryPolicyBuilder>) -> Result<ConfigView, &'static str> {
    match r {
        Ok(b) => Ok(b@),
        Err(e) => Err(e),
    }
}

// The descriptions that a failed builder step returns.
pub const ERR_ZERO_DELAY: &'static str = "The delay must be greater than zero";

pub const ERR_DELAY_NOT_BELOW_MAX_DURATION: &'static str = "Delay must be less than the max duration";

pub const ERR_DELAY_BELOW_JITTER: &'static str = "Delay must be greater than or equal to the jitter duration";

pub const ERR_DELAY_NOT_BELOW_MAX_DELAY: &'static str = "Delay must be less than the max delay";

pub const ERR_FACTOR_NOT_ABOVE_ONE: &'static str = "Delay factor must be greater than 1";

/// Whether `delay` stays strictly below the time limit of `c`, if it has one.
pub open spec fn below_max_duration(c: ConfigView, delay: TimeSpan) -> bool {
    c.max_duration matches Some(md) ==> delay@ < md@
}

/// Whether `delay` is at least the fixed jitter of `c`, if it has one.
pub open spec fn covers_jitter(c: ConfigView, delay: TimeSpan) -> bool {
    c.jitter matches Some(j) ==> j@ <= delay@
}

/// Backoff from `delay`, growing by `factor` per attempt up to `max_delay`.
pub open spec fn backoff_step(c: ConfigView, delay: TimeSpan, max_delay: TimeSpan, factor: Factor) -> Result<
    ConfigView,
    &'static str,
> {
    if delay@ == 0 {
        Err(ERR_ZERO_DELAY)
    } else if !below_max_duration(c, delay) {
        Err(ERR_DELAY_NOT_BELOW_MAX_DURATION)
    } else if !covers_jitter(c, delay) {
        Err(ERR_DELAY_BELOW_JITTER)
    } else if delay@ >= max_delay@ {
        Err(ERR_DELAY_NOT_BELOW_MAX_DELAY)
    } else if !factor.exceeds_one() {
        Err(ERR_FACTOR_NOT_ABOVE_ONE)
    } else {
        Ok(
            ConfigView {
                max_delay: Some(max_delay),
                delay_factor: factor,
                delay_min: None,
                delay_max: None,
                ..c
            },
        )
    }
}

pub const ERR_ZERO_DELAY_BOUND: &'static str = "delayMin and delayMax must be greater than zero";

pub const ERR_MIN_NOT_BELOW_MAX: &'static str = "delayMin must be less than delayMax";

pub const ERR_DELAY_MAX_NOT_BELOW_MAX_DURATION: &'static str = "delayMax must be less than the max duration";

pub const ERR_DELAY_MIN_BELOW_JITTER: &'static str = "delayMin must be greater than or equal to the jitter duration";

pub const ERR_JITTER_FACTOR_RANGE: &'static str = "jitterFactor must be >= 0 and <= 1";

pub const ERR_ZERO_ATTEMPTS: &'static str = "maxAttempts cannot be 0";

pub const ERR_ATTEMPTS_BELOW_UNLIMITED: &'static str = "maxAttempts must be >= -1";

pub const ERR_ZERO_MAX_DURATION: &'static str = "maxDuration must be greater than zero";

pub const ERR_MAX_DURATION_NOT_ABOVE_DELAY: &'static str = "maxDuration must be greater than the delay";

pub const ERR_MAX_DURATION_NOT_ABOVE_DELAY_MAX: &'static str = "maxDuration must be greater than the max random delay";

pub const ERR_RETRIES_BELOW_UNLIMITED: &'static str = "maxRetries must be >= -1";

/// Fixed delay of `delay` between attempts: clears the backoff cap and the
/// randomized delay bounds.
pub open spec fn delay_step(c: ConfigView, delay: TimeSpan) -> Result<ConfigView, &'static str> {
    if delay@ == 0 {
        Err(ERR_ZERO_DELAY)
    } else if !below_max_duration(c, delay) {
        Err(ERR_DELAY_NOT_BELOW_MAX_DURATION)
    } else if !covers_jitter(c, delay) {
        Err(ERR_DELAY_BELOW_JITTER)
    } else {
        Ok(ConfigView { max_delay: None, delay_min: None, delay_max: None, ..c })
    }
}

/// Randomized delay between `delay_min` and `delay_max`: clears the backoff
/// cap.
pub open spec fn delay_min_max_step(c: ConfigView, delay_min: TimeSpan, delay_max: TimeSpan) -> Result<
    ConfigView,
    &'static str,
> {
    if delay_min@ == 0 || delay_max@ == 0 {
        Err(ERR_ZERO_DELAY_BOUND)
    } else if delay_min@ >= delay_max@ {
        Err(ERR_MIN_NOT_BELOW_MAX)
    } else if !below_max_duration(c, delay_max) {
        Err(ERR_DELAY_MAX_NOT_BELOW_MAX_DURATION)
    } else if !covers_jitter(c, delay_min) {
        Err(ERR_DELAY_MIN_BELOW_JITTER)
    } else {
        Ok(ConfigView { delay_min: Some(delay_min), delay_max: Some(delay_max), max_delay: None, ..c })
    }
}

/// Proportional jitter of `jitter_factor`: clears the fixed jitter.
pub open spec fn jitter_step(c: ConfigView, jitter_factor: Factor) -> Result<ConfigView, &'static str> {
    if !jitter_factor.in_unit_interval() {
        Err(ERR_JITTER_FACTOR_RANGE)
    } else {
        Ok(ConfigView { jitter_factor, jitter: None, ..c })
    }
}

/// The number of retries that allows `max_attempts` attempts in all; -1
/// stands for no limit in both units.
pub open spec fn retries_for_attempts(max_attempts: i32) -> i32 {
    if max_attempts == -1 {
        -1i32
    } else {
        (max_attempts - 1) as i32
    }
}

/// A limit of `max_attempts` attempts in all, -1 for no limit.
pub open spec fn max_attempts_step(c: ConfigView, max_attempts: i32) -> Result<ConfigView, &'static str> {
    if max_attempts == 0 {
        Err(ERR_ZERO_ATTEMPTS)
    } else if max_attempts < -1 {
        Err(ERR_ATTEMPTS_BELOW_UNLIMITED)
    } else {
        Ok(ConfigView { max_retries: retries_for_attempts(max_attempts), ..c })
    }
}

/// A time limit of `max_duration` on the whole retry sequence.
pub open spec fn max_duration_step(c: ConfigView, max_duration: TimeSpan) -> Result<ConfigView, &'static str> {
    if max_duration@ == 0 {
        Err(ERR_ZERO_MAX_DURATION)
    } else if c.delay_min matches Some(d) && max_duration@ <= d@ {
        Err(ERR_MAX_DURATION_NOT_ABOVE_DELAY)
    } else if c.delay_max matches Some(d) && max_duration@ <= d@ {
        Err(ERR_MAX_DURATION_NOT_ABOVE_DELAY_MAX)
    } else {
        Ok(ConfigView { max_duration: Some(max_duration), ..c })
    }
}

/// A limit of `max_retries` retries after the first attempt, -1 for no limit.
pub open spec fn max_retries_step(c: ConfigView, max_retries: i32) -> Result<ConfigView, &'static str> {
    if max_retries < -1 {
        Err(ERR_RETRIES_BELOW_UNLIMITED)
    } else {
        Ok(ConfigView { max_retries, ..c })
    }
}

/// Builds a retry policy one setting at a time. Each step checks the new
/// setting against the settings already present and either hands back the
/// advanced builder or fails with a description of the broken rule.
#[derive(Debug)]
pub struct RetryPolicyBuilder {
    policy: RetryPolicy,
}

impl View for RetryPolicyBuilder {
    type V = ConfigView;

    closed spec fn view(&self) -> ConfigView {
        self.policy@
    }
}

impl RetryPolicyBuilder {
    /// A builder that starts from the default configuration.
    pub fn new() -> (r: Self)
        ensures
            r@ == default_config(),
    {
        RetryPolicyBuilder { policy: RetryPolicy::default() }
    }

    /// Backoff that starts at `delay` and doubles per attempt up to
    /// `max_delay`.
    pub fn with_simple_backoff(self, delay: TimeSpan, max_delay: TimeSpan) -> (r: PolicyResult<Self>)
        ensures
            step_outcome(r) == backoff_step(self@, delay, max_delay, Factor::from_integer(2)),
    {
        self.with_backoff(delay, max_delay, Factor::from_integer(2))
    }

    /// Backoff that starts at `delay` and grows by `delay_factor` per attempt
    /// up to `max_delay`. Clears the randomized delay bounds.
    pub fn with_backoff(self, delay: TimeSpan, max_delay: TimeSpan, delay_factor: Factor) -> (r:
        PolicyResult<Self>)
        ensures
            step_outcome(r) == backoff_step(self@, delay, max_delay, delay_factor),
            r is Ok <==> delay@ > 0 && below_max_duration(self@, delay) && covers_jitter(self@, delay)
                && delay@ < max_delay@ && delay_factor.exceeds_one(),
    {
        let mut builder = self;
        if delay.is_zero() {
            return Err(ERR_ZERO_DELAY);
        }
        if let Some(max_duration) = builder.policy.get_config().max_duration() {
            if !delay.is_shorter_than(&max_duration) {
                return Err(ERR_DELAY_NOT_BELOW_MAX_DURATION);
            }
        }
        if let Some(jitter) = builder.policy.get_config().jitter() {
            if delay.is_shorter_than(&jitter) {
                return Err(ERR_DELAY_BELOW_JITTER);
            }
        }
        if !delay.is_shorter_than(&max_delay) {
            return Err(ERR_DELAY_NOT_BELOW_MAX_DELAY);
        }
        if !delay_factor.is_greater_than_one() {
            return Err(ERR_FACTOR_NOT_ABOVE_ONE);
        }
        builder.policy.get_config().with_max_delay(Some(max_delay)).with_delay_factor(
            delay_factor,
        ).with_delay_min(None).with_delay_max(None);
        Ok(builder)
    }

    /// A fixed delay of `delay` between attempts. Clears the backoff cap and
    /// the randomized delay bounds.
    pub fn with_delay(self, delay: TimeSpan) -> (r: PolicyResult<Self>)
        ensures
            step_outcome(r) == delay_step(self@, delay),
            r is Ok <==> delay@ > 0 && below_max_duration(self@, delay) && covers_jitter(self@, delay),
    {
        let mut builder = self;
        if delay.is_zero() {
            return Err(ERR_ZERO_DELAY);
        }
        if let Some(max_duration) = builder.policy.get_config().max_duration() {
            if !delay.is_shorter_than(&max_duration) {
                return Err(ERR_DELAY_NOT_BELOW_MAX_DURATION);
            }
        }
        if let Some(jitter) = builder.policy.get_config().jitter() {
            if delay.is_shorter_than(&jitter) {
                return Err(ERR_DELAY_BELOW_JITTER);
            }
        }
        builder.policy.get_config().with_max_delay(None).with_delay_min(None).with_delay_max(None);
        Ok(builder)
    }

    /// A delay drawn between `delay_min` and `delay_max`. Clears the backoff
    /// cap.
    pub fn with_delay_min_max(self, delay_min: TimeSpan, delay_max: TimeSpan) -> (r: PolicyResult<Self>)
        ensures
            step_outcome(r) == delay_min_max_step(self@, delay_min, delay_max),
            r is Ok <==> 0 < delay_min@ < delay_max@ && below_max_duration(self@, delay_max)
                && covers_jitter(self@, delay_min),
    {
        let mut builder = self;
        if delay_min.is_zero() || delay_max.is_zero() {
            return Err(ERR_ZERO_DELAY_BOUND);
        }
        if !delay_min.is_shorter_than(&delay_max) {
            return Err(ERR_MIN_NOT_BELOW_MAX);
        }
        if let Some(max_duration) = builder.policy.get_config().max_duration() {
            if !delay_max.is_shorter_than(&max_duration) {
                return Err(ERR_DELAY_MAX_NOT_BELOW_MAX_DURATION);
            }
        }
        if let Some(jitter) = builder.policy.get_config().jitter() {
            if delay_min.is_shorter_than(&jitter) {
                return Err(ERR_DELAY_MIN_BELOW_JITTER);
            }
        }
        builder.policy.get_config().with_delay_min(Some(delay_min)).with_delay_max(Some(delay_max));
        builder.policy.get_config().with_max_delay(None);
        Ok(builder)
    }

    /// Jitter of `jitter_factor` times the delay. Clears the fixed jitter.
    pub fn with_jitter(self, jitter_factor: Factor) -> (r: PolicyResult<Self>)
        ensures
            step_outcome(r) == jitter_step(self@, jitter_factor),
            r is Ok <==> jitter_factor.in_unit_interval(),
    {
        let mut builder = self;
        if !jitter_factor.is_within_unit_interval() {
            return Err(ERR_JITTER_FACTOR_RANGE);
        }
        builder.policy.get_config().with_jitter_factor(jitter_factor);
        builder.policy.get_config().with_jitter(None);
        Ok(builder)
    }

    /// At most `max_attempts` attempts in all, or no limit for -1.
    pub fn with_max_attempts(self, max_attempts: i32) -> (r: PolicyResult<Self>)
        ensures
            step_outcome(r) == max_attempts_step(self@, max_attempts),
            r is Ok <==> max_attempts == -1 || max_attempts >= 1,
    {
        let mut builder = self;
        if max_attempts == 0 {
            return Err(ERR_ZERO_ATTEMPTS);
        }
        if max_attempts < -1 {
            return Err(ERR_ATTEMPTS_BELOW_UNLIMITED);
        }
        builder.policy.get_config().with_max_retries(
            if max_attempts == -1 {
                -1
            } else {
                max_attempts - 1
            },
        );
        Ok(builder)
    }

    /// A time limit of `max_duration` on the whole retry sequence.
    pub fn with_max_duration(self, max_duration: TimeSpan) -> (r: PolicyResult<Self>)
        ensures
            step_outcome(r) == max_duration_step(self@, max_duration),
            r is Ok <==> max_duration@ > 0 && (self@.delay_min matches Some(d) ==> d@ < max_duration@)
                && (self@.delay_max matches Some(d) ==> d@ < max_duration@),
    {
        let mut builder = self;
        if max_duration.is_zero() {
            return Err(ERR_ZERO_MAX_DURATION);
        }
        if let Some(delay) = builder.policy.get_config().delay_min() {
            if !delay.is_shorter_than(&max_duration) {
                return Err(ERR_MAX_DURATION_NOT_ABOVE_DELAY);
            }
        }
        if let Some(delay_max) = builder.policy.get_config().delay_max() {
            if !delay_max.is_shorter_than(&max_duration) {
                return Err(ERR_MAX_DURATION_NOT_ABOVE_DELAY_MAX);
            }
        }
        builder.policy.get_config().with_max_duration(Some(max_duration));
        Ok(builder)
    }

    /// At most `max_retries` retries after the first attempt, or no limit for
    /// -1.
    pub fn with_max_retries(self, max_retries: i32) -> (r: PolicyResult<Self>)
        ensures
            step_outcome(r) == max_retries_step(self@, max_retries),
            r is Ok <==> max_retries >= -1,
    {
        let mut builder = self;
        if max_retries < -1 {
            return Err(ERR_RETRIES_BELOW_UNLIMITED);
        }
        builder.policy.get_config().with_max_retries(max_retries);
        Ok(builder)
    }

    /// The finished policy, holding the configuration built so far.
    pub fn build(self) -> (r: RetryPolicy)
        ensures
            r@ == self@,
    {
        self.policy
    }
}

} // verus!
