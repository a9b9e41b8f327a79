use vstd::prelude::*;

use crate::factor::Factor;
use crate::time_span::TimeSpan;

verus! {

/// The settings of a retry configuration, as seen by contracts.
pub struct ConfigView {
    pub delay_min: Option<TimeSpan>,
    pub delay_max: Option<TimeSpan>,
    pub delay_factor: Factor,
    pub max_delay: Option<TimeSpan>,
    pub jitter: Option<TimeSpan>,
    pub jitter_factor: Factor,
    pub max_duration: Option<TimeSpan>,
    pub max_retries: i32,
}

/// The configuration with nothing set: no delay, no growth, no jitter, no
/// time limit and no retries.
pub open spec fn default_config() -> ConfigView {
    ConfigView {
        delay_min: None,
        delay_max: None,
        delay_factor: Factor::from_integer(1),
        max_delay: None,
        jitter: None,
        jitter_factor: Factor::from_integer(0),
        max_duration: None,
        max_retries: 0,
    }
}

/// Parameters of retry behaviour: randomized delay bounds, backoff growth and
/// cap, jitter, an overall time limit and the number of retries. The setters
/// do no validation; that is the builder's work.
#[derive(Debug)]
pub struct RetryPolicyConfig {
    delay_min: Option<TimeSpan>,
    delay_max: Option<TimeSpan>,
    delay_factor: Factor,
    max_delay: Option<TimeSpan>,
    jitter: Option<TimeSpan>,
    jitter_factor: Factor,
    max_duration: Option<TimeSpan>,
    max_retries: i32,
}

impl View for RetryPolicyConfig {
    type V = ConfigView;

    closed spec fn view(&self) -> ConfigView {
        ConfigView {
            delay_min: self.delay_min,
            delay_max: self.delay_max,
            delay_factor: self.delay_factor,
            max_delay: self.max_delay,
            jitter: self.jitter,
            jitter_factor: self.jitter_factor,
            max_duration: self.max_duration,
            max_retries: self.max_retries,
        }
    }
}

impl Default for RetryPolicyConfig {
    fn default() -> (r: Self)
        ensures
            r@ == default_config(),
    {
        RetryPolicyConfig {
            delay_min: None,
            delay_max: None,
            delay_factor: Factor::from_integer(1),
            max_delay: None,
            jitter: None,
            jitter_factor: Factor::from_integer(0),
            max_duration: None,
            max_retries: 0,
        }
    }
}

impl RetryPolicyConfig {
    /// A configuration with the default values.
    pub fn new() -> (r: Self)
        ensures
            r@ == default_config(),
    {
        Self::default()
    }

    /// Sets the lower bound of the randomized delay.
    pub fn with_delay_min(&mut self, delay: Option<TimeSpan>) -> (r: &mut Self)
        ensures
            r@ == (ConfigView { delay_min: delay, ..old(self)@ }),
            final(self)@ == final(r)@,
    {
        self.delay_min = delay;
        self
    }

    /// Sets the upper bound of the randomized delay.
    pub fn with_delay_max(&mut self, delay: Option<TimeSpan>) -> (r: &mut Self)
        ensures
            r@ == (ConfigView { delay_max: delay, ..old(self)@ }),
            final(self)@ == final(r)@,
    {
        self.delay_max = delay;
        self
    }

    /// Sets the growth rate of the backoff.
    pub fn with_delay_factor(&mut self, factor: Factor) -> (r: &mut Self)
        ensures
            r@ == (ConfigView { delay_factor: factor, ..old(self)@ }),
            final(self)@ == final(r)@,
    {
        self.delay_factor = factor;
        self
    }

    /// Sets the cap of the backoff delay.
    pub fn with_max_delay(&mut self, delay: Option<TimeSpan>) -> (r: &mut Self)
        ensures
            r@ == (ConfigView { max_delay: delay, ..old(self)@ }),
            final(self)@ == final(r)@,
    {
        self.max_delay = delay;
        self
    }

    /// Sets the fixed jitter.
    pub fn with_jitter(&mut self, jitter: Option<TimeSpan>) -> (r: &mut Self)
        ensures
            r@ == (ConfigView { jitter: jitter, ..old(self)@ }),
            final(self)@ == final(r)@,
    {
        self.jitter = jitter;
        self
    }

    /// Sets the share of the delay given to jitter.
    pub fn with_jitter_factor(&mut self, factor: Factor) -> (r: &mut Self)
        ensures
            r@ == (ConfigView { jitter_factor: factor, ..old(self)@ }),
            final(self)@ == final(r)@,
    {
        self.jitter_factor = factor;
        self
    }

    /// Sets the time limit of the whole retry sequence.
    pub fn with_max_duration(&mut self, duration: Option<TimeSpan>) -> (r: &mut Self)
        ensures
            r@ == (ConfigView { max_duration: duration, ..old(self)@ }),
            final(self)@ == final(r)@,
    {
        self.max_duration = duration;
        self
    }

    /// Sets the number of retries after the first attempt; -1 means unlimited.
    pub fn with_max_retries(&mut self, retries: i32) -> (r: &mut Self)
        ensures
            r@ == (ConfigView { max_retries: retries, ..old(self)@ }),
            final(self)@ == final(r)@,
    {
        self.max_retries = retries;
        self
    }

    /// The lower bound of the randomized delay.
    pub fn delay_min(&self) -> (r: Option<TimeSpan>)
        ensures
            r == self@.delay_min,
    {
        self.delay_min
    }

    /// The upper bound of the randomized delay.
    pub fn delay_max(&self) -> (r: Option<TimeSpan>)
        ensures
            r == self@.delay_max,
    {
        self.delay_max
    }

    /// The growth rate of the backoff.
    pub fn delay_factor(&self) -> (r: Factor)
        ensures
            r == self@.delay_factor,
    {
        self.delay_factor
    }

    /// The cap of the backoff delay.
    pub fn max_delay(&self) -> (r: Option<TimeSpan>)
        ensures
            r == self@.max_delay,
    {
        self.max_delay
    }

    /// The fixed jitter.
    pub fn jitter(&self) -> (r: Option<TimeSpan>)
        ensures
            r == self@.jitter,
    {
        self.jitter
    }

    /// The share of the delay given to jitter.
    pub fn jitter_factor(&self) -> (r: Factor)
        ensures
            r == self@.jitter_factor,
    {
        self.jitter_factor
    }

    /// The time limit of the whole retry sequence.
    pub fn max_duration(&self) -> (r: Option<TimeSpan>)
        ensures
            r == self@.max_duration,
    {
        self.max_duration
    }

    /// The number of retries after the first attempt; -1 means unlimited.
    pub fn max_retries(&self) -> (r: i32)
        ensures
            r == self@.max_retries,
    {
        self.max_retries
    }
}

} // verus!
