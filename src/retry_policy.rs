use vstd::prelude::*;

use crate::retry_policy_builder::RetryPolicyBuilder;
use crate::retry_policy_config::{default_config, ConfigView, RetryPolicyConfig};

verus! {

/// A retry policy: a named handle over the configuration that a retry
/// executor reads.
#[derive(Debug)]
pub struct RetryPolicy {
    config: RetryPolicyConfig,
}

impl View for RetryPolicy {
    type V = ConfigView;

    closed spec fn view(&self) -> ConfigView {
        self.config@
    }
}

impl Default for RetryPolicy {
    fn default() -> (r: Self)
        ensures
            r@ == default_config(),
    {
        RetryPolicy { config: RetryPolicyConfig::new() }
    }
}

impl RetryPolicy {
    /// A builder that starts from the default configuration.
    pub fn builder() -> (r: RetryPolicyBuilder)
        ensures
            r@ == default_config(),
    {
        RetryPolicyBuilder::new()
    }

    /// The policy with the default configuration: no retries and no delay.
    pub fn of_defaults() -> (r: Self)
        ensures
            r@ == default_config(),
    {
        Self::builder().build()
    }

    /// Mutable access to the configuration, for the executor that runs the
    /// retries.
    pub fn get_config(&mut self) -> (r: &mut RetryPolicyConfig)
        ensures
            r@ == old(self)@,
            final(self)@ == final(r)@,
    {
        &mut self.config
    }
}

} // verus!
