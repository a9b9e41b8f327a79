//! Construction and validation of retry policies: how long to wait between
//! attempts, how the wait grows, how much it is perturbed, and when to stop.
mod factor;
mod lemmas;
mod retry_policy;
mod retry_policy_builder;
mod retry_policy_config;
mod time_span;

pub use factor::Factor;
pub use lemmas::{
    lemma_accepted_values_kept, lemma_attempts_to_retries, lemma_backoff_needs_growth,
    lemma_jitter_factor_range, lemma_max_duration_after_delay_max,
    lemma_max_duration_kept_by_delay_steps, lemma_simple_backoff_doubles,
};
pub use retry_policy::RetryPolicy;
pub use retry_policy_builder::{
    backoff_step, below_max_duration, covers_jitter, delay_min_max_step, delay_step, jitter_step,
    max_attempts_step, max_duration_step, max_retries_step, retries_for_attempts, step_outcome,
    PolicyResult, RetryPolicyBuilder,
};
pub use retry_policy_config::{default_config, ConfigView, RetryPolicyConfig};
pub use time_span::{TimeSpan, NANOS_PER_MILLI, NANOS_PER_SEC};
