//! Facts about the builder steps taken together.
use vstd::prelude::*;

use crate::factor::Factor;
use crate::retry_policy_builder::{
    backoff_step, below_max_duration, covers_jitter, delay_min_max_step, delay_step, jitter_step,
    max_attempts_step, max_duration_step, max_retries_step,
};
use crate::retry_policy_config::ConfigView;
use crate::time_span::TimeSpan;

verus! {

/// Simple backoff from a non-zero delay below its cap succeeds wherever the
/// delay fits the time limit and the fixed jitter already set, and it sets the
/// growth rate to exactly two.
pub proof fn lemma_simple_backoff_doubles(c: ConfigView, delay: TimeSpan, max_delay: TimeSpan)
    requires
        0 < delay@ < max_delay@,
        below_max_duration(c, delay),
        covers_jitter(c, delay),
    ensures
        backoff_step(c, delay, max_delay, Factor::from_integer(2)) matches Ok(n) && n.delay_factor
            == Factor::from_integer(2) && n.max_delay == Some(max_delay),
{
    Factor::lemma_from_integer(2);
}

/// Backoff with a growth rate of at most one always fails, whatever the
/// delays.
pub proof fn lemma_backoff_needs_growth(c: ConfigView, delay: TimeSpan, max_delay: TimeSpan, factor: Factor)
    requires
        !factor.exceeds_one(),
    ensures
        backoff_step(c, delay, max_delay, factor) is Err,
{
}

/// A jitter factor outside the interval from zero to one fails; one inside
/// succeeds and is kept as given.
pub proof fn lemma_jitter_factor_range(c: ConfigView, jitter_factor: Factor)
    ensures
        jitter_step(c, jitter_factor) is Err <==> !jitter_factor.in_unit_interval(),
        jitter_factor.in_unit_interval() ==> (jitter_step(c, jitter_factor) matches Ok(n)
            && n.jitter_factor == jitter_factor),
{
}

/// Zero attempts fail; -1 attempts means unlimited retries; `n` attempts for
/// `n` of one or more means `n - 1` retries.
pub proof fn lemma_attempts_to_retries(c: ConfigView, max_attempts: i32)
    ensures
        max_attempts == 0 ==> max_attempts_step(c, max_attempts) is Err,
        max_attempts == -1 ==> (max_attempts_step(c, max_attempts) matches Ok(n)
            && n.max_retries == -1),
        max_attempts >= 1 ==> (max_attempts_step(c, max_attempts) matches Ok(n)
            && n.max_retries == max_attempts - 1),
{
}

/// A time limit fails when an upper delay bound at least as long is already
/// set.
pub proof fn lemma_max_duration_after_delay_max(c: ConfigView, max_duration: TimeSpan)
    requires
        c.delay_max matches Some(d) && max_duration@ <= d@,
    ensures
        max_duration_step(c, max_duration) is Err,
{
}

/// A time limit set first is left as it is by every later delay step that
/// succeeds: the delay steps check against it but never revise it.
pub proof fn lemma_max_duration_kept_by_delay_steps(
    c: ConfigView,
    max_duration: TimeSpan,
    delay: TimeSpan,
    delay_min: TimeSpan,
    delay_max: TimeSpan,
    factor: Factor,
)
    requires
        max_duration_step(c, max_duration) is Ok,
    ensures
        ({
            let c1 = max_duration_step(c, max_duration)->Ok_0;
            &&& delay_min_max_step(c1, delay_min, delay_max) matches Ok(n) ==> n.max_duration
                == Some(max_duration)
            &&& backoff_step(c1, delay, delay_max, factor) matches Ok(n) ==> n.max_duration == Some(
                max_duration,
            )
            &&& delay_step(c1, delay) matches Ok(n) ==> n.max_duration == Some(max_duration)
        }),
{
}

/// Every value that a builder step accepts is found unchanged in the
/// configuration it produces.
pub proof fn lemma_accepted_values_kept(
    c: ConfigView,
    delay: TimeSpan,
    delay_min: TimeSpan,
    delay_max: TimeSpan,
    factor: Factor,
    duration: TimeSpan,
    count: i32,
)
    ensures
        backoff_step(c, delay, delay_max, factor) matches Ok(n) ==> n.max_delay == Some(delay_max)
            && n.delay_factor == factor,
        delay_min_max_step(c, delay_min, delay_max) matches Ok(n) ==> n.delay_min == Some(delay_min)
            && n.delay_max == Some(delay_max),
        jitter_step(c, factor) matches Ok(n) ==> n.jitter_factor == factor,
        max_duration_step(c, duration) matches Ok(n) ==> n.max_duration == Some(duration),
        max_retries_step(c, count) matches Ok(n) ==> n.max_retries == count,
        max_attempts_step(c, count) matches Ok(n) ==> n.max_retries == (if count == -1 {
            -1
        } else {
            count - 1
        }),
{
}

} // verus!
