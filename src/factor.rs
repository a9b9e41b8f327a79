use vstd::prelude::*;

verus! {

/// An exact rational number `numer / denom` with a positive denominator, used
/// for the growth rate of a backoff and for the share of a delay given to
/// jitter.
#[derive(Clone, Copy, Debug, PartialEq, Eq, Structural)]
pub struct Factor {
    numer: i64,
    denom: u64,
}

impl Factor {
    #[verifier::type_invariant]
    spec fn positive_denominator(self) -> bool {
        self.denom > 0
    }

    /// The numerator.
    pub closed spec fn spec_numer(&self) -> i64 {
        self.numer
    }

    /// The denominator.
    pub closed spec fn spec_denom(&self) -> u64 {
        self.denom
    }

    /// Whether the value is strictly greater than one.
    pub open spec fn exceeds_one(&self) -> bool {
        self.numer() > self.denom()
    }

    /// Whether the value lies in the closed interval from zero to one.
    pub open spec fn in_unit_interval(&self) -> bool {
        0 <= self.numer() <= self.denom()
    }

    /// The numerator and denominator of an integer factor.
    pub proof fn lemma_from_integer(n: i64)
        ensures
            Self::from_integer(n).numer() == n,
            Self::from_integer(n).denom() == 1,
    {
    }

    /// `numer / denom`, or `None` when `denom` is zero.
    pub fn new(numer: i64, denom: u64) -> (r: Option<Self>)
        ensures
            r is Some <==> denom > 0,
            r matches Some(f) ==> f.numer() == numer && f.denom() == denom,
    {
        if denom == 0 {
            None
        } else {
            Some(Factor { numer, denom })
        }
    }

    /// The integer `n` as a factor.
    pub closed spec fn spec_from_integer(n: i64) -> Self {
        Factor { numer: n, denom: 1 }
    }

    /// The integer `n` as a factor.
    #[verifier::when_used_as_spec(spec_from_integer)]
    pub fn from_integer(n: i64) -> (r: Self)
        ensures
            r == Self::from_integer(n),
            r.numer() == n,
            r.denom() == 1,
    {
        Factor { numer: n, denom: 1 }
    }

    #[verifier::when_used_as_spec(spec_numer)]
    pub fn numer(&self) -> (r: i64)
        ensures
            r == self.numer(),
    {
        self.numer
    }

    #[verifier::when_used_as_spec(spec_denom)]
    pub fn denom(&self) -> (r: u64)
        ensures
            r == self.denom(),
            r > 0,
    {
        proof {
            use_type_invariant(self);
        }
        self.denom
    }

    /// Whether the value is strictly greater than one.
    pub fn is_greater_than_one(&self) -> (r: bool)
        ensures
            r == self.exceeds_one(),
    {
        (self.numer as i128) > (self.denom as i128)
    }

    /// Whether the value lies in the closed interval from zero to one.
    pub fn is_within_unit_interval(&self) -> (r: bool)
        ensures
            r == self.in_unit_interval(),
    {
        0 <= self.numer && (self.numer as i128) <= (self.denom as i128)
    }
}

} // verus!
