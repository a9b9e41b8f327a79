use vstd::prelude::*;

verus! {

/// Number of nanoseconds in one second.
pub const NANOS_PER_SEC: u32 = 1_000_000_000;

/// Number of nanoseconds in one millisecond.
pub const NANOS_PER_MILLI: u32 = 1_000_000;

/// A non-negative span of time with nanosecond precision: whole seconds plus
/// a sub-second remainder, as `std::time::Duration` holds it.
#[derive(Clone, Copy, Debug, PartialEq, Eq, Structural)]
pub struct TimeSpan {
    secs: u64,
    nanos: u32,
}

impl View for TimeSpan {
    type V = nat;

    /// The span's length in nanoseconds.
    closed spec fn view(&self) -> nat {
        self.secs as nat * NANOS_PER_SEC as nat + self.nanos as nat
    }
}

impl TimeSpan {
    #[verifier::type_invariant]
    spec fn sub_second(self) -> bool {
        self.nanos < NANOS_PER_SEC
    }

    /// The zero-length span.
    pub fn zero() -> (r: Self)
        ensures
            r@ == 0,
    {
        TimeSpan { secs: 0, nanos: 0 }
    }

    /// A span of `secs` whole seconds.
    pub fn from_secs(secs: u64) -> (r: Self)
        ensures
            r@ == secs as nat * NANOS_PER_SEC as nat,
            r.as_secs() == secs,
            r.subsec_nanos() == 0,
    {
        TimeSpan { secs, nanos: 0 }
    }

    /// A span of `millis` milliseconds.
    pub fn from_millis(millis: u64) -> (r: Self)
        ensures
            r@ == millis as nat * NANOS_PER_MILLI as nat,
    {
        let secs: u64 = millis / 1000;
        let rest: u64 = millis % 1000;
        let nanos: u32 = (rest as u32) * NANOS_PER_MILLI;
        assert(secs as nat * NANOS_PER_SEC as nat + nanos as nat
            == millis as nat * NANOS_PER_MILLI as nat) by (nonlinear_arith)
            requires
                secs == millis / 1000,
                rest == millis % 1000,
                nanos == rest * 1_000_000,
        ;
        TimeSpan { secs, nanos }
    }

    /// `secs` seconds plus `nanos` nanoseconds; the nanoseconds may exceed one
    /// second and carry into the seconds. `None` when the seconds overflow.
    pub fn new(secs: u64, nanos: u32) -> (r: Option<Self>)
        ensures
            r is Some <==> secs as nat + nanos as nat / NANOS_PER_SEC as nat <= u64::MAX,
            r matches Some(s) ==> s@ == secs as nat * NANOS_PER_SEC as nat + nanos as nat,
    {
        let carry: u64 = (nanos / NANOS_PER_SEC) as u64;
        let rest: u32 = nanos % NANOS_PER_SEC;
        match secs.checked_add(carry) {
            Some(total) => {
                assert(total as nat * NANOS_PER_SEC as nat + rest as nat
                    == secs as nat * NANOS_PER_SEC as nat + nanos as nat) by (nonlinear_arith)
                    requires
                        total == secs + carry,
                        carry == nanos / 1_000_000_000,
                        rest == nanos % 1_000_000_000,
                ;
                Some(TimeSpan { secs: total, nanos: rest })
            },
            None => None,
        }
    }

    /// The whole seconds of the span.
    pub closed spec fn spec_as_secs(&self) -> u64 {
        self.secs
    }

    /// The sub-second remainder of the span, in nanoseconds.
    pub closed spec fn spec_subsec_nanos(&self) -> u32 {
        self.nanos
    }

    #[verifier::when_used_as_spec(spec_as_secs)]
    pub fn as_secs(&self) -> (r: u64)
        ensures
            r == self.as_secs(),
    {
        self.secs
    }

    #[verifier::when_used_as_spec(spec_subsec_nanos)]
    pub fn subsec_nanos(&self) -> (r: u32)
        ensures
            r == self.subsec_nanos(),
            r < NANOS_PER_SEC,
    {
        proof {
            use_type_invariant(self);
        }
        self.nanos
    }

    /// The length of the span in nanoseconds.
    pub fn as_nanos(&self) -> (r: u128)
        ensures
            r == self@,
    {
        proof {
            use_type_invariant(self);
        }
        assert(self.secs as nat * NANOS_PER_SEC as nat + self.nanos as nat <= u128::MAX)
            by (nonlinear_arith)
            requires
                self.secs <= u64::MAX,
                self.nanos < 1_000_000_000u32,
        ;
        (self.secs as u128) * (NANOS_PER_SEC as u128) + (self.nanos as u128)
    }

    /// Whether the span has length zero.
    pub fn is_zero(&self) -> (r: bool)
        ensures
            r == (self@ == 0),
    {
        self.secs == 0 && self.nanos == 0
    }

    /// Whether this span is strictly shorter than `other`.
    pub fn is_shorter_than(&self, other: &Self) -> (r: bool)
        ensures
            r == (self@ < other@),
    {
        proof {
            use_type_invariant(self);
            use_type_invariant(other);
            lemma_order_by_parts(*self, *other);
        }
        self.secs < other.secs || (self.secs == other.secs && self.nanos < other.nanos)
    }
}

/// Lengths order as the pairs of seconds and remainder do, lexicographically.
proof fn lemma_order_by_parts(a: TimeSpan, b: TimeSpan)
    requires
        a.nanos < NANOS_PER_SEC,
        b.nanos < NANOS_PER_SEC,
    ensures
        (a@ < b@) == (a.secs < b.secs || (a.secs == b.secs && a.nanos < b.nanos)),
        (a.secs == b.secs && a.nanos == b.nanos) ==> a@ == b@,
{
    let (s1, n1, s2, n2) = (a.secs as int, a.nanos as int, b.secs as int, b.nanos as int);
    assert(s1 < s2 ==> s1 * 1_000_000_000 + n1 < s2 * 1_000_000_000 + n2) by (nonlinear_arith)
        requires
            0 <= n1 < 1_000_000_000,
            0 <= n2 < 1_000_000_000,
    ;
    assert(s2 < s1 ==> s2 * 1_000_000_000 + n2 < s1 * 1_000_000_000 + n1) by (nonlinear_arith)
        requires
            0 <= n1 < 1_000_000_000,
            0 <= n2 < 1_000_000_000,
    ;
}

} // verus!
