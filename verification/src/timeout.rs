//! A span of time as whole seconds plus a sub-second nanosecond part.
use vstd::prelude::*;

use crate::text::{decimal, frac_digits, push_decimal, push_frac_digits};

verus! {

/// Nanoseconds in one second.
pub const NANOS_PER_SEC: u32 = 1_000_000_000;

/// A length of time: `secs` seconds and `nanos` nanoseconds, with
/// `nanos < NANOS_PER_SEC`. It is what the configuration stores for its
/// timeouts.
#[derive(Debug, Clone, Copy, PartialEq, Eq)]
pub struct Timeout {
    secs: u64,
    nanos: u32,
}

/// `.` and the fraction digits of `f / (10 * 10^k)`, or nothing when `f` is
/// zero.
pub open spec fn fraction_text(f: nat, k: nat) -> Seq<char> {
    if f == 0 {
        Seq::empty()
    } else {
        "."@ + frac_digits(f, k)
    }
}

/// A duration of `secs` seconds and `nanos` nanoseconds as text, in the
/// largest unit that its value reaches: seconds (`1.5s`), else milliseconds
/// (`250ms`), else microseconds (`µs`), else nanoseconds (`ns`); the
/// integer part in decimal, then the exact fraction without trailing zeros.
pub open spec fn duration_text(secs: u64, nanos: u32) -> Seq<char> {
    if secs > 0 {
        decimal(secs as nat) + fraction_text(nanos as nat, 8) + "s"@
    } else if nanos >= 1_000_000 {
        decimal((nanos / 1_000_000) as nat) + fraction_text((nanos % 1_000_000) as nat, 5) + "ms"@
    } else if nanos >= 1_000 {
        decimal((nanos / 1_000) as nat) + fraction_text((nanos % 1_000) as nat, 2) + "µs"@
    } else {
        decimal(nanos as nat) + "ns"@
    }
}

fn push_fraction(s: &mut String, f: u32, k: u32)
    requires
        k <= 8,
        f < 10 * crate::text::pow10(k as nat),
    ensures
        final(s)@ == old(s)@ + fraction_text(f as nat, k as nat),
{
    if f > 0 {
        s.append(".");
        push_frac_digits(s, f, k);
    }
}

impl View for Timeout {
    /// Whole seconds and sub-second nanoseconds.
    type V = (u64, u32);

    closed spec fn view(&self) -> (u64, u32) {
        (self.secs, self.nanos)
    }
}

impl Timeout {
    #[verifier::type_invariant]
    closed spec fn wf(self) -> bool {
        self.nanos < NANOS_PER_SEC
    }

    /// A timeout of `secs` whole seconds.
    pub fn from_secs(secs: u64) -> (t: Timeout)
        ensures
            t@ == (secs, 0u32),
    {
        Timeout { secs, nanos: 0 }
    }

    /// A timeout of `secs` seconds and `nanos` nanoseconds, the latter below
    /// one second.
    pub fn from_parts(secs: u64, nanos: u32) -> (t: Timeout)
        requires
            nanos < NANOS_PER_SEC,
        ensures
            t@ == (secs, nanos),
    {
        Timeout { secs, nanos }
    }

    /// A timeout of `millis` milliseconds.
    pub fn from_millis(millis: u64) -> (t: Timeout)
        ensures
            t@.0 == millis / 1000,
            t@.1 == (millis % 1000) * 1_000_000,
    {
        let nanos = (millis % 1000) as u32 * 1_000_000;
        Timeout { secs: millis / 1000, nanos }
    }

    /// This timeout lengthened by `secs` whole seconds, or `None` where the
    /// seconds would not fit in a `u64`.
    pub fn checked_add_secs(&self, secs: u64) -> (t: Option<Timeout>)
        ensures
            t matches Some(t) ==> t@ == ((self@.0 + secs) as u64, self@.1),
            t is None <==> self@.0 + secs > u64::MAX,
    {
        proof {
            use_type_invariant(self);
        }
        match self.secs.checked_add(secs) {
            Some(total) => Some(Timeout { secs: total, nanos: self.nanos }),
            None => None,
        }
    }

    /// The whole seconds.
    pub fn as_secs(&self) -> (s: u64)
        ensures
            s == self@.0,
    {
        self.secs
    }

    /// The nanoseconds beyond the whole seconds, always below one second.
    pub fn subsec_nanos(&self) -> (n: u32)
        ensures
            n == self@.1,
            n < NANOS_PER_SEC,
    {
        proof {
            use_type_invariant(self);
        }
        self.nanos
    }

    /// The timeout as text, rendered as `{:?}` renders a
    /// `std::time::Duration`: `7s`, `1.5s`, `250ms`.
    pub fn debug_string(&self) -> (r: String)
        ensures
            r@ == duration_text(self@.0, self@.1),
    {
        proof {
            use_type_invariant(self);
            reveal_with_fuel(crate::text::pow10, 9);
        }
        let mut out = String::new();
        if self.secs > 0 {
            push_decimal(&mut out, self.secs);
            push_fraction(&mut out, self.nanos, 8);
            out.append("s");
        } else if self.nanos >= 1_000_000 {
            push_decimal(&mut out, (self.nanos / 1_000_000) as u64);
            push_fraction(&mut out, self.nanos % 1_000_000, 5);
            out.append("ms");
        } else if self.nanos >= 1_000 {
            push_decimal(&mut out, (self.nanos / 1_000) as u64);
            push_fraction(&mut out, self.nanos % 1_000, 2);
            out.append("µs");
        } else {
            push_decimal(&mut out, self.nanos as u64);
            out.append("ns");
        }
        out
    }
}

} // verus!
