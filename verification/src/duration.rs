//! A span of time with nanosecond precision, and the two ways the report
//! renders one: exact (sub-second digits kept) or rounded to whole seconds
//! and written in human-friendly units.

use vstd::prelude::*;

use crate::text::{spec_dec, spec_digit, u64_to_string};

verus! {

/// A non-negative span of time: whole seconds plus a sub-second remainder.
#[derive(Clone, Copy, Debug, PartialEq, Eq, Structural)]
pub struct Duration {
    pub secs: u64,
    pub nanos: u32,
}

impl Duration {
    /// The sub-second part never reaches a whole second.
    pub open spec fn wf(self) -> bool {
        self.nanos < 1_000_000_000
    }

    /// The span as a single number of nanoseconds.
    pub open spec fn total_nanos(self) -> int {
        self.secs * 1_000_000_000 + self.nanos
    }

    /// The largest representable span.
    pub open spec fn spec_max() -> Duration {
        Duration { secs: u64::MAX, nanos: 999_999_999 }
    }

    /// Sum of two spans, stuck at the largest representable span on overflow.
    pub open spec fn spec_add(self, rhs: Duration) -> Duration {
        let ns = self.nanos + rhs.nanos;
        let carry: int = if ns >= 1_000_000_000 {
            1
        } else {
            0
        };
        let s = self.secs + rhs.secs + carry;
        if s > u64::MAX {
            Duration::spec_max()
        } else {
            Duration { secs: s as u64, nanos: (ns - carry * 1_000_000_000) as u32 }
        }
    }

    /// Saturating addition.
    pub fn add_sat(self, rhs: Duration) -> (r: Duration)
        requires
            self.wf(),
            rhs.wf(),
        ensures
            r == self.spec_add(rhs),
            r.wf(),
    {
        let mut ns = self.nanos + rhs.nanos;
        let mut carry: u64 = 0;
        if ns >= 1_000_000_000 {
            ns = ns - 1_000_000_000;
            carry = 1;
        }
        if self.secs > u64::MAX - rhs.secs {
            Duration { secs: u64::MAX, nanos: 999_999_999 }
        } else {
            let s = self.secs + rhs.secs;
            if carry == 1 && s == u64::MAX {
                Duration { secs: u64::MAX, nanos: 999_999_999 }
            } else {
                Duration { secs: s + carry, nanos: ns }
            }
        }
    }
}

/// The largest total a span can hold, in nanoseconds.
pub open spec fn max_total() -> int {
    Duration::spec_max().total_nanos()
}

/// Saturating addition of spans is commutative.
pub proof fn lemma_dur_add_comm(a: Duration, b: Duration)
    ensures
        a.spec_add(b) == b.spec_add(a),
{
}

/// Saturating addition adds the spans' totals, clipped at the maximum.
pub proof fn lemma_add_total(a: Duration, b: Duration)
    requires
        a.wf(),
        b.wf(),
    ensures
        a.spec_add(b).wf(),
        a.spec_add(b).total_nanos() == if a.total_nanos() + b.total_nanos() > max_total() {
            max_total()
        } else {
            a.total_nanos() + b.total_nanos()
        },
{
    let ns = a.nanos + b.nanos;
    let carry: int = if ns >= 1_000_000_000 {
        1
    } else {
        0
    };
    let s = a.secs + b.secs + carry;
    if s > u64::MAX {
        assert(a.total_nanos() + b.total_nanos() == (a.secs + b.secs) * 1_000_000_000 + ns);
        assert((a.secs + b.secs) * 1_000_000_000 + ns > max_total());
    } else {
        assert(a.spec_add(b).total_nanos() == s * 1_000_000_000 + (ns - carry * 1_000_000_000));
        assert(s * 1_000_000_000 + (ns - carry * 1_000_000_000) == (a.secs + b.secs)
            * 1_000_000_000 + ns);
        assert(a.total_nanos() + b.total_nanos() == (a.secs + b.secs) * 1_000_000_000 + ns);
    }
}

/// Two well-formed spans with the same total are the same span.
pub proof fn lemma_total_injective(a: Duration, b: Duration)
    requires
        a.wf(),
        b.wf(),
        a.total_nanos() == b.total_nanos(),
    ensures
        a == b,
{
    assert((a.secs - b.secs) * 1_000_000_000 == b.nanos - a.nanos);
    if a.secs != b.secs {
        if a.secs > b.secs {
            assert((a.secs - b.secs) * 1_000_000_000 >= 1_000_000_000);
        } else {
            assert((a.secs - b.secs) * 1_000_000_000 <= -1_000_000_000);
        }
        assert(false);
    }
}

/// Saturating addition of spans is associative.
pub proof fn lemma_dur_add_assoc(a: Duration, b: Duration, c: Duration)
    requires
        a.wf(),
        b.wf(),
        c.wf(),
    ensures
        a.spec_add(b).spec_add(c) == a.spec_add(b.spec_add(c)),
{
    lemma_add_total(a, b);
    lemma_add_total(a.spec_add(b), c);
    lemma_add_total(b, c);
    lemma_add_total(a, b.spec_add(c));
    lemma_total_injective(a.spec_add(b).spec_add(c), a.spec_add(b.spec_add(c)));
}

/// `10^w`.
pub open spec fn pow10(w: nat) -> int
    decreases w,
{
    if w == 0 {
        1
    } else {
        10 * pow10((w - 1) as nat)
    }
}

/// The values of `pow10` that the formatter cares about.
pub proof fn lemma_pow10_values()
    ensures
        pow10(3) == 1_000,
        pow10(6) == 1_000_000,
        pow10(9) == 1_000_000_000,
{
    assert(pow10(0) == 1);
    assert(pow10(1) == 10);
    assert(pow10(2) == 100);
    assert(pow10(3) == 1_000);
    assert(pow10(4) == 10_000);
    assert(pow10(5) == 100_000);
    assert(pow10(6) == 1_000_000);
    assert(pow10(7) == 10_000_000);
    assert(pow10(8) == 100_000_000);
    assert(pow10(9) == 1_000_000_000);
}

/// The last `w` decimal digits of `n`, zero-padded to exactly `w` characters.
pub open spec fn spec_pad(n: int, w: nat) -> Seq<char>
    decreases w,
{
    if w == 0 {
        Seq::empty()
    } else {
        spec_pad(n / 10, (w - 1) as nat).push(spec_digit(n % 10))
    }
}

/// `s` with every trailing `'0'` removed.
pub open spec fn spec_strip0(s: Seq<char>) -> Seq<char>
    decreases s.len(),
{
    if s.len() > 0 && s.last() == '0' {
        spec_strip0(s.drop_last())
    } else {
        s
    }
}

/// The fractional part of a decimal rendering: nothing when `n` is zero, else
/// a dot and the `w`-digit zero-padded form of `n` with trailing zeros cut.
pub open spec fn spec_dot_frac(n: int, w: nat) -> Seq<char> {
    if n == 0 {
        Seq::empty()
    } else {
        seq!['.'] + spec_strip0(spec_pad(n, w))
    }
}

/// Renders `n` zero-padded to `w` digits.
fn pad_u64(n: u64, w: usize) -> (r: String)
    ensures
        r@ == spec_pad(n as int, w as nat),
    decreases w,
{
    if w == 0 {
        let r = String::new();
        proof {
            assert(r@ =~= spec_pad(n as int, w as nat));
        }
        r
    } else {
        let mut s = pad_u64(n / 10, w - 1);
        s.append(crate::text::digit_str(n % 10));
        proof {
            assert(s@ =~= spec_pad(n as int, w as nat));
        }
        s
    }
}

/// Appends the fractional part `spec_dot_frac(n, w)` to `out`.
fn push_frac(out: &mut String, n: u64, w: usize)
    requires
        n < pow10(w as nat),
    ensures
        final(out)@ == old(out)@ + spec_dot_frac(n as int, w as nat),
{
    if n == 0 {
        proof {
            assert(out@ =~= old(out)@ + spec_dot_frac(n as int, w as nat));
        }
        return ;
    }
    let mut m = n;
    let mut wi = w;
    while m % 10 == 0
        invariant
            m > 0,
            m < pow10(wi as nat),
            spec_strip0(spec_pad(n as int, w as nat)) == spec_strip0(
                spec_pad(m as int, wi as nat),
            ),
        decreases m,
    {
        proof {
            if wi == 0 {
                assert(pow10(0) == 1);
                assert(false);
            }
            assert(spec_pad(m as int, wi as nat) == spec_pad(m as int / 10, (wi - 1) as nat).push(
                spec_digit(m as int % 10),
            ));
            assert(spec_digit(m as int % 10) == '0');
            assert(spec_pad(m as int, wi as nat).drop_last() =~= spec_pad(
                m as int / 10,
                (wi - 1) as nat,
            ));
            assert(spec_strip0(spec_pad(m as int, wi as nat)) == spec_strip0(
                spec_pad(m as int / 10, (wi - 1) as nat),
            ));
            assert(pow10(wi as nat) == 10 * pow10((wi - 1) as nat));
            assert(m as int / 10 < pow10((wi - 1) as nat));
        }
        m = m / 10;
        wi = wi - 1;
    }
    proof {
        if wi == 0 {
            assert(pow10(0) == 1);
            assert(false);
        }
        assert(spec_pad(m as int, wi as nat).last() == spec_digit(m as int % 10));
        assert(spec_digit(m as int % 10) != '0');
        assert(spec_strip0(spec_pad(m as int, wi as nat)) == spec_pad(m as int, wi as nat));
    }
    out.append(".");
    let frac = pad_u64(m, wi);
    out.append(frac.as_str());
    proof {
        reveal_strlit(".");
        assert(out@ =~= old(out)@ + spec_dot_frac(n as int, w as nat));
    }
}

/// The exact rendering of a span, in the unit that keeps the leading digit
/// non-zero: seconds, milliseconds, microseconds or nanoseconds, with the
/// fractional digits kept and trailing zeros cut.
pub open spec fn spec_precise(d: Duration) -> Seq<char> {
    if d.secs > 0 {
        spec_dec(d.secs as int) + spec_dot_frac(d.nanos as int, 9) + "s"@
    } else if d.nanos >= 1_000_000 {
        spec_dec(d.nanos as int / 1_000_000) + spec_dot_frac(d.nanos as int % 1_000_000, 6) + "ms"@
    } else if d.nanos >= 1_000 {
        spec_dec(d.nanos as int / 1_000) + spec_dot_frac(d.nanos as int % 1_000, 3) + "µs"@
    } else {
        spec_dec(d.nanos as int) + "ns"@
    }
}

/// Renders a span exactly, as [`spec_precise`] says.
pub fn format_precise(d: &Duration) -> (r: String)
    requires
        d.wf(),
    ensures
        r@ == spec_precise(*d),
{
    proof {
        lemma_pow10_values();
    }
    if d.secs > 0 {
        let mut s = u64_to_string(d.secs);
        push_frac(&mut s, d.nanos as u64, 9);
        s.append("s");
        proof {
            assert(s@ =~= spec_precise(*d));
        }
        s
    } else if d.nanos >= 1_000_000 {
        let mut s = u64_to_string((d.nanos / 1_000_000) as u64);
        push_frac(&mut s, (d.nanos % 1_000_000) as u64, 6);
        s.append("ms");
        proof {
            assert(s@ =~= spec_precise(*d));
        }
        s
    } else if d.nanos >= 1_000 {
        let mut s = u64_to_string((d.nanos / 1_000) as u64);
        push_frac(&mut s, (d.nanos % 1_000) as u64, 3);
        s.append("µs");
        proof {
            assert(s@ =~= spec_precise(*d));
        }
        s
    } else {
        let mut s = u64_to_string(d.nanos as u64);
        s.append("ns");
        proof {
            assert(s@ =~= spec_precise(*d));
        }
        s
    }
}

/// What humantime renders for a whole number of seconds.
pub uninterp spec fn human_secs(secs: u64) -> Seq<char>;

/// Relies on `humantime::format_duration` applied to a whole number of
/// seconds: the text depends on that number alone, and zero seconds render
/// as `0s`.
#[verifier::external_body]
pub fn human_duration_secs(secs: u64) -> (r: String)
    ensures
        r@ == human_secs(secs),
        secs == 0 ==> r@ == "0s"@,
{
    humantime::format_duration(std::time::Duration::from_secs(secs)).to_string()
}

/// How a span is rendered: exactly when `precise` is set, else truncated to
/// whole seconds and written in human-friendly units.
pub open spec fn spec_format(d: Duration, precise: bool) -> Seq<char> {
    if precise {
        spec_precise(d)
    } else {
        human_secs(d.secs)
    }
}

/// The rendering of a span depends on its value and the precision mode alone:
/// two equal spans always render as the same text.
pub proof fn lemma_format_deterministic(a: Duration, b: Duration, precise: bool)
    requires
        a == b,
    ensures
        spec_format(a, precise) == spec_format(b, precise),
{
}

} // verus!
