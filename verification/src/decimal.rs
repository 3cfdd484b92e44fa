//! Fixed-point decimal numbers.
//!
//! The API reports prices, percentages and energy amounts as JSON decimal
//! numbers. The library holds each as an integer count of billionths
//! (nine decimal places), which keeps every value exact and lets contracts
//! compare and bound them as plain integers.

use vstd::prelude::*;
use vstd::string::*;

use crate::text::{digit_char, nat_digits, push_char};

verus! {

/// Number of billionths in one whole unit.
pub const DEC_SCALE: i64 = 1_000_000_000;

/// A decimal number held exactly as `units` billionths.
#[derive(Debug, Clone, Copy, PartialEq, Eq, Structural)]
pub struct Dec {
    /// The value, scaled by one billion: `units == 24_330_000_000` is 24.33.
    pub units: i64,
}

/// Ten to the `n`.
pub open spec fn pow10(n: nat) -> nat
    decreases n,
{
    if n == 0 {
        1
    } else {
        10 * pow10((n - 1) as nat)
    }
}

/// `pow10` is positive.
pub proof fn lemma_pow10_pos(n: nat)
    ensures
        pow10(n) >= 1,
    decreases n,
{
    if n > 0 {
        lemma_pow10_pos((n - 1) as nat);
    }
}

/// `pow10` turns addition into multiplication.
pub proof fn lemma_pow10_mul(a: nat, b: nat)
    ensures
        pow10(a) * pow10(b) == pow10((a + b) as nat),
    decreases a,
{
    if a == 0 {
        assert(pow10(0) == 1);
        assert(1 * pow10(b) == pow10(b)) by (nonlinear_arith);
    } else {
        lemma_pow10_mul((a - 1) as nat, b);
        assert(pow10(a) == 10 * pow10((a - 1) as nat));
        assert(pow10((a + b) as nat) == 10 * pow10((a + b - 1) as nat));
        assert((10 * pow10((a - 1) as nat)) * pow10(b) == 10 * (pow10((a - 1) as nat) * pow10(
            b,
        ))) by (nonlinear_arith);
    }
}

/// `pow10` grows with its argument.
pub proof fn lemma_pow10_mono(a: nat, b: nat)
    requires
        a <= b,
    ensures
        0 < pow10(a) <= pow10(b),
    decreases b,
{
    lemma_pow10_pos(a);
    if a < b {
        lemma_pow10_mono(a, (b - 1) as nat);
    }
}

/// Ten to the `n`, executable.
pub fn pow10_u64(n: usize) -> (r: u64)
    requires
        n <= 18,
    ensures
        r == pow10(n as nat),
{
    let mut r: u64 = 1;
    let mut i: usize = 0;
    proof {
        reveal_with_fuel(pow10, 20);
        assert(pow10(18) == 1_000_000_000_000_000_000);
    }
    while i < n
        invariant
            0 <= i <= n <= 18,
            r == pow10(i as nat),
        decreases n - i,
    {
        proof {
            reveal_with_fuel(pow10, 20);
            assert(pow10(17) == 100_000_000_000_000_000);
            lemma_pow10_mono(i as nat, 17);
        }
        r = r * 10;
        i = i + 1;
    }
    r
}

/// Magnitude of `units` as a mathematical integer.
pub open spec fn abs_units(units: i64) -> nat {
    if units < 0 {
        (-(units as int)) as nat
    } else {
        units as nat
    }
}

/// The decimal digits of a fraction of `f` billionths, `scale` places wide,
/// with trailing zeros (and a zero fraction) dropped.
pub open spec fn frac_digits(f: nat, scale: nat) -> Seq<char>
    decreases scale,
{
    if scale == 0 || f == 0 {
        Seq::<char>::empty()
    } else {
        seq![digit_char((f / pow10((scale - 1) as nat)) as int)].add(
            frac_digits(f % pow10((scale - 1) as nat), (scale - 1) as nat),
        )
    }
}

/// Shortest decimal rendering of a value of `units` billionths: sign,
/// integer part, and the fraction only when it is non-zero.
pub open spec fn spec_render_plain(units: int) -> Seq<char> {
    let sign: Seq<char> = if units < 0 {
        seq!['-']
    } else {
        Seq::<char>::empty()
    };
    let a = abs_units(units as i64);
    let ip = a / (DEC_SCALE as nat);
    let fp = a % (DEC_SCALE as nat);
    if fp == 0 {
        sign.add(nat_digits(ip))
    } else {
        sign.add(nat_digits(ip)).add(seq!['.']).add(frac_digits(fp, 9))
    }
}

/// Rendering of a value of `units` billionths with exactly two decimal
/// places, the fraction truncated toward zero.
pub open spec fn spec_render_2dp(units: int) -> Seq<char> {
    let sign: Seq<char> = if units < 0 {
        seq!['-']
    } else {
        Seq::<char>::empty()
    };
    let a = abs_units(units as i64);
    let ip = a / (DEC_SCALE as nat);
    let h = (a % (DEC_SCALE as nat)) / (pow10(7) as nat);
    sign.add(nat_digits(ip)).add(seq!['.']).add(
        seq![digit_char((h / 10) as int), digit_char((h % 10) as int)],
    )
}

/// Renders `n` in base 10.
pub fn u64_string(n: u64) -> (r: String)
    ensures
        r@ == nat_digits(n as nat),
    decreases n,
{
    if n < 10 {
        let mut s = String::new();
        push_char(&mut s, ((48 + n) as u8) as char);
        proof {
            assert(Seq::<char>::empty().push(digit_char(n as int)) =~= nat_digits(n as nat));
        }
        s
    } else {
        let mut s = u64_string(n / 10);
        push_char(&mut s, ((48 + n % 10) as u8) as char);
        s
    }
}

/// Renders the fraction `f` of `pow10(scale)`, trailing zeros dropped.
fn frac_string(f: u64, scale: usize) -> (r: String)
    requires
        scale <= 9,
        f < pow10(scale as nat),
    ensures
        r@ == frac_digits(f as nat, scale as nat),
    decreases scale,
{
    if scale == 0 || f == 0 {
        String::new()
    } else {
        let p = pow10_u64(scale - 1);
        let d = f / p;
        proof {
            assert(pow10(scale as nat) == 10 * pow10((scale - 1) as nat));
            assert(p > 0 && f < 10 * p ==> f / p < 10) by (nonlinear_arith);
            lemma_pow10_mono(0, (scale - 1) as nat);
            assert(f % p < p) by (nonlinear_arith)
                requires
                    p > 0,
            ;
        }
        let mut s = String::new();
        push_char(&mut s, ((48 + d) as u8) as char);
        let rest = frac_string(f % p, scale - 1);
        s.append(rest.as_str());
        proof {
            assert(Seq::<char>::empty().push(digit_char(d as int)) =~= seq![
                digit_char(d as int),
            ]);
        }
        s
    }
}

impl Dec {
    /// Wraps a raw count of billionths.
    pub fn from_units(units: i64) -> (r: Dec)
        ensures
            r.units == units,
    {
        Dec { units }
    }

    /// The magnitude of this value as billionths.
    fn abs_u64(&self) -> (r: u64)
        ensures
            r == abs_units(self.units),
    {
        if self.units == i64::MIN {
            9_223_372_036_854_775_808u64
        } else if self.units < 0 {
            (-self.units) as u64
        } else {
            self.units as u64
        }
    }

    /// This value as a whole number, when it is one: no fractional part,
    /// not negative, and within `u32`.
    pub fn as_whole_u32(&self) -> (r: Option<u32>)
        ensures
            match r {
                Some(v) => self.units == v as i64 * DEC_SCALE,
                None => !(self.units >= 0 && self.units % DEC_SCALE == 0 && self.units
                    / DEC_SCALE <= u32::MAX),
            },
    {
        if self.units >= 0 && self.units % DEC_SCALE == 0 && self.units / DEC_SCALE
            <= u32::MAX as i64 {
            Some((self.units / DEC_SCALE) as u32)
        } else {
            None
        }
    }

    /// Shortest decimal rendering: `45.5` shows as `45.5`, `45` as `45`.
    pub fn render_plain(&self) -> (r: String)
        ensures
            r@ == spec_render_plain(self.units as int),
    {
        let a = self.abs_u64();
        let ip = a / 1_000_000_000u64;
        let fp = a % 1_000_000_000u64;
        proof {
            reveal_with_fuel(pow10, 10);
            assert(pow10(9) == 1_000_000_000);
        }
        let mut s = String::new();
        if self.units < 0 {
            push_char(&mut s, '-');
        }
        let ip_str = u64_string(ip);
        s.append(ip_str.as_str());
        if fp != 0 {
            push_char(&mut s, '.');
            let f_str = frac_string(fp, 9);
            s.append(f_str.as_str());
        }
        proof {
            if self.units < 0 {
                assert(Seq::<char>::empty().push('-') =~= seq!['-']);
            }
            assert(s@ =~= spec_render_plain(self.units as int));
        }
        s
    }

    /// Rendering with exactly two decimal places, truncated toward zero:
    /// `100.5` shows as `100.50`.
    pub fn render_2dp(&self) -> (r: String)
        ensures
            r@ == spec_render_2dp(self.units as int),
    {
        let a = self.abs_u64();
        let ip = a / 1_000_000_000u64;
        let h = (a % 1_000_000_000u64) / 10_000_000u64;
        proof {
            reveal_with_fuel(pow10, 10);
            assert(pow10(7) == 10_000_000);
            assert(a % 1_000_000_000u64 < 1_000_000_000);
            assert(h < 100) by (nonlinear_arith)
                requires
                    h == (a % 1_000_000_000u64) / 10_000_000u64,
                    a % 1_000_000_000u64 < 1_000_000_000,
            ;
        }
        let mut s = String::new();
        if self.units < 0 {
            push_char(&mut s, '-');
        }
        let ip_str = u64_string(ip);
        s.append(ip_str.as_str());
        push_char(&mut s, '.');
        push_char(&mut s, ((48 + h / 10) as u8) as char);
        push_char(&mut s, ((48 + h % 10) as u8) as char);
        proof {
            if self.units < 0 {
                assert(Seq::<char>::empty().push('-') =~= seq!['-']);
            }
            assert(s@ =~= spec_render_2dp(self.units as int));
        }
        s
    }
}

} // verus!
