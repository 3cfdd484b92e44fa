//! Digits and small string-building helpers shared by the query encoder,
//! the JSON scanner and the decimal renderer.

use vstd::prelude::*;
use vstd::string::*;

verus! {

/// True when `c` is an ASCII decimal digit.
pub open spec fn is_digit(c: char) -> bool {
    48 <= c as u32 <= 57
}

/// Numeric value of an ASCII digit.
pub open spec fn digit_val(c: char) -> int {
    c as u32 - 48
}

/// True when every character of `s` is an ASCII decimal digit.
pub open spec fn all_digits(s: Seq<char>) -> bool {
    forall|i: int| 0 <= i < s.len() ==> is_digit(#[trigger] s[i])
}

/// Value of a digit string read most-significant first.
pub open spec fn digits_val(s: Seq<char>) -> int
    decreases s.len(),
{
    if s.len() == 0 {
        0
    } else {
        digits_val(s.drop_last()) * 10 + digit_val(s.last())
    }
}

/// The ASCII digit character for a value in `0 ..= 9`.
pub open spec fn digit_char(d: int) -> char {
    ((48 + d) as u8) as char
}

/// Decimal rendering of a natural number, most-significant digit first.
pub open spec fn nat_digits(n: nat) -> Seq<char>
    decreases n,
{
    if n < 10 {
        seq![digit_char(n as int)]
    } else {
        nat_digits(n / 10).push(digit_char((n % 10) as int))
    }
}

/// Index of the first character at or after `i` that is not a digit.
pub open spec fn scan_digits(s: Seq<char>, i: int) -> int
    decreases s.len() - i,
    when 0 <= i <= s.len()
{
    if i < s.len() && is_digit(s[i]) {
        scan_digits(s, i + 1)
    } else {
        i
    }
}

/// What `scan_digits` finds: a maximal run of digits.
pub proof fn lemma_scan_digits(s: Seq<char>, i: int)
    requires
        0 <= i <= s.len(),
    ensures
        i <= scan_digits(s, i) <= s.len(),
        all_digits(s.subrange(i, scan_digits(s, i))),
        scan_digits(s, i) == s.len() || !is_digit(s[scan_digits(s, i)]),
    decreases s.len() - i,
{
    if i < s.len() && is_digit(s[i]) {
        lemma_scan_digits(s, i + 1);
        let j = scan_digits(s, i);
        assert(j == scan_digits(s, i + 1));
        let a = s.subrange(i, j);
        let b = s.subrange(i + 1, j);
        assert forall|m: int| 0 <= m < a.len() implies is_digit(a[m]) by {
            if m == 0 {
                assert(a[0] == s[i]);
            } else {
                assert(a[m] == b[m - 1]);
                assert(is_digit(b[m - 1]));
            }
        }
    }
}

/// Value of a fraction as billionths: the first nine digits count, further
/// digits are truncated away.
pub open spec fn frac9_val(fs: Seq<char>) -> int {
    if fs.len() <= 9 {
        digits_val(fs) * crate::decimal::pow10((9 - fs.len()) as nat)
    } else {
        digits_val(fs.take(9))
    }
}

/// A digit string's value never shrinks when more digits are appended.
pub proof fn lemma_digits_val_prefix_le(s: Seq<char>, i: int, j: int)
    requires
        all_digits(s),
        0 <= i <= j <= s.len(),
    ensures
        0 <= digits_val(s.subrange(0, i)) <= digits_val(s.subrange(0, j)),
    decreases j - i,
{
    lemma_digits_val_nonneg(s.subrange(0, i));
    if i < j {
        lemma_digits_val_prefix_le(s, i + 1, j);
        let a = s.subrange(0, i);
        let b = s.subrange(0, i + 1);
        assert(b.drop_last() =~= a);
        assert(is_digit(s[i]));
        lemma_digits_val_nonneg(a);
    }
}

/// A string of digits has a non-negative value.
pub proof fn lemma_digits_val_nonneg(s: Seq<char>)
    requires
        all_digits(s),
    ensures
        digits_val(s) >= 0,
    decreases s.len(),
{
    if s.len() > 0 {
        let p = s.drop_last();
        assert(all_digits(p)) by {
            assert(forall|i: int| 0 <= i < p.len() ==> p[i] == s[i]);
        }
        lemma_digits_val_nonneg(p);
        assert(is_digit(s.last()));
    }
}

/// A fraction scaled to billionths stays below one billion.
pub proof fn lemma_frac9_bounds(fs: Seq<char>)
    requires
        all_digits(fs),
    ensures
        0 <= frac9_val(fs) < 1_000_000_000,
{
    crate::decimal::lemma_pow10_pos(9);
    assert(crate::decimal::pow10(9) == 1_000_000_000) by {
        reveal_with_fuel(crate::decimal::pow10, 10);
    }
    if fs.len() <= 9 {
        lemma_digits_val_bound(fs);
        let w = fs.len();
        let c = (9 - w) as nat;
        crate::decimal::lemma_pow10_pos(c);
        crate::decimal::lemma_pow10_mul(w, c);
        assert(digits_val(fs) * crate::decimal::pow10(c) < crate::decimal::pow10(w)
            * crate::decimal::pow10(c)) by (nonlinear_arith)
            requires
                digits_val(fs) < crate::decimal::pow10(w),
                crate::decimal::pow10(c) > 0,
        ;
        assert(digits_val(fs) * crate::decimal::pow10(c) >= 0) by (nonlinear_arith)
            requires
                digits_val(fs) >= 0,
                crate::decimal::pow10(c) > 0,
        ;
        lemma_digits_val_nonneg(fs);
    } else {
        let t = fs.take(9);
        assert(all_digits(t)) by {
            assert(forall|i: int| 0 <= i < t.len() ==> t[i] == fs[i]);
        }
        lemma_digits_val_bound(t);
    }
}

/// A string of `n` digits has a value below `pow10(n)`.
pub proof fn lemma_digits_val_bound(s: Seq<char>)
    requires
        all_digits(s),
    ensures
        0 <= digits_val(s) < crate::decimal::pow10(s.len()),
    decreases s.len(),
{
    if s.len() == 0 {
    } else {
        let p = s.drop_last();
        assert(all_digits(p)) by {
            assert(forall|i: int| 0 <= i < p.len() ==> p[i] == s[i]);
        }
        lemma_digits_val_bound(p);
        assert(is_digit(s.last()));
        assert(crate::decimal::pow10(s.len()) == 10 * crate::decimal::pow10(p.len()));
    }
}

/// Appends one character to a string.
///
/// Relies on `String::push` from std: the character is appended at the end.
#[verifier::external_body]
pub fn push_char(s: &mut String, c: char)
    ensures
        final(s)@ == old(s)@.push(c),
{
    s.push(c);
}

/// Compares two strings character by character.
pub fn str_eq(a: &str, b: &str) -> (r: bool)
    ensures
        r == (a@ == b@),
{
    let la = a.unicode_len();
    let lb = b.unicode_len();
    if la != lb {
        proof {
            assert(a@ != b@);
        }
        return false;
    }
    let mut i: usize = 0;
    while i < la
        invariant
            0 <= i <= la,
            la == a@.len(),
            la == b@.len(),
            forall|k: int| 0 <= k < i ==> a@[k] == b@[k],
        decreases la - i,
    {
        if a.get_char(i) != b.get_char(i) {
            proof {
                assert(a@[i as int] != b@[i as int]);
            }
            return false;
        }
        i = i + 1;
    }
    proof {
        assert(a@ =~= b@);
    }
    true
}

/// Parses a base-10 `u64` from `s`.
///
/// Returns `Some` exactly when `s` is a non-empty, pure digit string whose
/// value fits in a `u64`.
pub fn parse_u64(s: &str) -> (r: Option<u64>)
    ensures
        match r {
            Some(v) => s@.len() > 0 && all_digits(s@) && v == digits_val(s@),
            None => !(s@.len() > 0 && all_digits(s@) && digits_val(s@) <= u64::MAX),
        },
{
    let len = s.unicode_len();
    if len == 0 {
        return None;
    }
    let mut acc: u64 = 0;
    let mut i: usize = 0;
    while i < len
        invariant
            0 <= i <= len,
            len == s@.len(),
            all_digits(s@.subrange(0, i as int)),
            acc == digits_val(s@.subrange(0, i as int)),
        decreases len - i,
    {
        let c = s.get_char(i);
        let cv = c as u32;
        if cv < 48 || cv > 57 {
            return None;
        }
        let d: u64 = (cv - 48) as u64;
        proof {
            assert(s@.subrange(0, i + 1).drop_last() =~= s@.subrange(0, i as int));
            assert(s@.subrange(0, i + 1).last() == s@[i as int]);
        }
        if acc > u64::MAX / 10 || (acc == u64::MAX / 10 && d > u64::MAX % 10) {
            proof {
                if all_digits(s@) {
                    lemma_digits_val_prefix_le(s@, i + 1, len as int);
                    assert(s@.subrange(0, len as int) =~= s@);
                }
            }
            return None;
        }
        acc = acc * 10 + d;
        i = i + 1;
    }
    proof {
        assert(s@.subrange(0, len as int) =~= s@);
    }
    Some(acc)
}

/// Renders `n` in base 10.
pub fn u32_string(n: u32) -> (r: String)
    ensures
        r@ == nat_digits(n as nat),
    decreases n,
{
    if n < 10 {
        let mut s = String::new();
        push_char(&mut s, ((48 + n) as u8) as char);
        proof {
            assert(Seq::<char>::empty().push(digit_char(n as int)) =~= nat_digits(n as nat));
        }
        s
    } else {
        let mut s = u32_string(n / 10);
        push_char(&mut s, ((48 + n % 10) as u8) as char);
        s
    }
}

} // verus!
