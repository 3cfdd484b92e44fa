//! A JSON tree and its parser.
//!
//! The API's responses are JSON bodies. The parser turns a body into a
//! [`JsonValue`] tree whose numbers are exact fixed-point decimals; the
//! decoders in the model modules then read the tree. The accepted grammar
//! is JSON with two narrowings, which no payload of this API uses: number
//! exponents and `\u` escapes are refused, and fraction digits beyond nine
//! are truncated.

use vstd::prelude::*;
use vstd::string::*;

use crate::decimal::Dec;
use crate::error::AmberError;
use crate::text::{
    all_digits, digits_val, frac9_val, is_digit, lemma_digits_val_nonneg,
    lemma_digits_val_prefix_le, lemma_frac9_bounds, push_char, scan_digits,
};

verus! {

/// A JSON document.
#[derive(Debug)]
pub enum JsonValue {
    Null,
    Bool(bool),
    /// A number, held exactly as billionths.
    Num(Dec),
    Str(String),
    Arr(Vec<JsonValue>),
    /// An object as its members in source order; a lookup takes the first
    /// binding of a key.
    Obj(Vec<(String, JsonValue)>),
}

/// Mathematical image of a [`JsonValue`].
pub enum JsonV {
    Null,
    Bool(bool),
    Num(int),
    Str(Seq<char>),
    Arr(Seq<JsonV>),
    Obj(Seq<(Seq<char>, JsonV)>),
}

/// Images of a sequence of JSON values.
pub open spec fn views_of(v: Seq<JsonValue>) -> Seq<JsonV>
    decreases v,
{
    if v.len() == 0 {
        Seq::<JsonV>::empty()
    } else {
        seq![view_json(v[0])].add(views_of(v.subrange(1, v.len() as int)))
    }
}

/// Images of a sequence of JSON object members.
pub open spec fn member_views_of(v: Seq<(String, JsonValue)>) -> Seq<(Seq<char>, JsonV)>
    decreases v,
{
    if v.len() == 0 {
        Seq::<(Seq<char>, JsonV)>::empty()
    } else {
        seq![(v[0].0@, view_json(v[0].1))].add(member_views_of(v.subrange(1, v.len() as int)))
    }
}

/// Mathematical image of a JSON tree.
pub open spec fn view_json(j: JsonValue) -> JsonV
    decreases j,
{
    match j {
        JsonValue::Null => JsonV::Null,
        JsonValue::Bool(b) => JsonV::Bool(b),
        JsonValue::Num(d) => JsonV::Num(d.units as int),
        JsonValue::Str(s) => JsonV::Str(s@),
        JsonValue::Arr(v) => JsonV::Arr(views_of(v@)),
        JsonValue::Obj(v) => JsonV::Obj(member_views_of(v@)),
    }
}

/// `views_of` maps the sequence pointwise.
pub proof fn lemma_views_of(v: Seq<JsonValue>)
    ensures
        views_of(v).len() == v.len(),
        forall|i: int| 0 <= i < v.len() ==> #[trigger] views_of(v)[i] == view_json(v[i]),
    decreases v.len(),
{
    if v.len() > 0 {
        let rest = v.subrange(1, v.len() as int);
        lemma_views_of(rest);
        assert forall|i: int| 0 <= i < v.len() implies #[trigger] views_of(v)[i] == view_json(
            v[i],
        ) by {
            if i > 0 {
                assert(rest[i - 1] == v[i]);
            }
        }
    }
}

/// `member_views_of` maps the sequence pointwise.
pub proof fn lemma_member_views_of(v: Seq<(String, JsonValue)>)
    ensures
        member_views_of(v).len() == v.len(),
        forall|i: int| 0 <= i < v.len() ==> (#[trigger] member_views_of(v)[i]) == (v[i].0@,
        view_json(v[i].1)),
    decreases v.len(),
{
    if v.len() > 0 {
        let rest = v.subrange(1, v.len() as int);
        lemma_member_views_of(rest);
        assert forall|i: int| 0 <= i < v.len() implies (#[trigger] member_views_of(v)[i]) == (
        v[i].0@, view_json(v[i].1)) by {
            if i > 0 {
                assert(rest[i - 1] == v[i]);
            }
        }
    }
}

impl View for JsonValue {
    type V = JsonV;

    open spec fn view(&self) -> JsonV {
        view_json(*self)
    }
}

/// JSON whitespace.
pub open spec fn is_ws(c: char) -> bool {
    c == ' ' || c == '\t' || c == '\n' || c == '\r'
}

/// Index of the first character at or after `i` that is not whitespace.
pub open spec fn spec_skip_ws(s: Seq<char>, i: int) -> int
    decreases s.len() - i,
    when 0 <= i <= s.len()
{
    if i < s.len() && is_ws(s[i]) {
        spec_skip_ws(s, i + 1)
    } else {
        i
    }
}

/// The character an escape letter stands for, `\uXXXX` excluded.
pub open spec fn spec_unescape(e: char) -> Option<char> {
    if e == '"' {
        Some('"')
    } else if e == '\\' {
        Some('\\')
    } else if e == '/' {
        Some('/')
    } else if e == 'b' {
        Some('\u{8}')
    } else if e == 'f' {
        Some('\u{c}')
    } else if e == 'n' {
        Some('\n')
    } else if e == 'r' {
        Some('\r')
    } else if e == 't' {
        Some('\t')
    } else {
        None
    }
}

/// The rest of a string literal from `i` (inside the quotes), with `acc`
/// the characters already read: the decoded text and the index after the
/// closing quote.
pub open spec fn spec_string_rest(s: Seq<char>, i: int, acc: Seq<char>) -> Option<
    (Seq<char>, int),
>
    decreases s.len() - i,
    when 0 <= i <= s.len()
{
    if i < s.len() {
        let c = s[i];
        if c == '"' {
            Some((acc, i + 1))
        } else if c == '\\' {
            if i + 1 < s.len() {
                match spec_unescape(s[i + 1]) {
                    Some(u) => spec_string_rest(s, i + 2, acc.push(u)),
                    None => None,
                }
            } else {
                None
            }
        } else if (c as u32) < 0x20 {
            None
        } else {
            spec_string_rest(s, i + 1, acc.push(c))
        }
    } else {
        None
    }
}

/// A string literal starting at the opening quote `i`: the decoded text
/// and the index after the closing quote.
pub open spec fn spec_parse_string(s: Seq<char>, i: int) -> Option<(Seq<char>, int)> {
    spec_string_rest(s, i + 1, Seq::<char>::empty())
}

/// A number starting at `i`: its value in billionths and the index after
/// its last digit. An optional minus sign, then digits, then optionally a
/// point and digits; digits past the ninth fractional place are truncated;
/// a magnitude beyond `i64` is refused.
pub open spec fn spec_number(s: Seq<char>, i: int) -> Option<(int, int)> {
    if i < s.len() {
        let neg = s[i] == '-';
        let i1 = if neg {
            i + 1
        } else {
            i
        };
        let i2 = scan_digits(s, i1);
        if i2 == i1 {
            None
        } else {
            let iv = digits_val(s.subrange(i1, i2));
            if i2 < s.len() && s[i2] == '.' {
                let i3 = scan_digits(s, i2 + 1);
                if i3 == i2 + 1 {
                    None
                } else {
                    let mag = iv * 1_000_000_000 + frac9_val(s.subrange(i2 + 1, i3));
                    if mag <= 0x7fff_ffff_ffff_ffff {
                        Some(
                            (
                                if neg {
                                    -mag
                                } else {
                                    mag
                                },
                                i3,
                            ),
                        )
                    } else {
                        None
                    }
                }
            } else {
                let mag = iv * 1_000_000_000;
                if mag <= 0x7fff_ffff_ffff_ffff {
                    Some(
                        (
                            if neg {
                                -mag
                            } else {
                                mag
                            },
                            i2,
                        ),
                    )
                } else {
                    None
                }
            }
        }
    } else {
        None
    }
}

/// A JSON value whose first character stands at `i` (whitespace already
/// skipped): its tree and the index just after it.
pub open spec fn spec_parse_value(s: Seq<char>, i: int) -> Option<(JsonV, int)>
    decreases s.len() - i, 0int,
    when 0 <= i <= s.len()
{
    if i < s.len() {
        let c = s[i];
        if c == 'n' {
            if i + 4 <= s.len() && s[i + 1] == 'u' && s[i + 2] == 'l' && s[i + 3] == 'l' {
                Some((JsonV::Null, i + 4))
            } else {
                None
            }
        } else if c == 't' {
            if i + 4 <= s.len() && s[i + 1] == 'r' && s[i + 2] == 'u' && s[i + 3] == 'e' {
                Some((JsonV::Bool(true), i + 4))
            } else {
                None
            }
        } else if c == 'f' {
            if i + 5 <= s.len() && s[i + 1] == 'a' && s[i + 2] == 'l' && s[i + 3] == 's' && s[i
                + 4] == 'e' {
                Some((JsonV::Bool(false), i + 5))
            } else {
                None
            }
        } else if c == '"' {
            match spec_parse_string(s, i) {
                Some((t, j)) => Some((JsonV::Str(t), j)),
                None => None,
            }
        } else if c == '-' || is_digit(c) {
            match spec_number(s, i) {
                Some((u, j)) => Some((JsonV::Num(u), j)),
                None => None,
            }
        } else if c == '[' {
            let k = spec_skip_ws(s, i + 1);
            if i < k <= s.len() {
                if k < s.len() && s[k] == ']' {
                    Some((JsonV::Arr(Seq::<JsonV>::empty()), k + 1))
                } else {
                    match spec_parse_items(s, k) {
                        Some((elems, j)) => Some((JsonV::Arr(elems), j)),
                        None => None,
                    }
                }
            } else {
                None
            }
        } else if c == '{' {
            let k = spec_skip_ws(s, i + 1);
            if i < k <= s.len() {
                if k < s.len() && s[k] == '}' {
                    Some((JsonV::Obj(Seq::<(Seq<char>, JsonV)>::empty()), k + 1))
                } else {
                    match spec_parse_members(s, k) {
                        Some((members, j)) => Some((JsonV::Obj(members), j)),
                        None => None,
                    }
                }
            } else {
                None
            }
        } else {
            None
        }
    } else {
        None
    }
}

/// One or more array elements from `i` (at a value start) up to and
/// including the closing bracket.
pub open spec fn spec_parse_items(s: Seq<char>, i: int) -> Option<(Seq<JsonV>, int)>
    decreases s.len() - i, 1int,
    when 0 <= i <= s.len()
{
    match spec_parse_value(s, i) {
        None => None,
        Some((v, j)) => {
            if j <= s.len() {
                let k = spec_skip_ws(s, j);
                if k < s.len() && s[k] == ',' {
                    let m = spec_skip_ws(s, k + 1);
                    if i < m <= s.len() {
                        match spec_parse_items(s, m) {
                            Some((rest, e)) => Some((seq![v].add(rest), e)),
                            None => None,
                        }
                    } else {
                        None
                    }
                } else if k < s.len() && s[k] == ']' {
                    Some((seq![v], k + 1))
                } else {
                    None
                }
            } else {
                None
            }
        },
    }
}

/// One or more object members from `i` (at a key's opening quote) up to
/// and including the closing brace.
pub open spec fn spec_parse_members(s: Seq<char>, i: int) -> Option<
    (Seq<(Seq<char>, JsonV)>, int),
>
    decreases s.len() - i, 1int,
    when 0 <= i <= s.len()
{
    if i < s.len() && s[i] == '"' {
        match spec_parse_string(s, i) {
            None => None,
            Some((key, j)) => {
                if j <= s.len() {
                    let k = spec_skip_ws(s, j);
                    if k < s.len() && s[k] == ':' {
                        let m = spec_skip_ws(s, k + 1);
                        if i < m <= s.len() {
                            match spec_parse_value(s, m) {
                                None => None,
                                Some((v, e)) => {
                                    if e <= s.len() {
                                        let w = spec_skip_ws(s, e);
                                        if w < s.len() && s[w] == ',' {
                                            let m2 = spec_skip_ws(s, w + 1);
                                            if i < m2 <= s.len() {
                                                match spec_parse_members(s, m2) {
                                                    Some((rest, e2)) => Some(
                                                        (seq![(key, v)].add(rest), e2),
                                                    ),
                                                    None => None,
                                                }
                                            } else {
                                                None
                                            }
                                        } else if w < s.len() && s[w] == '}' {
                                            Some((seq![(key, v)], w + 1))
                                        } else {
                                            None
                                        }
                                    } else {
                                        None
                                    }
                                },
                            }
                        } else {
                            None
                        }
                    } else {
                        None
                    }
                } else {
                    None
                }
            },
        }
    } else {
        None
    }
}

/// A whole document: one value with nothing but whitespace around it.
pub open spec fn spec_parse_json(s: Seq<char>) -> Option<JsonV> {
    let i = spec_skip_ws(s, 0);
    if 0 <= i <= s.len() {
        match spec_parse_value(s, i) {
            Some((v, j)) => {
                if 0 <= j <= s.len() && spec_skip_ws(s, j) == s.len() {
                    Some(v)
                } else {
                    None
                }
            },
            None => None,
        }
    } else {
        None
    }
}

/// The characters of a string, as a vector.
pub fn str_to_chars(s: &str) -> (r: Vec<char>)
    ensures
        r@ == s@,
{
    let len = s.unicode_len();
    let mut v: Vec<char> = Vec::new();
    let mut i: usize = 0;
    while i < len
        invariant
            0 <= i <= len,
            len == s@.len(),
            v@ =~= s@.subrange(0, i as int),
        decreases len - i,
    {
        v.push(s.get_char(i));
        i = i + 1;
    }
    proof {
        assert(s@.subrange(0, len as int) =~= s@);
    }
    v
}

/// Moves past whitespace.
fn skip_ws(s: &Vec<char>, i: usize) -> (r: usize)
    requires
        i <= s@.len(),
    ensures
        r == spec_skip_ws(s@, i as int),
        i <= r <= s@.len(),
{
    let len = s.len();
    let mut j = i;
    while j < len
        invariant
            i <= j <= len,
            len == s@.len(),
            spec_skip_ws(s@, i as int) == spec_skip_ws(s@, j as int),
        ensures
            i <= j <= len,
            spec_skip_ws(s@, i as int) == spec_skip_ws(s@, j as int),
            j == len || !is_ws(s@[j as int]),
        decreases len - j,
    {
        let c = s[j];
        if !(c == ' ' || c == '\t' || c == '\n' || c == '\r') {
            break ;
        }
        j = j + 1;
    }
    j
}

/// The character an escape letter stands for.
fn unescape(e: char) -> (r: Option<char>)
    ensures
        r == spec_unescape(e),
{
    if e == '"' {
        Some('"')
    } else if e == '\\' {
        Some('\\')
    } else if e == '/' {
        Some('/')
    } else if e == 'b' {
        Some('\u{8}')
    } else if e == 'f' {
        Some('\u{c}')
    } else if e == 'n' {
        Some('\n')
    } else if e == 'r' {
        Some('\r')
    } else if e == 't' {
        Some('\t')
    } else {
        None
    }
}

/// Reads a string literal whose opening quote stands at `i`.
fn parse_string(s: &Vec<char>, i: usize) -> (r: Option<(String, usize)>)
    requires
        i < s@.len(),
        s@[i as int] == '"',
    ensures
        match r {
            Some((t, j)) => spec_parse_string(s@, i as int) == Some((t@, j as int)) && i < j
                <= s@.len(),
            None => spec_parse_string(s@, i as int) is None,
        },
{
    let len = s.len();
    let mut out = String::new();
    let mut j: usize = i + 1;
    loop
        invariant
            i + 1 <= j <= len,
            len == s@.len(),
            spec_string_rest(s@, i + 1, Seq::<char>::empty()) == spec_string_rest(
                s@,
                j as int,
                out@,
            ),
        decreases len - j,
    {
        if j >= len {
            return None;
        }
        let c = s[j];
        if c == '"' {
            return Some((out, j + 1));
        } else if c == '\\' {
            if j + 1 >= len {
                return None;
            }
            let u = match unescape(s[j + 1]) {
                Some(u) => u,
                None => {
                    return None;
                },
            };
            push_char(&mut out, u);
            j = j + 2;
        } else if (c as u32) < 0x20 {
            return None;
        } else {
            push_char(&mut out, c);
            j = j + 1;
        }
    }
}

/// Reads the fraction digits after the point, starting at `at`, scaled to
/// billionths; digits past the ninth are read over and truncated away.
fn parse_frac(s: &Vec<char>, at: usize) -> (r: Option<(u64, usize)>)
    requires
        at <= s@.len(),
    ensures
        match r {
            Some((n, j)) => {
                &&& j == scan_digits(s@, at as int)
                &&& at < j <= s@.len()
                &&& n == frac9_val(s@.subrange(at as int, j as int))
                &&& n < 1_000_000_000
            },
            None => scan_digits(s@, at as int) == at,
        },
{
    proof {
        crate::text::lemma_scan_digits(s@, at as int);
    }
    let ghost end = scan_digits(s@, at as int);
    let len = s.len();
    let mut j: usize = at;
    let mut acc: u64 = 0;
    while j < len
        invariant
            at <= j <= len,
            len == s@.len(),
            j <= end,
            at <= end <= len,
            end == scan_digits(s@, at as int),
            all_digits(s@.subrange(at as int, end as int)),
            end == s@.len() || !is_digit(s@[end as int]),
            acc == if j <= at + 9 {
                digits_val(s@.subrange(at as int, j as int))
            } else {
                digits_val(s@.subrange(at as int, at + 9))
            },
            acc < crate::decimal::pow10(
                if j <= at + 9 {
                    (j - at) as nat
                } else {
                    9
                },
            ),
        ensures
            j == end,
            acc == if j <= at + 9 {
                digits_val(s@.subrange(at as int, j as int))
            } else {
                digits_val(s@.subrange(at as int, at + 9))
            },
        decreases len - j,
    {
        let c = s[j];
        let cv = c as u32;
        if cv < 48 || cv > 57 {
            proof {
                assert(!is_digit(s@[j as int]));
                if j < end {
                    assert(s@.subrange(at as int, end as int)[j - at] == s@[j as int]);
                }
                assert(j == end);
            }
            break ;
        }
        proof {
            assert(is_digit(s@[j as int]));
            if j >= end {
                assert(end < s@.len() && !is_digit(s@[end as int]));
                assert(j == end);
            }
            assert(j < end);
            assert(s@.subrange(at as int, j + 1).drop_last() =~= s@.subrange(at as int, j as int));
            assert(s@.subrange(at as int, j + 1).last() == s@[j as int]);
            reveal_with_fuel(crate::decimal::pow10, 11);
        }
        if j - at < 9 {
            acc = acc * 10 + ((cv - 48) as u64);
        }
        j = j + 1;
    }
    if j == at {
        return None;
    }
    let width = j - at;
    if width <= 9 {
        proof {
            crate::decimal::lemma_pow10_mono((9 - width) as nat, 9);
            crate::text::lemma_digits_val_bound(s@.subrange(at as int, j as int));
            assert(acc * crate::decimal::pow10((9 - width) as nat) < crate::decimal::pow10(
                (width) as nat,
            ) * crate::decimal::pow10((9 - width) as nat)) by (nonlinear_arith)
                requires
                    acc < crate::decimal::pow10((width) as nat),
                    crate::decimal::pow10((9 - width) as nat) > 0,
            ;
            crate::decimal::lemma_pow10_mul(width as nat, (9 - width) as nat);
            reveal_with_fuel(crate::decimal::pow10, 11);
        }
        let scale = crate::decimal::pow10_u64(9 - width);
        Some((acc * scale, j))
    } else {
        proof {
            assert(s@.subrange(at as int, j as int).take(9) =~= s@.subrange(at as int, at + 9));
            reveal_with_fuel(crate::decimal::pow10, 11);
        }
        Some((acc, j))
    }
}

/// Reads a number token whose first character stands at `i`.
fn parse_number(s: &Vec<char>, i: usize) -> (r: Option<(Dec, usize)>)
    requires
        i < s@.len(),
        s@[i as int] == '-' || is_digit(s@[i as int]),
    ensures
        match r {
            Some((d, j)) => spec_number(s@, i as int) == Some((d.units as int, j as int)) && i
                < j <= s@.len(),
            None => spec_number(s@, i as int) is None,
        },
{
    let len = s.len();
    let neg = s[i] == '-';
    let i1: usize = if neg {
        i + 1
    } else {
        i
    };
    proof {
        crate::text::lemma_scan_digits(s@, i1 as int);
    }
    let ghost i2 = scan_digits(s@, i1 as int);
    let limit: u64 = 9_223_372_036_854_775_807u64;
    let mut j: usize = i1;
    let mut acc: u64 = 0;
    while j < len
        invariant
            i < len,
            len == s@.len(),
            neg == (s@[i as int] == '-'),
            i1 == if neg {
                i + 1
            } else {
                i as int
            },
            i1 <= j <= len,
            j <= i2,
            i1 <= i2 <= len,
            i2 == scan_digits(s@, i1 as int),
            all_digits(s@.subrange(i1 as int, i2 as int)),
            i2 == s@.len() || !is_digit(s@[i2 as int]),
            acc == digits_val(s@.subrange(i1 as int, j as int)),
            acc <= limit,
            limit == 0x7fff_ffff_ffff_ffff,
        ensures
            j == i2,
            acc == digits_val(s@.subrange(i1 as int, j as int)),
            acc <= limit,
        decreases len - j,
    {
        let c = s[j];
        let cv = c as u32;
        if cv < 48 || cv > 57 {
            proof {
                assert(!is_digit(s@[j as int]));
                if j < i2 {
                    assert(s@.subrange(i1 as int, i2 as int)[j - i1] == s@[j as int]);
                }
                assert(j == i2);
            }
            break ;
        }
        let d = (cv - 48) as u64;
        proof {
            assert(is_digit(s@[j as int]));
            if j >= i2 {
                assert(i2 < s@.len() && !is_digit(s@[i2 as int]));
                assert(j == i2);
            }
            assert(j < i2);
            assert(s@.subrange(i1 as int, j + 1).drop_last() =~= s@.subrange(i1 as int, j as int));
            assert(s@.subrange(i1 as int, j + 1).last() == s@[j as int]);
        }
        if acc > limit / 10 || (acc == limit / 10 && d > limit % 10) {
            // The integer part alone is already past `i64`, so whatever
            // fraction follows, the number is refused.
            proof {
                lemma_digits_val_prefix_le(
                    s@.subrange(i1 as int, i2 as int),
                    j + 1 - i1,
                    i2 - i1,
                );
                assert(s@.subrange(i1 as int, i2 as int).subrange(0, j + 1 - i1) =~= s@.subrange(
                    i1 as int,
                    j + 1,
                ));
                assert(s@.subrange(i1 as int, i2 as int).subrange(0, i2 - i1) =~= s@.subrange(
                    i1 as int,
                    i2 as int,
                ));
                assert(i <= i1 <= i2 <= s@.len());
                assert(digits_val(s@.subrange(i1 as int, j + 1)) == acc * 10 + d);
                assert(digits_val(s@.subrange(i1 as int, i2 as int)) > 0x7fff_ffff_ffff_ffffint);
                lemma_number_overflow(s@, i as int, i1 as int, i2 as int);
            }
            return None;
        }
        acc = acc * 10 + d;
        j = j + 1;
    }
    if j == i1 {
        return None;
    }
    let mut frac: u64 = 0;
    let mut end: usize = j;
    if j < len && s[j] == '.' {
        let (f, e) = match parse_frac(s, j + 1) {
            Some(p) => p,
            None => {
                return None;
            },
        };
        frac = f;
        end = e;
    }
    proof {
        lemma_digits_val_nonneg(s@.subrange(i1 as int, j as int));
        if j < s@.len() && s@[j as int] == '.' {
            assert(frac == frac9_val(s@.subrange(j + 1, end as int)));
        }
    }
    if acc > limit / 1_000_000_000 {
        proof {
            lemma_mag_overflow(acc as int, frac as int);
        }
        return None;
    }
    let prod = acc * 1_000_000_000;
    proof {
        assert(prod <= limit) by (nonlinear_arith)
            requires
                acc <= limit / 1_000_000_000,
                prod == acc * 1_000_000_000,
                limit == 0x7fff_ffff_ffff_ffff,
        ;
    }
    if frac > limit - prod {
        return None;
    }
    let total = prod + frac;
    let units: i64 = if neg {
        -(total as i64)
    } else {
        total as i64
    };
    Some((Dec { units }, end))
}

/// Reads the JSON value whose first character stands at `i` (whitespace
/// already skipped).
pub fn parse_value(s: &Vec<char>, i: usize) -> (r: Option<(JsonValue, usize)>)
    requires
        i <= s@.len(),
    ensures
        match r {
            Some((v, j)) => spec_parse_value(s@, i as int) == Some((v@, j as int)) && i < j
                <= s@.len(),
            None => spec_parse_value(s@, i as int) is None,
        },
    decreases s@.len() - i, 1int,
{
    let len = s.len();
    if i >= len {
        return None;
    }
    let c = s[i];
    let cv = c as u32;
    if c == 'n' {
        if len - i >= 4 && s[i + 1] == 'u' && s[i + 2] == 'l' && s[i + 3] == 'l' {
            Some((JsonValue::Null, i + 4))
        } else {
            None
        }
    } else if c == 't' {
        if len - i >= 4 && s[i + 1] == 'r' && s[i + 2] == 'u' && s[i + 3] == 'e' {
            Some((JsonValue::Bool(true), i + 4))
        } else {
            None
        }
    } else if c == 'f' {
        if len - i >= 5 && s[i + 1] == 'a' && s[i + 2] == 'l' && s[i + 3] == 's' && s[i + 4]
            == 'e' {
            Some((JsonValue::Bool(false), i + 5))
        } else {
            None
        }
    } else if c == '"' {
        match parse_string(s, i) {
            Some((t, j)) => Some((JsonValue::Str(t), j)),
            None => None,
        }
    } else if c == '-' || (48 <= cv && cv <= 57) {
        match parse_number(s, i) {
            Some((d, j)) => Some((JsonValue::Num(d), j)),
            None => None,
        }
    } else if c == '[' {
        parse_array(s, i)
    } else if c == '{' {
        parse_object(s, i)
    } else {
        None
    }
}

/// Reads an array whose opening bracket stands at `i`.
fn parse_array(s: &Vec<char>, i: usize) -> (r: Option<(JsonValue, usize)>)
    requires
        i < s@.len(),
        s@[i as int] == '[',
    ensures
        match r {
            Some((v, j)) => spec_parse_value(s@, i as int) == Some((v@, j as int)) && i < j
                <= s@.len(),
            None => spec_parse_value(s@, i as int) is None,
        },
    decreases s@.len() - i, 0int,
{
    let len = s.len();
    let k = skip_ws(s, i + 1);
    if k < len && s[k] == ']' {
        let out = JsonValue::Arr(Vec::new());
        proof {
            assert(views_of(Seq::<JsonValue>::empty()) =~= Seq::<JsonV>::empty());
        }
        return Some((out, k + 1));
    }
    let mut elems: Vec<JsonValue> = Vec::new();
    let mut cur = k;
    proof {
        assert(views_of(elems@) =~= Seq::<JsonV>::empty());
        if spec_parse_items(s@, cur as int) is Some {
            let (rest, _e) = spec_parse_items(s@, cur as int)->Some_0;
            assert(views_of(elems@).add(rest) =~= rest);
        }
    }
    loop
        invariant
            i < k <= cur <= s@.len(),
            len == s@.len(),
            s@[i as int] == '[',
            k == spec_skip_ws(s@, i + 1),
            !(k < s@.len() && s@[k as int] == ']'),
            match spec_parse_items(s@, cur as int) {
                Some((rest, e)) => spec_parse_value(s@, i as int) == Some(
                    (JsonV::Arr(views_of(elems@).add(rest)), e),
                ),
                None => spec_parse_value(s@, i as int) is None,
            },
        decreases s@.len() - cur,
    {
        match parse_value(s, cur) {
            None => {
                return None;
            },
            Some((v, j)) => {
                let m = skip_ws(s, j);
                if m < len && s[m] == ',' {
                    let cur2 = skip_ws(s, m + 1);
                    proof {
                        lemma_views_of(elems@);
                        lemma_views_of(elems@.push(v));
                        assert(views_of(elems@.push(v)) =~= views_of(elems@).push(view_json(v)));
                        if spec_parse_items(s@, cur2 as int) is Some {
                            let (rest2, _e) = spec_parse_items(s@, cur2 as int)->Some_0;
                            assert(views_of(elems@).add(seq![view_json(v)].add(rest2))
                                =~= views_of(elems@).push(view_json(v)).add(rest2));
                        }
                    }
                    elems.push(v);
                    cur = cur2;
                } else if m < len && s[m] == ']' {
                    proof {
                        lemma_views_of(elems@);
                        lemma_views_of(elems@.push(v));
                        assert(views_of(elems@.push(v)) =~= views_of(elems@).push(view_json(v)));
                        assert(views_of(elems@).add(seq![view_json(v)]) =~= views_of(
                            elems@,
                        ).push(view_json(v)));
                    }
                    elems.push(v);
                    return Some((JsonValue::Arr(elems), m + 1));
                } else {
                    return None;
                }
            },
        }
    }
}

/// Reads an object whose opening brace stands at `i`.
fn parse_object(s: &Vec<char>, i: usize) -> (r: Option<(JsonValue, usize)>)
    requires
        i < s@.len(),
        s@[i as int] == '{',
    ensures
        match r {
            Some((v, j)) => spec_parse_value(s@, i as int) == Some((v@, j as int)) && i < j
                <= s@.len(),
            None => spec_parse_value(s@, i as int) is None,
        },
    decreases s@.len() - i, 0int,
{
    let len = s.len();
    let k = skip_ws(s, i + 1);
    if k < len && s[k] == '}' {
        let out = JsonValue::Obj(Vec::new());
        proof {
            assert(member_views_of(Seq::<(String, JsonValue)>::empty()) =~= Seq::<
                (Seq<char>, JsonV),
            >::empty());
        }
        return Some((out, k + 1));
    }
    let mut members: Vec<(String, JsonValue)> = Vec::new();
    let mut cur = k;
    proof {
        assert(member_views_of(members@) =~= Seq::<(Seq<char>, JsonV)>::empty());
        if spec_parse_members(s@, cur as int) is Some {
            let (rest, _e) = spec_parse_members(s@, cur as int)->Some_0;
            assert(member_views_of(members@).add(rest) =~= rest);
        }
    }
    loop
        invariant
            i < k <= cur <= s@.len(),
            len == s@.len(),
            s@[i as int] == '{',
            k == spec_skip_ws(s@, i + 1),
            !(k < s@.len() && s@[k as int] == '}'),
            match spec_parse_members(s@, cur as int) {
                Some((rest, e)) => spec_parse_value(s@, i as int) == Some(
                    (JsonV::Obj(member_views_of(members@).add(rest)), e),
                ),
                None => spec_parse_value(s@, i as int) is None,
            },
        decreases s@.len() - cur,
    {
        if !(cur < len && s[cur] == '"') {
            return None;
        }
        let (key, j) = match parse_string(s, cur) {
            Some(p) => p,
            None => {
                return None;
            },
        };
        let m = skip_ws(s, j);
        if !(m < len && s[m] == ':') {
            return None;
        }
        let m1 = skip_ws(s, m + 1);
        let (v, e) = match parse_value(s, m1) {
            Some(p) => p,
            None => {
                return None;
            },
        };
        let w = skip_ws(s, e);
        if w < len && s[w] == ',' {
            let cur2 = skip_ws(s, w + 1);
            proof {
                lemma_member_views_of(members@);
                lemma_member_views_of(members@.push((key, v)));
                assert(member_views_of(members@.push((key, v))) =~= member_views_of(
                    members@,
                ).push((key@, view_json(v))));
                if spec_parse_members(s@, cur2 as int) is Some {
                    let (rest2, _e) = spec_parse_members(s@, cur2 as int)->Some_0;
                    assert(member_views_of(members@).add(seq![(key@, view_json(v))].add(rest2))
                        =~= member_views_of(members@).push((key@, view_json(v))).add(rest2));
                }
            }
            members.push((key, v));
            cur = cur2;
        } else if w < len && s[w] == '}' {
            proof {
                lemma_member_views_of(members@);
                lemma_member_views_of(members@.push((key, v)));
                assert(member_views_of(members@.push((key, v))) =~= member_views_of(
                    members@,
                ).push((key@, view_json(v))));
                assert(member_views_of(members@).add(seq![(key@, view_json(v))])
                    =~= member_views_of(members@).push((key@, view_json(v))));
            }
            members.push((key, v));
            return Some((JsonValue::Obj(members), w + 1));
        } else {
            return None;
        }
    }
}

/// Parses a whole response body: one JSON value with nothing but
/// whitespace around it. Anything else is a deserialization error.
pub fn parse_json(s: &str) -> (r: Result<JsonValue, AmberError>)
    ensures
        match r {
            Ok(v) => spec_parse_json(s@) == Some(v@),
            Err(e) => spec_parse_json(s@) is None && e@ is Deserialization,
        },
{
    let chars = str_to_chars(s);
    let i = skip_ws(&chars, 0);
    match parse_value(&chars, i) {
        Some((v, j)) => {
            let e = skip_ws(&chars, j);
            if e == chars.len() {
                Ok(v)
            } else {
                Err(AmberError::Deserialization(String::from_str("trailing characters")))
            }
        },
        None => Err(AmberError::Deserialization(String::from_str("malformed JSON body"))),
    }
}

/// Past the `i64` range: a magnitude with this integer part is refused.
proof fn lemma_mag_overflow(acc: int, frac: int)
    requires
        acc > 0x7fff_ffff_ffff_ffffint / 1_000_000_000,
        frac >= 0,
    ensures
        acc * 1_000_000_000 + frac > 0x7fff_ffff_ffff_ffffint,
{
    assert(acc * 1_000_000_000 > 0x7fff_ffff_ffff_ffffint) by (nonlinear_arith)
        requires
            acc >= 0x7fff_ffff_ffff_ffffint / 1_000_000_000 + 1,
    ;
}

/// An integer part past `i64` refuses the whole number, whatever follows.
proof fn lemma_number_overflow(s: Seq<char>, i: int, i1: int, i2: int)
    requires
        0 <= i <= i1 <= i2 <= s.len(),
        i < s.len(),
        i1 == if s[i] == '-' {
            i + 1
        } else {
            i
        },
        i2 == scan_digits(s, i1),
        digits_val(s.subrange(i1, i2)) > 0x7fff_ffff_ffff_ffff,
    ensures
        spec_number(s, i) is None,
{
    let iv = digits_val(s.subrange(i1, i2));
    assert(i2 != i1) by {
        if i2 == i1 {
            assert(s.subrange(i1, i2).len() == 0);
        }
    }
    if i2 < s.len() && s[i2] == '.' {
        let i3 = scan_digits(s, i2 + 1);
        if i3 != i2 + 1 {
            crate::text::lemma_scan_digits(s, i2 + 1);
            lemma_frac9_bounds(s.subrange(i2 + 1, i3));
            let fv = frac9_val(s.subrange(i2 + 1, i3));
            assert(iv * 1_000_000_000 + fv > 0x7fff_ffff_ffff_ffff) by (nonlinear_arith)
                requires
                    iv > 0x7fff_ffff_ffff_ffff,
                    fv >= 0,
            ;
        }
    } else {
        assert(iv * 1_000_000_000 > 0x7fff_ffff_ffff_ffff) by (nonlinear_arith)
            requires
                iv > 0x7fff_ffff_ffff_ffff,
        ;
    }
}

} // verus!
