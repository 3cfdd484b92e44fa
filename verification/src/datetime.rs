//! Calendar dates and UTC timestamps.
//!
//! The API reports dates as ISO `YYYY-MM-DD` strings and instants as ISO
//! timestamps with an offset (`2021-05-06T12:30:00+10:00`). The library
//! holds a date as its calendar fields and an instant as seconds and
//! nanoseconds since the Unix epoch, so that contracts can compare
//! instants as plain integers.

use vstd::prelude::*;
use vstd::string::*;

use crate::decimal::{lemma_pow10_mono, lemma_pow10_mul, pow10, pow10_u64, u64_string};
use crate::text::{
    all_digits, digits_val, frac9_val, is_digit, lemma_digits_val_bound, lemma_scan_digits,
    nat_digits, push_char, scan_digits,
};

verus! {

/// A calendar date.
#[derive(Debug, Clone, Copy, PartialEq, Eq, Structural)]
pub struct Date {
    /// Year, `1 ..= 9999`.
    pub year: u16,
    /// Month, `1 ..= 12`.
    pub month: u8,
    /// Day of the month, `1 ..=` the month's length.
    pub day: u8,
}

/// A Gregorian leap year.
pub open spec fn is_leap_year(y: int) -> bool {
    y % 4 == 0 && (y % 100 != 0 || y % 400 == 0)
}

/// Number of days in a month.
pub open spec fn days_in_month(y: int, m: int) -> int {
    if m == 2 {
        if is_leap_year(y) {
            29
        } else {
            28
        }
    } else if m == 4 || m == 6 || m == 9 || m == 11 {
        30
    } else {
        31
    }
}

/// A well-formed calendar date.
pub open spec fn date_wf(d: Date) -> bool {
    &&& 1 <= d.year <= 9999
    &&& 1 <= d.month <= 12
    &&& 1 <= d.day <= days_in_month(d.year as int, d.month as int)
}

/// Days from the Unix epoch to the given date (negative before 1970),
/// by era-and-day-of-year arithmetic over the Gregorian calendar.
pub open spec fn spec_days_from_civil(y: int, m: int, d: int) -> int {
    let yy = if m <= 2 {
        y - 1
    } else {
        y
    };
    let era = yy / 400;
    let yoe = yy % 400;
    let mp = if m > 2 {
        m - 3
    } else {
        m + 9
    };
    let doy = (153 * mp + 2) / 5 + d - 1;
    let doe = yoe * 365 + yoe / 4 - yoe / 100 + doy;
    era * 146097 + doe - 719468
}

/// Seconds east of UTC, encoded by an offset suffix.
pub open spec fn spec_offset_secs(negative: bool, oh: int, om: int) -> int {
    if negative {
        -(oh * 3600 + om * 60)
    } else {
        oh * 3600 + om * 60
    }
}

/// `YYYY-MM-DD` with zero padding.
pub open spec fn spec_render_date(d: Date) -> Seq<char> {
    pad4(d.year as nat).add(seq!['-']).add(pad2(d.month as nat)).add(seq!['-']).add(
        pad2(d.day as nat),
    )
}

/// Decimal digits of `n`, left-padded with zeros to two places.
pub open spec fn pad2(n: nat) -> Seq<char> {
    if n < 10 {
        seq!['0'].add(nat_digits(n))
    } else {
        nat_digits(n)
    }
}

/// Decimal digits of `n`, left-padded with zeros to four places.
pub open spec fn pad4(n: nat) -> Seq<char> {
    let zeros: Seq<char> = if n < 10 {
        seq!['0', '0', '0']
    } else if n < 100 {
        seq!['0', '0']
    } else if n < 1000 {
        seq!['0']
    } else {
        Seq::<char>::empty()
    };
    zeros.add(nat_digits(n))
}

/// The date encoded by `s`, when `s` is a well-formed `YYYY-MM-DD`.
pub open spec fn spec_parse_date(s: Seq<char>) -> Option<Date> {
    if s.len() == 10 && all_digits(s.subrange(0, 4)) && s[4] == '-' && all_digits(
        s.subrange(5, 7),
    ) && s[7] == '-' && all_digits(s.subrange(8, 10)) {
        let y = digits_val(s.subrange(0, 4));
        let m = digits_val(s.subrange(5, 7));
        let d = digits_val(s.subrange(8, 10));
        let date = Date { year: y as u16, month: m as u8, day: d as u8 };
        if date_wf(date) {
            Some(date)
        } else {
            None
        }
    } else {
        None
    }
}

impl Date {
    /// Builds a date, checking that the fields form a real calendar day.
    pub fn new(year: u16, month: u8, day: u8) -> (r: Option<Date>)
        ensures
            match r {
                Some(d) => d == (Date { year, month, day }) && date_wf(d),
                None => !date_wf(Date { year, month, day }),
            },
    {
        let d = Date { year, month, day };
        if 1 <= year && year <= 9999 && 1 <= month && month <= 12 && 1 <= day && day
            <= d.days_in_month_exec() {
            Some(d)
        } else {
            None
        }
    }

    /// Number of days in this date's month.
    fn days_in_month_exec(&self) -> (r: u8)
        ensures
            r == days_in_month(self.year as int, self.month as int),
    {
        if self.month == 2 {
            if self.year % 4 == 0 && (self.year % 100 != 0 || self.year % 400 == 0) {
                29
            } else {
                28
            }
        } else if self.month == 4 || self.month == 6 || self.month == 9 || self.month == 11 {
            30
        } else {
            31
        }
    }

    /// True when this date is on or before `other`, in calendar order.
    pub fn le(&self, other: &Date) -> (r: bool)
        ensures
            r == spec_date_le(*self, *other),
    {
        if self.year != other.year {
            self.year < other.year
        } else if self.month != other.month {
            self.month < other.month
        } else {
            self.day <= other.day
        }
    }

    /// Renders this date as zero-padded `YYYY-MM-DD`.
    pub fn render(&self) -> (r: String)
        ensures
            r@ == spec_render_date(*self),
    {
        let mut s = String::new();
        if self.year < 10 {
            push_char(&mut s, '0');
            push_char(&mut s, '0');
            push_char(&mut s, '0');
        } else if self.year < 100 {
            push_char(&mut s, '0');
            push_char(&mut s, '0');
        } else if self.year < 1000 {
            push_char(&mut s, '0');
        }
        let y = u64_string(self.year as u64);
        s.append(y.as_str());
        push_char(&mut s, '-');
        if self.month < 10 {
            push_char(&mut s, '0');
        }
        let m = u64_string(self.month as u64);
        s.append(m.as_str());
        push_char(&mut s, '-');
        if self.day < 10 {
            push_char(&mut s, '0');
        }
        let d = u64_string(self.day as u64);
        s.append(d.as_str());
        proof {
            assert(s@ =~= spec_render_date(*self));
        }
        s
    }
}

/// Calendar order on dates.
pub open spec fn spec_date_le(a: Date, b: Date) -> bool {
    if a.year != b.year {
        a.year < b.year
    } else if a.month != b.month {
        a.month < b.month
    } else {
        a.day <= b.day
    }
}

/// An instant in UTC.
#[derive(Debug, Clone, Copy, PartialEq, Eq, Structural)]
pub struct Timestamp {
    /// Whole seconds since the Unix epoch.
    pub secs: i64,
    /// Nanoseconds within the second, below one billion.
    pub nanos: u32,
}

/// A well-formed instant: nanoseconds within the second.
pub open spec fn ts_wf(t: Timestamp) -> bool {
    t.nanos < 1_000_000_000
}

/// Strict order on instants.
pub open spec fn spec_ts_lt(a: Timestamp, b: Timestamp) -> bool {
    a.secs < b.secs || (a.secs == b.secs && a.nanos < b.nanos)
}

impl Timestamp {
    /// True when this instant is strictly before `other`.
    pub fn lt(&self, other: &Timestamp) -> (r: bool)
        ensures
            r == spec_ts_lt(*self, *other),
    {
        self.secs < other.secs || (self.secs == other.secs && self.nanos < other.nanos)
    }
}

/// Reads two digit characters at `at` as a number below 100.
fn read2(s: &str, at: usize) -> (r: Option<u8>)
    requires
        s@.len() <= usize::MAX,
        at + 2 <= s@.len(),
    ensures
        match r {
            Some(v) => all_digits(s@.subrange(at as int, at + 2)) && v == digits_val(
                s@.subrange(at as int, at + 2),
            ),
            None => !all_digits(s@.subrange(at as int, at + 2)),
        },
{
    let ghost t = s@.subrange(at as int, at + 2);
    proof {
        assert(t[0] == s@[at as int]);
        assert(t[1] == s@[at + 1]);
    }
    let c0 = s.get_char(at) as u32;
    let c1 = s.get_char(at + 1) as u32;
    if c0 < 48 || c0 > 57 || c1 < 48 || c1 > 57 {
        return None;
    }
    proof {
        reveal_with_fuel(digits_val, 4);
        assert forall|m: int| 0 <= m < t.len() implies is_digit(t[m]) by {
            assert(m == 0 || m == 1);
        }
        assert(t.drop_last() =~= s@.subrange(at as int, at + 1));
        assert(t.drop_last().drop_last() =~= s@.subrange(at as int, at as int));
        assert(t.drop_last().last() == s@[at as int]);
        assert(t.last() == s@[at + 1]);
    }
    Some((((c0 - 48) * 10 + (c1 - 48)) as u8))
}

/// Reads four digit characters at `at` as a number below 10000.
fn read4(s: &str, at: usize) -> (r: Option<u16>)
    requires
        s@.len() <= usize::MAX,
        at + 4 <= s@.len(),
    ensures
        match r {
            Some(v) => all_digits(s@.subrange(at as int, at + 4)) && v == digits_val(
                s@.subrange(at as int, at + 4),
            ),
            None => !all_digits(s@.subrange(at as int, at + 4)),
        },
{
    let c0 = s.get_char(at) as u32;
    let c1 = s.get_char(at + 1) as u32;
    let c2 = s.get_char(at + 2) as u32;
    let c3 = s.get_char(at + 3) as u32;
    let ghost t = s@.subrange(at as int, at + 4);
    if c0 < 48 || c0 > 57 || c1 < 48 || c1 > 57 || c2 < 48 || c2 > 57 || c3 < 48 || c3 > 57 {
        proof {
            assert(t[0] == s@[at as int]);
            assert(t[1] == s@[at + 1]);
            assert(t[2] == s@[at + 2]);
            assert(t[3] == s@[at + 3]);
        }
        return None;
    }
    proof {
        reveal_with_fuel(digits_val, 6);
        assert forall|m: int| 0 <= m < t.len() implies is_digit(t[m]) by {
            assert(m == 0 || m == 1 || m == 2 || m == 3);
        }
        assert(t.drop_last() =~= s@.subrange(at as int, at + 3));
        assert(t.drop_last().drop_last() =~= s@.subrange(at as int, at + 2));
        assert(t.drop_last().drop_last().drop_last() =~= s@.subrange(at as int, at + 1));
        assert(t.drop_last().drop_last().drop_last().drop_last() =~= s@.subrange(
            at as int,
            at as int,
        ));
        assert(t.last() == s@[at + 3]);
        assert(t.drop_last().last() == s@[at + 2]);
        assert(t.drop_last().drop_last().last() == s@[at + 1]);
        assert(t.drop_last().drop_last().drop_last().last() == s@[at as int]);
        assert(forall|i: int| 0 <= i < 4 ==> t[i] == s@[at + i]);
    }
    Some(((((c0 - 48) * 10 + (c1 - 48)) * 10 + (c2 - 48)) * 10 + (c3 - 48)) as u16)
}

/// Parses a whole string as a calendar date in `YYYY-MM-DD` form.
pub fn parse_date(s: &str) -> (r: Option<Date>)
    ensures
        r == spec_parse_date(s@),
{
    let len = s.unicode_len();
    if len != 10 {
        return None;
    }
    let y = match read4(s, 0) {
        Some(v) => v,
        None => {
            return None;
        },
    };
    if s.get_char(4) != '-' {
        return None;
    }
    let m = match read2(s, 5) {
        Some(v) => v,
        None => {
            return None;
        },
    };
    if s.get_char(7) != '-' {
        return None;
    }
    let d = match read2(s, 8) {
        Some(v) => v,
        None => {
            return None;
        },
    };
    proof {
        assert(all_digits(s@.subrange(5, 7)));
        assert(all_digits(s@.subrange(8, 10)));
    }
    Date::new(y, m, d)
}

/// Days from the Unix epoch to the given well-formed date.
pub fn days_from_civil(date: &Date) -> (r: i64)
    requires
        date_wf(*date),
    ensures
        r == spec_days_from_civil(date.year as int, date.month as int, date.day as int),
{
    let y: u64 = date.year as u64;
    let m: u64 = date.month as u64;
    let d: u64 = date.day as u64;
    let yy: u64 = if m <= 2 {
        y - 1
    } else {
        y
    };
    let era: u64 = yy / 400;
    let yoe: u64 = yy % 400;
    let mp: u64 = if m > 2 {
        m - 3
    } else {
        m + 9
    };
    let doy: u64 = (153 * mp + 2) / 5 + d - 1;
    let doe: u64 = yoe * 365 + yoe / 4 - yoe / 100 + doy;
    (era * 146097 + doe) as i64 - 719468
}

/// The instant encoded by `s`, when `s` is a well-formed ISO timestamp:
/// a date, `T`, a time of day, an optional fraction, and `Z` or a
/// `+hh:mm` / `-hh:mm` offset. Fraction digits beyond nine are truncated.
pub open spec fn spec_parse_timestamp(s: Seq<char>) -> Option<Timestamp> {
    if s.len() < 20 {
        None
    } else {
        match spec_parse_date(s.subrange(0, 10)) {
            None => None,
            Some(date) => {
                if s[10] == 'T' && all_digits(s.subrange(11, 13)) && s[13] == ':' && all_digits(
                    s.subrange(14, 16),
                ) && s[16] == ':' && all_digits(s.subrange(17, 19)) {
                    let hh = digits_val(s.subrange(11, 13));
                    let mm = digits_val(s.subrange(14, 16));
                    let ss = digits_val(s.subrange(17, 19));
                    if hh <= 23 && mm <= 59 && ss <= 59 {
                        let j = if s[19] == '.' {
                            scan_digits(s, 20)
                        } else {
                            19
                        };
                        if s[19] == '.' && j == 20 {
                            None
                        } else {
                            let nanos = if s[19] == '.' {
                                frac9_val(s.subrange(20, j))
                            } else {
                                0
                            };
                            spec_finish_timestamp(s, j, date, hh, mm, ss, nanos)
                        }
                    } else {
                        None
                    }
                } else {
                    None
                }
            },
        }
    }
}

/// The offset suffix of a timestamp, starting at `j`, applied to the
/// already-read date, time of day and fraction.
pub open spec fn spec_finish_timestamp(
    s: Seq<char>,
    j: int,
    date: Date,
    hh: int,
    mm: int,
    ss: int,
    nanos: int,
) -> Option<Timestamp> {
    let days = spec_days_from_civil(date.year as int, date.month as int, date.day as int);
    let base = days * 86400 + hh * 3600 + mm * 60 + ss;
    if j < s.len() && s[j] == 'Z' && j + 1 == s.len() {
        Some(Timestamp { secs: base as i64, nanos: nanos as u32 })
    } else if j < s.len() && (s[j] == '+' || s[j] == '-') && j + 6 == s.len() && all_digits(
        s.subrange(j + 1, j + 3),
    ) && s[j + 3] == ':' && all_digits(s.subrange(j + 4, j + 6)) {
        let oh = digits_val(s.subrange(j + 1, j + 3));
        let om = digits_val(s.subrange(j + 4, j + 6));
        if oh <= 23 && om <= 59 {
            Some(
                Timestamp {
                    secs: (base - spec_offset_secs(s[j] == '-', oh, om)) as i64,
                    nanos: nanos as u32,
                },
            )
        } else {
            None
        }
    } else {
        None
    }
}

/// Parses a whole string as an ISO timestamp with offset.
pub fn parse_timestamp(s: &str) -> (r: Option<Timestamp>)
    ensures
        r == spec_parse_timestamp(s@),
{
    let len = s.unicode_len();
    if len < 20 {
        return None;
    }
    let date_part = s.substring_char(0, 10);
    let date = match parse_date(date_part) {
        Some(d) => d,
        None => {
            return None;
        },
    };
    if s.get_char(10) != 'T' {
        return None;
    }
    let hh = match read2(s, 11) {
        Some(v) => v,
        None => {
            return None;
        },
    };
    if s.get_char(13) != ':' {
        return None;
    }
    let mm = match read2(s, 14) {
        Some(v) => v,
        None => {
            return None;
        },
    };
    if s.get_char(16) != ':' {
        return None;
    }
    let ss = match read2(s, 17) {
        Some(v) => v,
        None => {
            return None;
        },
    };
    proof {
        assert(all_digits(s@.subrange(11, 13)));
        assert(all_digits(s@.subrange(14, 16)));
        assert(all_digits(s@.subrange(17, 19)));
    }
    if !(hh <= 23 && mm <= 59 && ss <= 59) {
        return None;
    }
    let mut j: usize = 19;
    let mut nanos: u32 = 0;
    if s.get_char(19) == '.' {
        let (n, jj) = match read_fraction(s, 20) {
            Some(p) => p,
            None => {
                return None;
            },
        };
        nanos = n;
        j = jj;
    }
    finish_timestamp(s, j, &date, hh, mm, ss, nanos)
}

/// Reads the fraction digits starting at `at` and scales them to
/// nanoseconds, truncating past nine digits.
fn read_fraction(s: &str, at: usize) -> (r: Option<(u32, usize)>)
    requires
        at == 20,
        20 <= s@.len(),
    ensures
        match r {
            Some((n, j)) => {
                &&& j == scan_digits(s@, 20)
                &&& 20 < j <= s@.len()
                &&& n == frac9_val(s@.subrange(20, j as int))
                &&& n < 1_000_000_000
            },
            None => scan_digits(s@, 20) == 20,
        },
{
    proof {
        lemma_scan_digits(s@, 20);
    }
    let ghost end = scan_digits(s@, 20);
    let len = s.unicode_len();
    let mut j: usize = 20;
    let mut acc: u32 = 0;
    while j < len
        invariant
            20 <= j <= len,
            len == s@.len(),
            j <= end,
            20 <= end <= len,
            end == scan_digits(s@, 20),
            all_digits(s@.subrange(20, end)),
            end == s@.len() || !is_digit(s@[end]),
            acc == if j <= 29 {
                digits_val(s@.subrange(20, j as int))
            } else {
                digits_val(s@.subrange(20, 29))
            },
            acc < pow10(if j <= 29 {
                (j - 20) as nat
            } else {
                9
            }),
        ensures
            j == end,
            acc == if j <= 29 {
                digits_val(s@.subrange(20, j as int))
            } else {
                digits_val(s@.subrange(20, 29))
            },
            acc < pow10(if j <= 29 {
                (j - 20) as nat
            } else {
                9
            }),
        decreases len - j,
    {
        let c = s.get_char(j) as u32;
        if c < 48 || c > 57 {
            proof {
                assert(!is_digit(s@[j as int]));
                if j < end {
                    assert(s@.subrange(20, end as int)[j - 20] == s@[j as int]);
                }
                assert(j == end);
            }
            break;
        }
        proof {
            // j is inside the digit run, so it is below its end.
            assert(is_digit(s@[j as int]));
            if j >= end {
                assert(end < s@.len() && !is_digit(s@[end]));
                assert(j == end);
            }
            assert(j < end);
            assert(s@.subrange(20, j + 1).drop_last() =~= s@.subrange(20, j as int));
            assert(s@.subrange(20, j + 1).last() == s@[j as int]);
            reveal_with_fuel(pow10, 11);
        }
        if j <= 28 {
            acc = acc * 10 + (c - 48);
        }
        j = j + 1;
    }
    if j == 20 {
        return None;
    }
    let width = j - 20;
    if width <= 9 {
        proof {
            lemma_pow10_mono((9 - width) as nat, 9);
            lemma_digits_val_bound(s@.subrange(20, j as int));
            assert(acc * pow10((9 - width) as nat) < pow10((width) as nat) * pow10(
                (9 - width) as nat,
            )) by (nonlinear_arith)
                requires
                    acc < pow10((width) as nat),
                    pow10((9 - width) as nat) > 0,
            ;
            lemma_pow10_mul(width as nat, (9 - width) as nat);
            reveal_with_fuel(pow10, 11);
        }
        let scale = pow10_u64(9 - width);
        Some((acc * (scale as u32), j))
    } else {
        proof {
            assert(s@.subrange(20, j as int).take(9) =~= s@.subrange(20, 29));
            reveal_with_fuel(pow10, 11);
        }
        Some((acc, j))
    }
}

/// Reads the `Z` or `+hh:mm` / `-hh:mm` suffix and assembles the instant.
fn finish_timestamp(s: &str, j: usize, date: &Date, hh: u8, mm: u8, ss: u8, nanos: u32) -> (r:
    Option<Timestamp>)
    requires
        date_wf(*date),
        j <= s@.len(),
        hh <= 23,
        mm <= 59,
        ss <= 59,
        nanos < 1_000_000_000,
    ensures
        r == spec_finish_timestamp(
            s@,
            j as int,
            *date,
            hh as int,
            mm as int,
            ss as int,
            nanos as int,
        ),
{
    let len = s.unicode_len();
    if j >= len {
        return None;
    }
    let days = days_from_civil(date);
    let base: i64 = days * 86400 + (hh as i64) * 3600 + (mm as i64) * 60 + (ss as i64);
    let c = s.get_char(j);
    if c == 'Z' {
        if j + 1 == len {
            Some(Timestamp { secs: base, nanos })
        } else {
            None
        }
    } else if c == '+' || c == '-' {
        if len - j != 6 {
            return None;
        }
        let oh = match read2(s, j + 1) {
            Some(v) => v,
            None => {
                return None;
            },
        };
        if s.get_char(j + 3) != ':' {
            return None;
        }
        let om = match read2(s, j + 4) {
            Some(v) => v,
            None => {
                return None;
            },
        };
        proof {
            assert(all_digits(s@.subrange(j + 1, j + 3)));
            assert(all_digits(s@.subrange(j + 4, j + 6)));
        }
        if !(oh <= 23 && om <= 59) {
            return None;
        }
        let off: i64 = (oh as i64) * 3600 + (om as i64) * 60;
        let secs: i64 = if c == '-' {
            base + off
        } else {
            base - off
        };
        Some(Timestamp { secs, nanos })
    } else {
        None
    }
}

} // verus!
