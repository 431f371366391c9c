//! Options of the JWT commands, and the expiry they carry.
use vstd::prelude::*;

use crate::cli::{str_eq, CliError};

verus! {

/// Signs the input as a JWT claim.
#[derive(Debug, Clone)]
pub struct JwtSignOpts {
    pub input: String,
    pub secret: String,
    pub sub: String,
    pub aud: String,
    pub exp: ExpObj,
}

/// Verifies a JWT.
#[derive(Debug, Clone)]
pub struct JwtVerifyOpts {
    pub input: String,
    pub secret: String,
}

/// The JWT commands.
#[derive(Debug, Clone)]
pub enum JwtSubCommand {
    Sign(JwtSignOpts),
    Verify(JwtVerifyOpts),
}

/// An expiry: a count of time units.
#[derive(Debug, Clone, Copy, PartialEq, Eq, Structural)]
pub struct ExpObj {
    pub number: i64,
    pub unit: TimeUnit,
}

/// The unit of an expiry: a month of 30 days, a day, or a minute.
#[derive(Debug, Clone, Copy, PartialEq, Eq, Structural)]
pub enum TimeUnit {
    Month,
    Day,
    Minute,
}

/// The seconds in one unit.
pub open spec fn unit_seconds(u: TimeUnit) -> int {
    match u {
        TimeUnit::Month => 2592000int,
        TimeUnit::Day => 86400int,
        TimeUnit::Minute => 60int,
    }
}

/// The unit a name stands for.
pub open spec fn time_unit_spec(s: Seq<char>) -> Result<TimeUnit, CliError> {
    if s == "M"@ {
        Ok(TimeUnit::Month)
    } else if s == "D"@ {
        Ok(TimeUnit::Day)
    } else if s == "m"@ {
        Ok(TimeUnit::Minute)
    } else {
        Err(CliError::InvalidTimeUnit)
    }
}

/// The unit a single character stands for.
pub open spec fn time_unit_of_char(c: char) -> Option<TimeUnit> {
    if c == 'M' {
        Some(TimeUnit::Month)
    } else if c == 'D' {
        Some(TimeUnit::Day)
    } else if c == 'm' {
        Some(TimeUnit::Minute)
    } else {
        None
    }
}

/// The value of a string of decimal digits.
pub open spec fn digits_value(s: Seq<char>) -> int
    decreases s.len(),
{
    if s.len() == 0 {
        0
    } else {
        digits_value(s.drop_last()) * 10 + (s.last() as int - '0' as int)
    }
}

/// The `i64` that a string is the decimal writing of: an optional `+` or `-`, then one
/// or more digits `0`-`9`, and nothing else; the value must fit.
pub open spec fn decimal_i64(s: Seq<char>) -> Option<int> {
    let neg = s.len() > 0 && s[0] == '-';
    let body = if s.len() > 0 && (s[0] == '-' || s[0] == '+') {
        s.drop_first()
    } else {
        s
    };
    let v = if neg {
        -digits_value(body)
    } else {
        digits_value(body)
    };
    if body.len() > 0 && all_digits(body) && i64::MIN <= v <= i64::MAX {
        Some(v)
    } else {
        None
    }
}

/// What `parse_exp_time` gives for a string: the unit is its last character, the
/// count what precedes it, or 14 where that is not a decimal `i64`.
pub open spec fn exp_time_spec(t: Seq<char>) -> Result<ExpObj, CliError> {
    if t.len() == 0 {
        Err(CliError::InvalidTimeUnit)
    } else {
        match time_unit_of_char(t.last()) {
            None => Err(CliError::InvalidTimeUnit),
            Some(unit) => Ok(
                ExpObj {
                    number: match decimal_i64(t.drop_last()) {
                        Some(v) => v as i64,
                        None => 14,
                    },
                    unit,
                },
            ),
        }
    }
}

/// Every character of `s` is a digit.
pub open spec fn all_digits(s: Seq<char>) -> bool {
    forall|i: int| 0 <= i < s.len() ==> '0' <= #[trigger] s[i] <= '9'
}

proof fn lemma_digits_value_grows(s: Seq<char>, k: int)
    requires
        all_digits(s),
        0 <= k <= s.len(),
    ensures
        0 <= digits_value(s.subrange(0, k)) <= digits_value(s),
    decreases s.len(),
{
    if k == s.len() {
        assert(s.subrange(0, k) =~= s);
        if s.len() > 0 {
            lemma_digits_value_grows(s.drop_last(), k - 1);
            assert(s.drop_last().subrange(0, k - 1) =~= s.drop_last());
        }
    } else {
        lemma_digits_value_grows(s.drop_last(), k);
        assert(s.drop_last().subrange(0, k) =~= s.subrange(0, k));
        assert(s.last() == s[s.len() - 1]);
    }
}

/// Reads a decimal `i64` as `str::parse::<i64>` does: an optional `+` or `-`, then
/// one or more digits, in range.
fn parse_i64(s: &str) -> (r: Option<i64>)
    ensures
        r is Some <==> decimal_i64(s@) is Some,
        r matches Some(n) ==> decimal_i64(s@) == Some(n as int),
{
    let n = s.unicode_len();
    if n == 0 {
        return None;
    }
    let first = s.get_char(0);
    let neg = first == '-';
    let start: usize = if first == '-' || first == '+' { 1 } else { 0 };
    let ghost body = if first == '-' || first == '+' { s@.drop_first() } else { s@ };
    assert(body =~= s@.subrange(start as int, n as int));
    if start == n {
        return None;
    }
    let bound: i128 = 9223372036854775808;
    let mut v: i128 = 0;
    let mut i: usize = start;
    assert(body.subrange(0, 0) =~= Seq::<char>::empty());
    while i < n
        invariant
            start <= i <= n,
            n == s@.len(),
            body =~= s@.subrange(start as int, n as int),
            body == (if s@.len() > 0 && (s@[0] == '-' || s@[0] == '+') {
                s@.drop_first()
            } else {
                s@
            }),
            0 <= v <= bound,
            bound == 9223372036854775808,
            v == digits_value(body.subrange(0, i - start)),
            all_digits(body.subrange(0, i - start)),
        decreases n - i,
    {
        let c = s.get_char(i);
        if !('0' <= c && c <= '9') {
            assert(body[i - start] == c);
            assert(!all_digits(body));
            return None;
        }
        let ghost k = i - start;
        assert(body.subrange(0, k + 1).drop_last() =~= body.subrange(0, k));
        assert(body.subrange(0, k + 1).last() == c);
        v = v * 10 + (c as u32 - '0' as u32) as i128;
        i = i + 1;
        if v > bound {
            proof {
                assert(v == digits_value(body.subrange(0, k + 1)));
                if all_digits(body) {
                    lemma_digits_value_grows(body, k + 1);
                    assert(digits_value(body) > i64::MAX);
                    assert(-digits_value(body) < i64::MIN);
                }
            }
            return None;
        }
    }
    assert(body.subrange(0, n - start) =~= body);
    if neg {
        Some((-v) as i64)
    } else if v < bound {
        Some(v as i64)
    } else {
        None
    }
}

impl TimeUnit {
    /// The name the unit is written with.
    pub fn as_str(&self) -> (r: &'static str)
        ensures
            r@ == match *self {
                TimeUnit::Month => "M"@,
                TimeUnit::Day => "D"@,
                TimeUnit::Minute => "m"@,
            },
    {
        match self {
            TimeUnit::Month => "M",
            TimeUnit::Day => "D",
            TimeUnit::Minute => "m",
        }
    }

    /// Reads a unit from its name.
    pub fn from_name(s: &str) -> (r: Result<TimeUnit, CliError>)
        ensures
            r == time_unit_spec(s@),
    {
        if str_eq(s, "M") {
            Ok(TimeUnit::Month)
        } else if str_eq(s, "D") {
            Ok(TimeUnit::Day)
        } else if str_eq(s, "m") {
            Ok(TimeUnit::Minute)
        } else {
            Err(CliError::InvalidTimeUnit)
        }
    }

    fn from_char(c: char) -> (r: Option<TimeUnit>)
        ensures
            r == time_unit_of_char(c),
    {
        if c == 'M' {
            Some(TimeUnit::Month)
        } else if c == 'D' {
            Some(TimeUnit::Day)
        } else if c == 'm' {
            Some(TimeUnit::Minute)
        } else {
            None
        }
    }
}

impl ExpObj {
    pub fn new(number: i64, unit: TimeUnit) -> (r: Self)
        ensures
            r.number == number,
            r.unit == unit,
    {
        ExpObj { number, unit }
    }

    /// The expiry in seconds, or `None` where that does not fit in an `i64`.
    pub fn seconds(&self) -> (r: Option<i64>)
        ensures
            i64::MIN <= self.number * unit_seconds(self.unit) <= i64::MAX ==> r == Some(
                (self.number * unit_seconds(self.unit)) as i64,
            ),
            !(i64::MIN <= self.number * unit_seconds(self.unit) <= i64::MAX) ==> r is None,
    {
        let per: i64 = match self.unit {
            TimeUnit::Month => 2592000,
            TimeUnit::Day => 86400,
            TimeUnit::Minute => 60,
        };
        self.number.checked_mul(per)
    }

    /// The expiry time, in seconds since the epoch, of a token issued at `iat`, or
    /// `None` where it does not fit in an `i64`.
    pub fn expires_at(&self, iat: i64) -> (r: Option<i64>)
        ensures
            i64::MIN <= iat + self.number * unit_seconds(self.unit) <= i64::MAX && i64::MIN
                <= self.number * unit_seconds(self.unit) <= i64::MAX ==> r == Some(
                (iat + self.number * unit_seconds(self.unit)) as i64,
            ),
            r matches Some(t) ==> t == iat + self.number * unit_seconds(self.unit),
    {
        match self.seconds() {
            Some(s) => iat.checked_add(s),
            None => None,
        }
    }
}

/// Reads an expiry such as `14D`, `3M` or `90m`: the last character is the unit,
/// and the count before it falls back to 14 where it is not a decimal `i64`.
pub fn parse_exp_time(t: &str) -> (r: Result<ExpObj, CliError>)
    ensures
        r == exp_time_spec(t@),
{
    let n = t.unicode_len();
    if n == 0 {
        return Err(CliError::InvalidTimeUnit);
    }
    let unit = match TimeUnit::from_char(t.get_char(n - 1)) {
        Some(u) => u,
        None => {
            return Err(CliError::InvalidTimeUnit);
        },
    };
    let count = t.substring_char(0, n - 1);
    assert(count@ =~= t@.drop_last());
    let number = match parse_i64(count) {
        Some(v) => v,
        None => 14,
    };
    Ok(ExpObj::new(number, unit))
}

} // verus!
