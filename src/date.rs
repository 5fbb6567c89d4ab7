//! Calendar dates and times as plain numbers.
use vstd::prelude::*;

use vstd::arithmetic::div_mod::{lemma_fundamental_div_mod, lemma_mod_multiples_basic};

use crate::decimal::{decimal, to_decimal};

verus! {

/// Whether `year` is a leap year of the Gregorian calendar.
pub open spec fn is_leap_year(year: int) -> bool {
    (year % 4 == 0 && year % 100 != 0) || year % 400 == 0
}

/// The number of days in a month of a year.
pub open spec fn days_in_month(year: int, month: int) -> int {
    if month == 2 {
        if is_leap_year(year) {
            29
        } else {
            28
        }
    } else if month == 4 || month == 6 || month == 9 || month == 11 {
        30
    } else {
        31
    }
}

/// A day of the proleptic Gregorian calendar.
#[derive(Clone, Copy, Debug, PartialEq, Eq, Structural)]
pub struct Date {
    pub year: i32,
    pub month: u32,
    pub day: u32,
}

/// A moment, as the date and time of day at a fixed offset from UTC.
#[derive(Clone, Copy, Debug, PartialEq, Eq, Structural)]
pub struct DateTime {
    pub date: Date,
    pub hour: u32,
    pub minute: u32,
    pub second: u32,
    /// Seconds east of UTC.
    pub offset_seconds: i32,
}

proof fn lemma_divides_negation(y: int, k: int)
    requires
        k > 0,
    ensures
        (y % k == 0) == ((-y) % k == 0),
{
    lemma_fundamental_div_mod(y, k);
    lemma_fundamental_div_mod(-y, k);
    if y % k == 0 {
        assert(-y == (-(y / k)) * k) by (nonlinear_arith)
            requires
                y == k * (y / k),
        ;
        lemma_mod_multiples_basic(-(y / k), k);
    }
    if (-y) % k == 0 {
        assert(y == (-((-y) / k)) * k) by (nonlinear_arith)
            requires
                -y == k * ((-y) / k),
        ;
        lemma_mod_multiples_basic(-((-y) / k), k);
    }
}

impl Date {
    /// A real day.
    pub open spec fn wf(&self) -> bool {
        &&& 1 <= self.month <= 12
        &&& 1 <= self.day <= days_in_month(self.year as int, self.month as int)
    }
}

impl Date {
    /// Whether this is a real day.
    pub fn is_valid(&self) -> (r: bool)
        ensures
            r == self.wf(),
    {
        if self.month < 1 || self.month > 12 || self.day < 1 {
            return false;
        }
        let magnitude: i64 = if self.year < 0 {
            0 - (self.year as i64)
        } else {
            self.year as i64
        };
        proof {
            lemma_divides_negation(self.year as int, 4);
            lemma_divides_negation(self.year as int, 100);
            lemma_divides_negation(self.year as int, 400);
        }
        let leap = (magnitude % 4 == 0 && magnitude % 100 != 0) || magnitude % 400 == 0;
        assert(leap == is_leap_year(self.year as int));
        let days: u32 = if self.month == 2 {
            if leap {
                29
            } else {
                28
            }
        } else if self.month == 4 || self.month == 6 || self.month == 9 || self.month == 11 {
            30
        } else {
            31
        };
        self.day <= days
    }
}

impl DateTime {
    /// Whether the date and the time of day are real, and the offset is less
    /// than a day.
    pub fn is_valid(&self) -> (r: bool)
        ensures
            r == self.wf(),
    {
        self.date.is_valid() && self.hour < 24 && self.minute < 60 && self.second < 60
            && -86400 < self.offset_seconds && self.offset_seconds < 86400
    }

    pub open spec fn wf(&self) -> bool {
        &&& self.date.wf()
        &&& self.hour < 24
        &&& self.minute < 60
        &&& self.second < 60
        &&& -86400 < self.offset_seconds < 86400
    }
}

/// `width` characters: the decimal digits of `n`, with zeros in front.
pub open spec fn zero_padded(n: nat, width: nat) -> Seq<char> {
    if decimal(n).len() >= width {
        decimal(n)
    } else {
        Seq::new((width - decimal(n).len()) as nat, |_i: int| '0') + decimal(n)
    }
}

/// A year as `%Y` writes it: four digits from 0 to 9999, and otherwise a
/// sign before at least four digits.
pub open spec fn year_text(year: int) -> Seq<char> {
    if 0 <= year <= 9999 {
        zero_padded(year as nat, 4)
    } else if year > 9999 {
        "+"@ + zero_padded(year as nat, 4)
    } else {
        "-"@ + zero_padded((-year) as nat, 4)
    }
}

/// A date written `YYYY-MM-DD`.
pub open spec fn date_text(d: Date) -> Seq<char> {
    year_text(d.year as int) + "-"@ + zero_padded(d.month as nat, 2) + "-"@ + zero_padded(
        d.day as nat,
        2,
    )
}

fn to_zero_padded(n: u32, width: usize) -> (r: String)
    ensures
        r@ == zero_padded(n as nat, width as nat),
{
    let digits = to_decimal(n);
    let len = digits.as_str().unicode_len();
    if len >= width {
        return digits;
    }
    let mut zeros = String::new();
    let mut k: usize = len;
    while k < width
        invariant
            len == decimal(n as nat).len(),
            len <= k <= width,
            zeros@ =~= Seq::new((k - len) as nat, |_i: int| '0'),
        decreases width - k,
    {
        proof {
            reveal_strlit("0");
        }
        zeros.append("0");
        k = k + 1;
    }
    zeros.append(digits.as_str());
    zeros
}

/// Writes a date as `YYYY-MM-DD`.
pub fn format_date(d: &Date) -> (r: String)
    requires
        d.wf(),
    ensures
        r@ == date_text(*d),
{
    let mut s = if d.year < 0 {
        let mut t = "-".to_owned();
        let magnitude: u32 = (0 - (d.year as i64)) as u32;
        t.append(to_zero_padded(magnitude, 4).as_str());
        t
    } else if d.year > 9999 {
        let mut t = "+".to_owned();
        t.append(to_zero_padded(d.year as u32, 4).as_str());
        t
    } else {
        to_zero_padded(d.year as u32, 4)
    };
    s.append("-");
    s.append(to_zero_padded(d.month, 2).as_str());
    s.append("-");
    s.append(to_zero_padded(d.day, 2).as_str());
    s
}

} // verus!
