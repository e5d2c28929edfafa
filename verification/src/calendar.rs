//! Instants written as RFC 3339 timestamps.
//!
//! An instant is a count of milliseconds since 1970-01-01T00:00:00Z. Its written
//! form names the one civil moment, in the proleptic Gregorian calendar and in
//! UTC, that lies that many milliseconds from the epoch.

use crate::text;
use vstd::arithmetic::div_mod;
use vstd::prelude::*;

verus! {

broadcast use vstd::string::group_string_axioms;

/// The days from 0000-01-01 to 1970-01-01.
pub const EPOCH_DAYS: i64 = 719528;

/// The milliseconds of a day.
pub const MS_PER_DAY: i64 = 86_400_000;

/// The milliseconds of an hour.
pub const MS_PER_HOUR: i64 = 3_600_000;

/// 0000-01-01T00:00:00.000Z, the first instant with a four-digit year.
pub const FIRST_INSTANT: i64 = -62_167_219_200_000;

/// 9999-12-31T23:59:59.999Z, the last instant with a four-digit year.
pub const LAST_INSTANT: i64 = 253_402_300_799_999;

/// Whether a year has a 29 February.
pub open spec fn is_leap(year: int) -> bool {
    year % 4 == 0 && (year % 100 != 0 || year % 400 == 0)
}

/// One for a leap year, zero for another.
pub open spec fn leap_day(year: int) -> int {
    if is_leap(year) {
        1
    } else {
        0
    }
}

/// The days from 0000-01-01 to the first of January of a year.
pub open spec fn days_before_year(year: int) -> int {
    365 * year + (year + 3) / 4 - (year + 99) / 100 + (year + 399) / 400
}

/// The days from the first of January to the first of a month.
pub open spec fn days_before_month(year: int, month: int) -> int {
    if month <= 1 {
        0
    } else if month == 2 {
        31
    } else {
        leap_day(year) + (if month == 3 {
            59int
        } else if month == 4 {
            90
        } else if month == 5 {
            120
        } else if month == 6 {
            151
        } else if month == 7 {
            181
        } else if month == 8 {
            212
        } else if month == 9 {
            243
        } else if month == 10 {
            273
        } else if month == 11 {
            304
        } else if month == 12 {
            334
        } else {
            365
        })
    }
}

/// A civil moment in UTC.
pub struct Moment {
    pub year: u64,
    pub month: u64,
    pub day: u64,
    pub hour: u64,
    pub minute: u64,
    pub second: u64,
    pub milli: u64,
}

impl Moment {
    /// Whether each part is in the range that the calendar gives it.
    pub open spec fn is_valid(self) -> bool {
        &&& self.year <= 9999
        &&& 1 <= self.month <= 12
        &&& 1 <= self.day <= days_before_month(self.year as int, self.month + 1)
            - days_before_month(self.year as int, self.month as int)
        &&& self.hour < 24
        &&& self.minute < 60
        &&& self.second < 60
        &&& self.milli < 1000
    }

    /// The instant that the moment is: milliseconds since the epoch.
    pub open spec fn instant(self) -> int {
        (days_before_year(self.year as int) + days_before_month(
            self.year as int,
            self.month as int,
        ) + self.day - 1 - EPOCH_DAYS) * MS_PER_DAY + self.hour * MS_PER_HOUR + self.minute * 60_000
            + self.second * 1000 + self.milli
    }

    /// The moment as RFC 3339 writes it, with milliseconds, in UTC.
    pub open spec fn text(self) -> Seq<char> {
        padded(self.year as nat, 4) + seq!['-'] + padded(self.month as nat, 2) + seq!['-'] + padded(
            self.day as nat,
            2,
        ) + seq!['T'] + padded(self.hour as nat, 2) + seq![':'] + padded(self.minute as nat, 2)
            + seq![':'] + padded(self.second as nat, 2) + seq!['.'] + padded(self.milli as nat, 3)
            + seq!['Z']
    }

    /// The moment that lies `instant` milliseconds from the epoch.
    pub fn at(instant: i64) -> (r: Moment)
        requires
            FIRST_INSTANT <= instant <= LAST_INSTANT,
        ensures
            r.is_valid(),
            r.instant() == instant,
    {
        let since: u64 = (instant - FIRST_INSTANT) as u64;
        let days: u64 = since / 86_400_000;
        let rest: u64 = since % 86_400_000;
        assert(since == days * 86_400_000 + rest);
        let (year, month, day) = civil_day(days);
        let hour: u64 = rest / 3_600_000;
        let in_hour: u64 = rest % 3_600_000;
        let minute: u64 = in_hour / 60_000;
        let in_minute: u64 = in_hour % 60_000;
        let second: u64 = in_minute / 1000;
        let milli: u64 = in_minute % 1000;
        assert(rest == hour * 3_600_000 + in_hour);
        assert(in_hour == minute * 60_000 + in_minute);
        assert(in_minute == second * 1000 + milli);
        assert(hour < 24 && minute < 60 && second < 60 && milli < 1000);
        let r = Moment { year, month, day, hour, minute, second, milli };
        assert(r.instant() == (days - EPOCH_DAYS) * 86_400_000 + rest);
        assert(FIRST_INSTANT == -EPOCH_DAYS * 86_400_000);
        r
    }

    /// The moment as RFC 3339 writes it.
    pub fn to_text(&self) -> (r: String)
        requires
            self.is_valid(),
        ensures
            r@ == self.text(),
    {
        let mut out = String::new();
        push_padded(&mut out, self.year, 4);
        out.push('-');
        push_padded(&mut out, self.month, 2);
        out.push('-');
        push_padded(&mut out, self.day, 2);
        out.push('T');
        push_padded(&mut out, self.hour, 2);
        out.push(':');
        push_padded(&mut out, self.minute, 2);
        out.push(':');
        push_padded(&mut out, self.second, 2);
        out.push('.');
        push_padded(&mut out, self.milli, 3);
        out.push('Z');
        assert(out@ == self.text());
        out
    }
}

proof fn lemma_quotients(n: int, d: int)
    requires
        0 <= n,
        0 < d,
    ensures
        (n + d) / d == n / d + 1,
        n % d == 0 ==> (n + d - 1) / d == n / d,
        n % d != 0 ==> (n + d - 1) / d == n / d + 1,
{
    div_mod::lemma_fundamental_div_mod(n, d);
    let q = n / d;
    let r = n % d;
    assert((q + 1) * d == q * d + d) by (nonlinear_arith);
    assert(d * q == q * d) by (nonlinear_arith);
    div_mod::lemma_fundamental_div_mod_converse(n + d, d, q + 1, r);
    if r == 0 {
        div_mod::lemma_fundamental_div_mod_converse(n + d - 1, d, q, d - 1);
    } else {
        div_mod::lemma_fundamental_div_mod_converse(n + d - 1, d, q + 1, r - 1);
    }
}

proof fn lemma_year_length(year: int)
    requires
        0 <= year,
    ensures
        days_before_year(year + 1) == days_before_year(year) + 365 + leap_day(year),
{
    lemma_quotients(year, 4);
    lemma_quotients(year, 100);
    lemma_quotients(year, 400);
    div_mod::lemma_mod_mod(year, 100, 4);
    div_mod::lemma_mod_mod(year, 4, 25);
    assert(year % 100 == 0 ==> year % 4 == 0);
    assert(year % 400 == 0 ==> year % 100 == 0);
}

/// The year, month and day that lie `days` days from 0000-01-01.
fn civil_day(days: u64) -> (r: (u64, u64, u64))
    requires
        days < 3_652_425,
    ensures
        r.0 <= 9999,
        1 <= r.1 <= 12,
        1 <= r.2 <= days_before_month(r.0 as int, r.1 + 1) - days_before_month(
            r.0 as int,
            r.1 as int,
        ),
        days == days_before_year(r.0 as int) + days_before_month(r.0 as int, r.1 as int) + r.2 - 1,
{
    let mut year: u64 = days / 366;
    assert(days_before_year(10_000) == 3_652_425);
    while days_start_of(year + 1) <= days
        invariant
            year < 10_000,
            days < 3_652_425,
            days_before_year(year as int) <= days,
            days_before_year(10_000) == 3_652_425,
        ensures
            year < 10_000,
            days_before_year(year as int) <= days < days_before_year(year + 1),
        decreases 10_000 - year,
    {
        year = year + 1;
    }
    proof {
        lemma_year_length(year as int);
    }
    let leap: u64 = if year % 4 == 0 && (year % 100 != 0 || year % 400 == 0) {
        1
    } else {
        0
    };
    let in_year: u64 = days - days_start_of(year);
    let mut month: u64 = 1;
    while month < 12 && days_start_in(leap, month + 1) <= in_year
        invariant
            1 <= month <= 12,
            leap == leap_day(year as int),
            in_year < 365 + leap,
            days_before_month(year as int, month as int) <= in_year,
        ensures
            1 <= month <= 12,
            days_before_month(year as int, month as int) <= in_year < days_before_month(
                year as int,
                month + 1,
            ),
        decreases 12 - month,
    {
        month = month + 1;
    }
    (year, month, in_year - days_start_in(leap, month) + 1)
}

fn days_start_of(year: u64) -> (r: u64)
    requires
        year <= 10_000,
    ensures
        r == days_before_year(year as int),
{
    365 * year + (year + 3) / 4 + (year + 399) / 400 - (year + 99) / 100
}

fn days_start_in(leap: u64, month: u64) -> (r: u64)
    requires
        1 <= month <= 12,
        leap <= 1,
    ensures
        forall|year: int|
            leap == leap_day(year) ==> r == #[trigger] days_before_month(year, month as int),
{
    match month {
        1 => 0,
        2 => 31,
        3 => 59 + leap,
        4 => 90 + leap,
        5 => 120 + leap,
        6 => 151 + leap,
        7 => 181 + leap,
        8 => 212 + leap,
        9 => 243 + leap,
        10 => 273 + leap,
        11 => 304 + leap,
        _ => 334 + leap,
    }
}

/// The last `width` decimal digits of a number, leading zeros kept.
pub open spec fn padded(n: nat, width: nat) -> Seq<char>
    decreases width,
{
    if width == 0 {
        Seq::empty()
    } else {
        padded(n / 10, (width - 1) as nat).push(text::digit(n % 10))
    }
}

fn push_padded(out: &mut String, n: u64, width: u64)
    ensures
        final(out)@ == old(out)@ + padded(n as nat, width as nat),
    decreases width,
{
    if width > 0 {
        push_padded(out, n / 10, width - 1);
        let d: u64 = n % 10;
        out.push(text::digit_char(d));
    }
    assert(out@ == old(out)@ + padded(n as nat, width as nat));
}

/// Days follow one another: within a month, from the last day of a month to the first of
/// the next, and from the last of a year to the first of the next, a day passes. The months
/// have their thirty or thirty-one days, and the second has twenty-eight, or twenty-nine in
/// a year that four divides, but for a hundred that four hundred does not.
pub proof fn days_follow_one_another(m: Moment)
    requires
        m.is_valid(),
    ensures
        ({
            let last: int = if m.month == 4 || m.month == 6 || m.month == 9 || m.month == 11 {
                30
            } else if m.month != 2 {
                31
            } else if m.year as int % 4 == 0 && (m.year as int % 100 != 0 || m.year as int % 400
                == 0) {
                29
            } else {
                28
            };
            &&& m.day <= last
            &&& m.day < last ==> (Moment { day: (m.day + 1) as u64, ..m }).instant() == m.instant()
                + 86_400_000
            &&& m.day == last && m.month < 12 ==> (Moment {
                month: (m.month + 1) as u64,
                day: 1,
                ..m
            }).instant() == m.instant() + 86_400_000
            &&& m.day == last && m.month == 12 && m.year < 9999 ==> (Moment {
                year: (m.year + 1) as u64,
                month: 1,
                day: 1,
                ..m
            }).instant() == m.instant() + 86_400_000
        }),
{
    lemma_year_length(m.year as int);
}

/// The time of a day is counted in milliseconds from its midnight, and the first midnight
/// of 1970 is counted as nothing.
pub proof fn a_moment_is_counted_from_its_midnight(m: Moment, zero: Moment)
    requires
        zero.year == 1970,
        zero.month == 1,
        zero.day == 1,
        zero.hour == 0 && zero.minute == 0 && zero.second == 0 && zero.milli == 0,
    ensures
        m.instant() - (Moment { hour: 0, minute: 0, second: 0, milli: 0, ..m }).instant()
            == 3_600_000 * m.hour + 60_000 * m.minute + 1_000 * m.second + m.milli,
        zero.instant() == 0,
{
}

proof fn lemma_padded(n: nat, width: nat)
    ensures
        padded(n, width).len() == width,
        text::all_digits(padded(n, width)),
        n < ten_to(width) ==> text::digits_value(padded(n, width)) == n,
    decreases width,
{
    if width > 0 {
        lemma_padded(n / 10, (width - 1) as nat);
        let high = padded(n / 10, (width - 1) as nat);
        let d = text::digit(n % 10);
        assert(high.push(d).drop_last() =~= high);
        assert(text::is_digit(d));
        assert(text::digit_value(d) == n % 10);
    }
}

/// Ten times itself, so many times.
pub open spec fn ten_to(power: nat) -> nat
    decreases power,
{
    if power == 0 {
        1
    } else {
        10 * ten_to((power - 1) as nat)
    }
}

/// A written moment is read back place by place: the year in four digits, then the month,
/// the day, the hour, the minute and the second in two each and the milliseconds in three,
/// with a mark between two and one at the end.
pub proof fn a_written_moment_reads_back(m: Moment)
    requires
        m.is_valid(),
    ensures
        m.text().len() == 24,
        text::digits_value(m.text().subrange(0, 4)) == m.year,
        m.text()[4] == '-',
        text::digits_value(m.text().subrange(5, 7)) == m.month,
        m.text()[7] == '-',
        text::digits_value(m.text().subrange(8, 10)) == m.day,
        m.text()[10] == 'T',
        text::digits_value(m.text().subrange(11, 13)) == m.hour,
        m.text()[13] == ':',
        text::digits_value(m.text().subrange(14, 16)) == m.minute,
        m.text()[16] == ':',
        text::digits_value(m.text().subrange(17, 19)) == m.second,
        m.text()[19] == '.',
        text::digits_value(m.text().subrange(20, 23)) == m.milli,
        m.text()[23] == 'Z',
{
    reveal_with_fuel(ten_to, 5);
    lemma_padded(m.year as nat, 4);
    lemma_padded(m.month as nat, 2);
    lemma_padded(m.day as nat, 2);
    lemma_padded(m.hour as nat, 2);
    lemma_padded(m.minute as nat, 2);
    lemma_padded(m.second as nat, 2);
    lemma_padded(m.milli as nat, 3);
    let t = m.text();
    assert(t.subrange(0, 4) =~= padded(m.year as nat, 4));
    assert(t.subrange(5, 7) =~= padded(m.month as nat, 2));
    assert(t.subrange(8, 10) =~= padded(m.day as nat, 2));
    assert(t.subrange(11, 13) =~= padded(m.hour as nat, 2));
    assert(t.subrange(14, 16) =~= padded(m.minute as nat, 2));
    assert(t.subrange(17, 19) =~= padded(m.second as nat, 2));
    assert(t.subrange(20, 23) =~= padded(m.milli as nat, 3));
}

} // verus!
