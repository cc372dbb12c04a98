//! Calendar dates and the text that names a day.

use chrono::Datelike;
use vstd::prelude::*;

verus! {

/// The first year that has calendar dates here.
pub const MIN_YEAR: i32 = -262143;

/// The last year that has calendar dates here.
pub const MAX_YEAR: i32 = 262142;

/// Whether `year` has a 29th of February in the proleptic Gregorian calendar.
pub open spec fn is_leap_year(year: int) -> bool {
    year % 4 == 0 && (year % 100 != 0 || year % 400 == 0)
}

/// The number of days of `month` in `year`, for a month from 1 to 12.
pub open spec fn days_in_month(year: int, month: int) -> int {
    if month == 2 {
        if is_leap_year(year) {
            29
        } else {
            28
        }
    } else if month == 4 || month == 6 || month == 9 || month == 11 {
        30
    } else {
        31
    }
}

/// Whether year, month and day name a day of the calendar.
pub open spec fn is_calendar_date(year: int, month: int, day: int) -> bool {
    &&& MIN_YEAR <= year <= MAX_YEAR
    &&& 1 <= month <= 12
    &&& 1 <= day <= days_in_month(year, month)
}

/// The character that stands for the decimal digit `d`, from 0 to 9.
pub open spec fn digit(d: int) -> char {
    ((48 + d) as u8) as char
}

/// The width that is left for the digits in front of the last one.
pub open spec fn width_in_front(width: nat) -> nat {
    if width > 1 {
        (width - 1) as nat
    } else {
        0
    }
}

/// `n` in decimal digits, with zeros in front up to `width` digits.
pub open spec fn decimal(n: nat, width: nat) -> Seq<char>
    decreases n, width,
{
    if n < 10 && width <= 1 {
        seq![digit(n as int)]
    } else {
        decimal(n / 10, width_in_front(width)).push(digit((n % 10) as int))
    }
}

/// A year as text: four digits from 0 to 9999, and otherwise a sign and at
/// least four digits.
pub open spec fn year_text(year: int) -> Seq<char> {
    if 0 <= year <= 9999 {
        decimal(year as nat, 4)
    } else if year < 0 {
        seq!['-'] + decimal((-year) as nat, 4)
    } else {
        seq!['+'] + decimal(year as nat, 4)
    }
}

/// A day as text, `YYYY-MM-DD`: the year, then month and day in two digits each.
pub open spec fn iso_text(year: int, month: int, day: int) -> Seq<char> {
    year_text(year) + seq!['-'] + decimal(month as nat, 2) + seq!['-'] + decimal(day as nat, 2)
}

/// Whether `c` is a decimal digit.
pub open spec fn is_digit(c: char) -> bool {
    '0' <= c <= '9'
}

/// Whether `c` can stand in the text of a day: a digit or a sign.
pub open spec fn is_date_char(c: char) -> bool {
    is_digit(c) || c == '-' || c == '+'
}

/// A number in decimal is made of digits, at least one and at least as many
/// as the width asks for.
pub proof fn lemma_decimal_is_digits(n: nat, width: nat)
    ensures
        decimal(n, width).len() >= 1,
        decimal(n, width).len() >= width,
        forall|i: int| 0 <= i < decimal(n, width).len() ==> is_digit(#[trigger] decimal(n, width)[i]),
    decreases n, width,
{
    if n < 10 && width <= 1 {
    } else {
        lemma_decimal_is_digits(n / 10, width_in_front(width));
    }
}

/// The text of a day has ten characters or more, each a digit or a sign.
pub proof fn lemma_iso_text_shape(year: int, month: int, day: int)
    ensures
        iso_text(year, month, day).len() >= 10,
        forall|i: int|
            0 <= i < iso_text(year, month, day).len() ==> is_date_char(
                #[trigger] iso_text(year, month, day)[i],
            ),
{
    lemma_decimal_is_digits(month as nat, 2);
    lemma_decimal_is_digits(day as nat, 2);
    if 0 <= year {
        lemma_decimal_is_digits(year as nat, 4);
    } else {
        lemma_decimal_is_digits((-year) as nat, 4);
    }
}

/// The number that decimal digits stand for.
pub open spec fn number_of(digits: Seq<char>) -> nat
    decreases digits.len(),
{
    if digits.len() == 0 {
        0
    } else {
        (number_of(digits.drop_last()) * 10 + (digits.last() as int - 48)) as nat
    }
}

/// The digits of a number stand for that number, whatever the width.
pub proof fn lemma_decimal_is_read_back(n: nat, width: nat)
    ensures
        number_of(decimal(n, width)) == n,
    decreases n, width,
{
    if n < 10 && width <= 1 {
        assert(seq![digit(n as int)].drop_last() =~= Seq::<char>::empty());
        reveal_with_fuel(number_of, 2);
    } else {
        let front = decimal(n / 10, width_in_front(width));
        lemma_decimal_is_read_back(n / 10, width_in_front(width));
        assert(front.push(digit((n % 10) as int)).drop_last() =~= front);
    }
}

/// A number below a hundred has exactly two digits at width two.
pub proof fn lemma_two_digits(n: nat)
    requires
        n < 100,
    ensures
        decimal(n, 2) =~= seq![digit((n / 10) as int), digit((n % 10) as int)],
{
    reveal_with_fuel(decimal, 2);
}

/// The text of a year tells the year.
pub proof fn lemma_year_text_tells_years_apart(a: int, b: int)
    requires
        year_text(a) == year_text(b),
    ensures
        a == b,
{
    let size_a: nat = if a < 0 { (-a) as nat } else { a as nat };
    let size_b: nat = if b < 0 { (-b) as nat } else { b as nat };
    lemma_decimal_is_digits(size_a, 4);
    lemma_decimal_is_digits(size_b, 4);
    lemma_decimal_is_read_back(size_a, 4);
    lemma_decimal_is_read_back(size_b, 4);
    let digits_a = decimal(size_a, 4);
    let digits_b = decimal(size_b, 4);
    assert(is_digit(digits_a[0]));
    assert(is_digit(digits_b[0]));
    let first = year_text(a)[0];
    assert(first == year_text(b)[0]);
    if 0 <= a <= 9999 {
        assert(first == digits_a[0]);
        assert(0 <= b <= 9999);
    } else if a < 0 {
        assert(first == '-');
        assert(b < 0);
        assert(year_text(a).skip(1) =~= digits_a);
        assert(year_text(b).skip(1) =~= digits_b);
    } else {
        assert(first == '+');
        assert(b > 9999);
        assert(year_text(a).skip(1) =~= digits_a);
        assert(year_text(b).skip(1) =~= digits_b);
    }
}

/// The text of a day tells the day: two days of the calendar with the same
/// text are the same day.
pub proof fn lemma_iso_text_tells_days_apart(a: Ymd, b: Ymd)
    requires
        a.valid(),
        b.valid(),
        a.text() == b.text(),
    ensures
        a == b,
{
    let text = a.text();
    let n = text.len() as int;
    lemma_two_digits(a.month as nat);
    lemma_two_digits(a.day as nat);
    lemma_two_digits(b.month as nat);
    lemma_two_digits(b.day as nat);
    assert(year_text(a.year).len() == n - 6);
    assert(year_text(b.year).len() == n - 6);
    assert(year_text(a.year) =~= text.take(n - 6));
    assert(year_text(b.year) =~= text.take(n - 6));
    lemma_year_text_tells_years_apart(a.year, b.year);
    assert(text[n - 5] == digit(a.month / 10) && text[n - 5] == digit(b.month / 10));
    assert(text[n - 4] == digit(a.month % 10) && text[n - 4] == digit(b.month % 10));
    assert(text[n - 2] == digit(a.day / 10) && text[n - 2] == digit(b.day / 10));
    assert(text[n - 1] == digit(a.day % 10) && text[n - 1] == digit(b.day % 10));
}

/// Whether `a` stands before `b` in the order of a dictionary: at the first
/// place where they differ `a` has the smaller character, or `a` ends there
/// and `b` goes on.
pub open spec fn sorts_before(a: Seq<char>, b: Seq<char>) -> bool
    decreases a.len(),
{
    if b.len() == 0 {
        false
    } else if a.len() == 0 {
        true
    } else if a[0] != b[0] {
        a[0] < b[0]
    } else {
        sorts_before(a.skip(1), b.skip(1))
    }
}

/// Two texts of one length that first differ at the place `at` are ordered
/// as their characters at that place are.
pub proof fn lemma_sorted_by_first_difference(a: Seq<char>, b: Seq<char>, at: int)
    requires
        a.len() == b.len(),
        0 <= at < a.len(),
        forall|i: int| 0 <= i < at ==> a[i] == b[i],
        a[at] != b[at],
    ensures
        sorts_before(a, b) == (a[at] < b[at]),
    decreases at,
{
    if at > 0 {
        assert(a[0] == b[0]);
        lemma_sorted_by_first_difference(a.skip(1), b.skip(1), at - 1);
    }
}

/// No text stands before itself.
pub proof fn lemma_not_sorted_before_itself(a: Seq<char>)
    ensures
        !sorts_before(a, a),
    decreases a.len(),
{
    if a.len() > 0 {
        lemma_not_sorted_before_itself(a.skip(1));
    }
}

/// A number up to 9999 has exactly four digits at width four.
pub proof fn lemma_four_digits(n: nat)
    requires
        n <= 9999,
    ensures
        decimal(n, 4) =~= seq![
            digit((n / 1000) as int),
            digit((n / 100 % 10) as int),
            digit((n / 10 % 10) as int),
            digit((n % 10) as int),
        ],
{
    reveal_with_fuel(decimal, 4);
    assert(n / 10 / 10 == n / 100);
    assert(n / 10 / 10 / 10 == n / 1000);
}

/// The text of a day in the years from 0 to 9999, character by character.
pub proof fn lemma_iso_text_of_four_digit_year(date: Ymd)
    requires
        date.valid(),
        0 <= date.year <= 9999,
    ensures
        date.text() =~= seq![
            digit(date.year / 1000),
            digit(date.year / 100 % 10),
            digit(date.year / 10 % 10),
            digit(date.year % 10),
            '-',
            digit(date.month / 10),
            digit(date.month % 10),
            '-',
            digit(date.day / 10),
            digit(date.day % 10),
        ],
{
    lemma_four_digits(date.year as nat);
    lemma_two_digits(date.month as nat);
    lemma_two_digits(date.day as nat);
}

/// Digits are ordered as the numbers that they stand for.
pub proof fn lemma_digits_are_ordered(x: int, y: int)
    requires
        0 <= x <= 9,
        0 <= y <= 9,
    ensures
        (digit(x) < digit(y)) == (x < y),
        (digit(x) == digit(y)) == (x == y),
{
}

/// Two numbers up to 9999 are ordered as their digits are at the first
/// place where these differ, and are equal where none differs.
pub proof fn lemma_ordered_by_first_digit(x: int, y: int)
    requires
        0 <= x <= 9999,
        0 <= y <= 9999,
    ensures
        x / 1000 != y / 1000 ==> (x / 1000 < y / 1000) == (x < y),
        x / 1000 == y / 1000 && x / 100 % 10 != y / 100 % 10 ==> (x / 100 % 10 < y / 100 % 10) == (x
            < y),
        x / 1000 == y / 1000 && x / 100 % 10 == y / 100 % 10 && x / 10 % 10 != y / 10 % 10 ==> (x
            / 10 % 10 < y / 10 % 10) == (x < y),
        x / 1000 == y / 1000 && x / 100 % 10 == y / 100 % 10 && x / 10 % 10 == y / 10 % 10 ==> (x
            % 10 < y % 10) == (x < y) && (x % 10 == y % 10) == (x == y),
{
}

/// In the years from 0 to 9999 the texts of days sort as the days do: an
/// earlier day stands before a later one in the order of a dictionary.
pub proof fn lemma_text_sorts_as_days_do(a: Ymd, b: Ymd)
    requires
        a.valid(),
        b.valid(),
        0 <= a.year <= 9999,
        0 <= b.year <= 9999,
    ensures
        sorts_before(a.text(), b.text()) == a.is_before(b),
{
    lemma_iso_text_of_four_digit_year(a);
    lemma_iso_text_of_four_digit_year(b);
    lemma_ordered_by_first_digit(a.year, b.year);
    lemma_ordered_by_first_digit(a.month, b.month);
    lemma_ordered_by_first_digit(a.day, b.day);
    let s = a.text();
    let t = b.text();
    let at: int = if s[0] != t[0] {
        0
    } else if s[1] != t[1] {
        1
    } else if s[2] != t[2] {
        2
    } else if s[3] != t[3] {
        3
    } else if s[5] != t[5] {
        5
    } else if s[6] != t[6] {
        6
    } else if s[8] != t[8] {
        8
    } else {
        9
    };
    lemma_digits_are_ordered(a.year / 1000, b.year / 1000);
    lemma_digits_are_ordered(a.year / 100 % 10, b.year / 100 % 10);
    lemma_digits_are_ordered(a.year / 10 % 10, b.year / 10 % 10);
    lemma_digits_are_ordered(a.year % 10, b.year % 10);
    lemma_digits_are_ordered(a.month / 10, b.month / 10);
    lemma_digits_are_ordered(a.month % 10, b.month % 10);
    lemma_digits_are_ordered(a.day / 10, b.day / 10);
    lemma_digits_are_ordered(a.day % 10, b.day % 10);
    if s[at] != t[at] {
        lemma_sorted_by_first_difference(s, t, at);
    } else {
        assert(a.year == b.year);
        assert(a.month == b.month);
        assert(a.day == b.day);
        lemma_not_sorted_before_itself(s);
    }
}

/// A day as mathematical integers: what a [`CalendarDate`] stands for.
pub struct Ymd {
    pub year: int,
    pub month: int,
    pub day: int,
}

impl Ymd {
    /// Whether this is a day of the calendar.
    pub open spec fn valid(self) -> bool {
        is_calendar_date(self.year, self.month, self.day)
    }

    /// The day as `YYYY-MM-DD`.
    pub open spec fn text(self) -> Seq<char> {
        iso_text(self.year, self.month, self.day)
    }

    /// Whether this day comes before `other`.
    pub open spec fn is_before(self, other: Ymd) -> bool {
        ||| self.year < other.year
        ||| self.year == other.year && self.month < other.month
        ||| self.year == other.year && self.month == other.month && self.day < other.day
    }
}

/// A day of the calendar. Every value is a day that exists.
#[derive(Clone, Copy, Debug, PartialEq, Eq)]
pub struct CalendarDate {
    year: i32,
    month: u32,
    day: u32,
}

impl View for CalendarDate {
    type V = Ymd;

    closed spec fn view(&self) -> Ymd {
        Ymd { year: self.year as int, month: self.month as int, day: self.day as int }
    }
}

impl CalendarDate {
    #[verifier::type_invariant]
    spec fn exists_in_calendar(self) -> bool {
        is_calendar_date(self.year as int, self.month as int, self.day as int)
    }

    /// The day with this year, month and day of the month, if the calendar
    /// has it.
    pub fn new(year: i32, month: u32, day: u32) -> (date: Option<CalendarDate>)
        ensures
            date.is_some() == is_calendar_date(year as int, month as int, day as int),
            date matches Some(d) ==> d@ == (Ymd {
                year: year as int,
                month: month as int,
                day: day as int,
            }),
    {
        if year < MIN_YEAR || year > MAX_YEAR || month < 1 || month > 12 || day < 1 {
            return None;
        }
        if day > month_length(year, month) {
            return None;
        }
        Some(CalendarDate { year, month, day })
    }

    /// The year.
    pub fn year(&self) -> (year: i32)
        ensures
            year == self@.year,
    {
        self.year
    }

    /// The month, from 1 to 12.
    pub fn month(&self) -> (month: u32)
        ensures
            month == self@.month,
            1 <= month <= 12,
    {
        proof {
            use_type_invariant(self);
        }
        self.month
    }

    /// The day of the month, from 1 to 31.
    pub fn day(&self) -> (day: u32)
        ensures
            day == self@.day,
            1 <= day <= 31,
    {
        proof {
            use_type_invariant(self);
        }
        self.day
    }

    /// The day as `YYYY-MM-DD`.
    pub fn text(&self) -> (text: String)
        ensures
            text@ == self@.text(),
    {
        proof {
            use_type_invariant(self);
        }
        chrono_date_text(self.year, self.month, self.day).unwrap()
    }
}

/// Today, by this machine's clock and in its time zone.
pub fn today() -> (date: CalendarDate)
    ensures
        date@.valid(),
{
    let (year, month, day) = local_today();
    CalendarDate { year, month, day }
}

fn leap_year(year: i32) -> (leap: bool)
    requires
        MIN_YEAR <= year <= MAX_YEAR,
    ensures
        leap == is_leap_year(year as int),
{
    // Moved up by a multiple of 400, a year keeps its place in the cycle of
    // leap years and is no longer negative.
    let shifted: u32 = (year + 262400) as u32;
    assert(shifted % 4 == year % 4 && shifted % 100 == year % 100 && shifted % 400 == year % 400);
    shifted % 4 == 0 && (shifted % 100 != 0 || shifted % 400 == 0)
}

fn month_length(year: i32, month: u32) -> (days: u32)
    requires
        MIN_YEAR <= year <= MAX_YEAR,
        1 <= month <= 12,
    ensures
        days == days_in_month(year as int, month as int),
{
    if month == 2 {
        if leap_year(year) {
            29
        } else {
            28
        }
    } else if month == 4 || month == 6 || month == 9 || month == 11 {
        30
    } else {
        31
    }
}

/// Reads the clock: `chrono::Local::now()`, of which `date_naive()` gives the
/// local date and `Datelike` its year, month and day.
///
/// Which day comes back depends on the clock and the time zone, so the
/// contract says only what `chrono` holds of every `NaiveDate`: it is a day of
/// the proleptic Gregorian calendar, in a year from `MIN_YEAR` to `MAX_YEAR`.
/// `chrono` panics where the clock stands before 1970 or beyond its range.
#[verifier::external_body]
fn local_today() -> (today: (i32, u32, u32))
    ensures
        is_calendar_date(today.0 as int, today.1 as int, today.2 as int),
{
    let today = chrono::Local::now().date_naive();
    (today.year(), today.month(), today.day())
}

/// Formats a day with `chrono`: `NaiveDate::from_ymd_opt`, then
/// `format("%Y-%m-%d")`.
///
/// `from_ymd_opt` gives a date exactly for the days of the calendar. `%Y`
/// writes the year in four digits with zeros in front, and with a sign and at
/// least four digits outside 0 to 9999; `%m` and `%d` write two digits each.
#[verifier::external_body]
fn chrono_date_text(year: i32, month: u32, day: u32) -> (text: Option<String>)
    ensures
        text.is_some() == is_calendar_date(year as int, month as int, day as int),
        text matches Some(t) ==> t@ == iso_text(year as int, month as int, day as int),
{
    match chrono::NaiveDate::from_ymd_opt(year, month, day) {
        Some(date) => Some(date.format("%Y-%m-%d").to_string()),
        None => None,
    }
}

} // verus!
