//! The date rule: from a calendar year and month, the first day of the
//! following month as a fixed-format `YYYY-MM-01` string, with the portal's
//! historical special case that January targets December of the previous year.

use vstd::prelude::*;
use vstd::string::StringExecFns;

verus! {

/// The calendar year the computed date falls in: a January input targets
/// December of the previous year; every other month stays in its own year.
pub open spec fn target_year(year: int, month: int) -> int {
    if month == 1 {
        year - 1
    } else {
        year
    }
}

/// The calendar month the computed date falls in: December for a January
/// input, the following month otherwise.
pub open spec fn target_month(month: int) -> int {
    if month == 1 {
        12
    } else {
        month + 1
    }
}

/// The decimal digit character for `d`, which must lie in 0 ..= 9.
pub open spec fn digit_char(d: int) -> char {
    if d == 0 {
        '0'
    } else if d == 1 {
        '1'
    } else if d == 2 {
        '2'
    } else if d == 3 {
        '3'
    } else if d == 4 {
        '4'
    } else if d == 5 {
        '5'
    } else if d == 6 {
        '6'
    } else if d == 7 {
        '7'
    } else if d == 8 {
        '8'
    } else {
        '9'
    }
}

/// The four decimal digits of `y`, zero-padded.
pub open spec fn four_digits(y: int) -> Seq<char> {
    seq![
        digit_char(y / 1000 % 10),
        digit_char(y / 100 % 10),
        digit_char(y / 10 % 10),
        digit_char(y % 10),
    ]
}

/// The two decimal digits of `m`, zero-padded.
pub open spec fn two_digits(m: int) -> Seq<char> {
    seq![digit_char(m / 10 % 10), digit_char(m % 10)]
}

/// The `YYYY-MM-01` string for the first day of month `m` of year `y`.
pub open spec fn first_of_month(y: int, m: int) -> Seq<char> {
    four_digits(y) + seq!['-'] + two_digits(m) + seq!['-', '0', '1']
}

/// What the date rule returns on a given year and month.
pub open spec fn spec_date_expire(year: int, month: int) -> Seq<char> {
    first_of_month(target_year(year, month), target_month(month))
}

/// The single digit character of `d`.
fn digit_str(d: u32) -> (r: &'static str)
    requires
        d <= 9,
    ensures
        r@ == seq![digit_char(d as int)],
{
    let r = match d {
        0 => "0",
        1 => "1",
        2 => "2",
        3 => "3",
        4 => "4",
        5 => "5",
        6 => "6",
        7 => "7",
        8 => "8",
        _ => "9",
    };
    proof {
        reveal_strlit("0");
        reveal_strlit("1");
        reveal_strlit("2");
        reveal_strlit("3");
        reveal_strlit("4");
        reveal_strlit("5");
        reveal_strlit("6");
        reveal_strlit("7");
        reveal_strlit("8");
        reveal_strlit("9");
        assert(r@ =~= seq![digit_char(d as int)]);
    }
    r
}

/// Compute the first day of the next month as a `YYYY-MM-01` string.
///
/// A January input targets December of the previous year (the portal's
/// historical behaviour); any other month targets the following month of the
/// same year. The target year must fit the four-digit year format.
pub fn make_date_expire(year: i32, month: u32) -> (r: String)
    requires
        1 <= month <= 12,
        0 <= target_year(year as int, month as int) <= 9999,
    ensures
        r@ == spec_date_expire(year as int, month as int),
{
    let (new_year, new_month): (i32, u32) = if month == 1 {
        (year - 1, 12)
    } else {
        (year, month + 1)
    };
    let y: u32 = new_year as u32;
    let mut s = String::new();
    s.append(digit_str(y / 1000 % 10));
    s.append(digit_str(y / 100 % 10));
    s.append(digit_str(y / 10 % 10));
    s.append(digit_str(y % 10));
    s.append("-");
    s.append(digit_str(new_month / 10 % 10));
    s.append(digit_str(new_month % 10));
    s.append("-01");
    proof {
        reveal_strlit("-");
        reveal_strlit("-01");
        assert(s@ =~= spec_date_expire(year as int, month as int));
    }
    s
}

/// Why a requested expiry date could not be computed.
#[derive(Clone, Copy, Debug, PartialEq, Eq, Structural)]
pub enum DateRuleError {
    /// The month was outside 1 ..= 12.
    MonthOutOfRange,
    /// The target year would not fit the four-digit year format.
    YearOutOfRange,
}

impl DateRuleError {
    /// A short description of the error, for the operator.
    pub fn message(&self) -> (r: &'static str)
        ensures
            *self is MonthOutOfRange ==> r@ == "month must be between 1 and 12"@,
            *self is YearOutOfRange ==> r@ == "target year does not fit the YYYY format"@,
    {
        match self {
            DateRuleError::MonthOutOfRange => "month must be between 1 and 12",
            DateRuleError::YearOutOfRange => "target year does not fit the YYYY format",
        }
    }
}

/// The date rule with its inputs checked: rejects a month outside 1 ..= 12
/// and a year whose target year leaves the four-digit format, and otherwise
/// returns exactly what `make_date_expire` returns.
pub fn try_make_date_expire(year: i32, month: u32) -> (r: Result<String, DateRuleError>)
    ensures
        (match r {
            Ok(s) => 1 <= month <= 12 && 0 <= target_year(year as int, month as int) <= 9999
                && s@ == spec_date_expire(year as int, month as int),
            Err(DateRuleError::MonthOutOfRange) => !(1 <= month <= 12),
            Err(DateRuleError::YearOutOfRange) => 1 <= month <= 12 && !(0 <= target_year(
                year as int,
                month as int,
            ) <= 9999),
        }),
{
    if month < 1 || month > 12 {
        return Err(DateRuleError::MonthOutOfRange);
    }
    let in_range: bool = if month == 1 {
        1 <= year && year <= 10000
    } else {
        0 <= year && year <= 9999
    };
    if !in_range {
        return Err(DateRuleError::YearOutOfRange);
    }
    Ok(make_date_expire(year, month))
}

/// An ASCII decimal digit character.
pub open spec fn is_ascii_digit(c: char) -> bool {
    48 <= c as u32 <= 57
}

/// The shape `\d{4}-\d{2}-01`: four digits, a dash, two digits, a dash, "01".
pub open spec fn matches_expire_pattern(s: Seq<char>) -> bool {
    &&& s.len() == 10
    &&& is_ascii_digit(s[0])
    &&& is_ascii_digit(s[1])
    &&& is_ascii_digit(s[2])
    &&& is_ascii_digit(s[3])
    &&& s[4] == '-'
    &&& is_ascii_digit(s[5])
    &&& is_ascii_digit(s[6])
    &&& s[7] == '-'
    &&& s[8] == '0'
    &&& s[9] == '1'
}

/// A digit character is an ASCII decimal digit.
proof fn lemma_digit_char_is_digit(d: int)
    requires
        0 <= d <= 9,
    ensures
        is_ascii_digit(digit_char(d)),
{
}

/// Law: for every month from 2 through 12, the date rule yields the first day
/// of the following month of the same year.
pub proof fn lemma_regular_months(year: int, month: int)
    requires
        2 <= month <= 12,
    ensures
        spec_date_expire(year, month) == first_of_month(year, month + 1),
{
}

/// Law: for January, the date rule yields the first of December of the
/// previous year — the portal's historical wraparound, kept on purpose.
pub proof fn lemma_january_wraparound(year: int)
    ensures
        spec_date_expire(year, 1) == first_of_month(year - 1, 12),
{
}

/// Law: whenever the month lies in 1 ..= 12 and the target year fits four
/// digits, the date rule's output matches the pattern `\d{4}-\d{2}-01`.
pub proof fn lemma_expire_pattern(year: int, month: int)
    requires
        1 <= month <= 12,
        0 <= target_year(year, month) <= 9999,
    ensures
        matches_expire_pattern(spec_date_expire(year, month)),
{
    let y = target_year(year, month);
    let m = target_month(month);
    lemma_digit_char_is_digit(y / 1000 % 10);
    lemma_digit_char_is_digit(y / 100 % 10);
    lemma_digit_char_is_digit(y / 10 % 10);
    lemma_digit_char_is_digit(y % 10);
    lemma_digit_char_is_digit(m / 10 % 10);
    lemma_digit_char_is_digit(m % 10);
    assert(spec_date_expire(year, month)[0] == digit_char(y / 1000 % 10));
    assert(spec_date_expire(year, month)[1] == digit_char(y / 100 % 10));
    assert(spec_date_expire(year, month)[2] == digit_char(y / 10 % 10));
    assert(spec_date_expire(year, month)[3] == digit_char(y % 10));
    assert(spec_date_expire(year, month)[4] == '-');
    assert(spec_date_expire(year, month)[5] == digit_char(m / 10 % 10));
    assert(spec_date_expire(year, month)[6] == digit_char(m % 10));
    assert(spec_date_expire(year, month)[7] == '-');
    assert(spec_date_expire(year, month)[8] == '0');
    assert(spec_date_expire(year, month)[9] == '1');
}

/// Law: the date rule is a pure function of its inputs — any two results
/// obtained from the same year and month are equal.
pub proof fn lemma_date_rule_deterministic(year: int, month: int, r1: Seq<char>, r2: Seq<char>)
    requires
        r1 == spec_date_expire(year, month),
        r2 == spec_date_expire(year, month),
    ensures
        r1 == r2,
{
}

} // verus!
