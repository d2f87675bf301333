//! Fixed-width local timestamps: month abbreviation, day, time of day and
//! milliseconds, as in `Jan-05 13:07:09.042`.

use crate::text::{is_digit, is_lower, is_upper, no_upper};
use vstd::prelude::*;

verus! {

/// Nanoseconds in one second.
pub const NANOS_PER_SECOND: u32 = 1_000_000_000;

/// Nanoseconds in one millisecond.
pub const NANOS_PER_MILLI: u32 = 1_000_000;

/// A local wall-clock reading, reduced to the fields a log line shows. The
/// caller reads the clock and hands over the six numbers.
///
/// `nanosecond` counts from the start of `second`. A value of one second or
/// more stands for a leap second, which is shown as the following second.
#[derive(Clone, Copy, Debug)]
pub struct Timestamp {
    month: u8,
    day: u8,
    hour: u8,
    minute: u8,
    second: u8,
    nanosecond: u32,
}

/// Whether six numbers name a month, a day of the month and a time of day.
pub open spec fn valid_fields(
    month: int,
    day: int,
    hour: int,
    minute: int,
    second: int,
    nanosecond: int,
) -> bool {
    &&& 1 <= month <= 12
    &&& 1 <= day <= 31
    &&& 0 <= hour <= 23
    &&& 0 <= minute <= 59
    &&& 0 <= second <= 59
    &&& 0 <= nanosecond < 2 * NANOS_PER_SECOND
}

/// The decimal digit for a number below ten.
pub open spec fn digit(d: int) -> char {
    ('0' as int + d) as char
}

/// A number below one hundred as two decimal digits, zero-padded.
pub open spec fn two_digits(n: int) -> Seq<char> {
    seq![digit(n / 10), digit(n % 10)]
}

/// A number below one thousand as three decimal digits, zero-padded.
pub open spec fn three_digits(n: int) -> Seq<char> {
    seq![digit(n / 100), digit(n / 10 % 10), digit(n % 10)]
}

/// English three-letter abbreviation of a month, counted from 1.
pub open spec fn month_abbrev(month: int) -> Seq<char> {
    if month == 1 {
        "Jan"@
    } else if month == 2 {
        "Feb"@
    } else if month == 3 {
        "Mar"@
    } else if month == 4 {
        "Apr"@
    } else if month == 5 {
        "May"@
    } else if month == 6 {
        "Jun"@
    } else if month == 7 {
        "Jul"@
    } else if month == 8 {
        "Aug"@
    } else if month == 9 {
        "Sep"@
    } else if month == 10 {
        "Oct"@
    } else if month == 11 {
        "Nov"@
    } else {
        "Dec"@
    }
}

/// The shape every timestamp has: an upper-case letter, two lower-case
/// letters, `-`, two digits, a space, `dd:dd:dd`, `.`, three digits.
pub open spec fn matches_timestamp_pattern(s: Seq<char>) -> bool {
    &&& s.len() == 19
    &&& is_upper(s[0])
    &&& is_lower(s[1])
    &&& is_lower(s[2])
    &&& s[3] == '-'
    &&& is_digit(s[4])
    &&& is_digit(s[5])
    &&& s[6] == ' '
    &&& is_digit(s[7])
    &&& is_digit(s[8])
    &&& s[9] == ':'
    &&& is_digit(s[10])
    &&& is_digit(s[11])
    &&& s[12] == ':'
    &&& is_digit(s[13])
    &&& is_digit(s[14])
    &&& s[15] == '.'
    &&& is_digit(s[16])
    &&& is_digit(s[17])
    &&& is_digit(s[18])
}

impl Timestamp {
    /// The month, from 1 to 12.
    pub closed spec fn month(&self) -> int {
        self.month as int
    }

    /// The day of the month, from 1 to 31.
    pub closed spec fn day(&self) -> int {
        self.day as int
    }

    /// The hour, from 0 to 23.
    pub closed spec fn hour(&self) -> int {
        self.hour as int
    }

    /// The minute, from 0 to 59.
    pub closed spec fn minute(&self) -> int {
        self.minute as int
    }

    /// The second, from 0 to 59.
    pub closed spec fn second(&self) -> int {
        self.second as int
    }

    /// Nanoseconds since the start of the second; a leap second counts on
    /// from one thousand million.
    pub closed spec fn nanosecond(&self) -> int {
        self.nanosecond as int
    }

    /// Every timestamp that exists at run time holds valid fields.
    #[verifier::type_invariant]
    pub open spec fn wf(&self) -> bool {
        valid_fields(
            self.month(),
            self.day(),
            self.hour(),
            self.minute(),
            self.second(),
            self.nanosecond(),
        )
    }

    /// The second that is shown: one more than `second` during a leap second.
    pub open spec fn shown_second(&self) -> int {
        self.second() + self.nanosecond() / (NANOS_PER_SECOND as int)
    }

    /// Whole milliseconds of the sub-second part, truncated.
    pub open spec fn millis(&self) -> int {
        self.nanosecond() / (NANOS_PER_MILLI as int) % 1000
    }

    /// The timestamp as it appears in a log line.
    pub open spec fn text(&self) -> Seq<char> {
        month_abbrev(self.month()) + seq!['-'] + two_digits(self.day()) + seq![' '] + two_digits(
            self.hour(),
        ) + seq![':'] + two_digits(self.minute()) + seq![':'] + two_digits(self.shown_second())
            + seq!['.'] + three_digits(self.millis())
    }

    /// Builds a timestamp from its fields, or `None` if one is out of range.
    pub fn new(month: u8, day: u8, hour: u8, minute: u8, second: u8, nanosecond: u32) -> (ts:
        Option<Timestamp>)
        ensures
            ts is Some <==> valid_fields(
                month as int,
                day as int,
                hour as int,
                minute as int,
                second as int,
                nanosecond as int,
            ),
            ts matches Some(t) ==> {
                &&& t.wf()
                &&& t.month() == month
                &&& t.day() == day
                &&& t.hour() == hour
                &&& t.minute() == minute
                &&& t.second() == second
                &&& t.nanosecond() == nanosecond
            },
    {
        if 1 <= month && month <= 12 && 1 <= day && day <= 31 && hour <= 23 && minute <= 59
            && second <= 59 && nanosecond < 2 * NANOS_PER_SECOND {
            Some(Timestamp { month, day, hour, minute, second, nanosecond })
        } else {
            None
        }
    }

    /// Renders the timestamp.
    pub fn format(&self) -> (text: String)
        ensures
            text@ == self.text(),
            matches_timestamp_pattern(text@),
    {
        proof {
            use_type_invariant(self);
            lemma_text_matches_pattern(*self);
            reveal_strlit("-");
            reveal_strlit(" ");
            reveal_strlit(":");
            reveal_strlit(".");
        }
        let shown_second: u8 = if self.nanosecond >= NANOS_PER_SECOND {
            self.second + 1
        } else {
            self.second
        };
        let millis: u32 = self.nanosecond / NANOS_PER_MILLI % 1000;
        let mut out = String::new();
        out.append(month_name(self.month));
        out.append("-");
        append_two_digits(&mut out, self.day);
        out.append(" ");
        append_two_digits(&mut out, self.hour);
        out.append(":");
        append_two_digits(&mut out, self.minute);
        out.append(":");
        append_two_digits(&mut out, shown_second);
        out.append(".");
        append_three_digits(&mut out, millis as u16);
        out
    }
}

/// The abbreviation of a month as text.
fn month_name(month: u8) -> (name: &'static str)
    requires
        1 <= month <= 12,
    ensures
        name@ == month_abbrev(month as int),
{
    match month {
        1 => "Jan",
        2 => "Feb",
        3 => "Mar",
        4 => "Apr",
        5 => "May",
        6 => "Jun",
        7 => "Jul",
        8 => "Aug",
        9 => "Sep",
        10 => "Oct",
        11 => "Nov",
        _ => "Dec",
    }
}

/// One decimal digit as text.
fn digit_str(d: u8) -> (s: &'static str)
    requires
        d < 10,
    ensures
        s@ == seq![digit(d as int)],
{
    proof {
        reveal_strlit("0");
        reveal_strlit("1");
        reveal_strlit("2");
        reveal_strlit("3");
        reveal_strlit("4");
        reveal_strlit("5");
        reveal_strlit("6");
        reveal_strlit("7");
        reveal_strlit("8");
        reveal_strlit("9");
    }
    match d {
        0 => "0",
        1 => "1",
        2 => "2",
        3 => "3",
        4 => "4",
        5 => "5",
        6 => "6",
        7 => "7",
        8 => "8",
        _ => "9",
    }
}

/// Appends a number below one hundred as two digits.
fn append_two_digits(out: &mut String, n: u8)
    requires
        n < 100,
    ensures
        final(out)@ == old(out)@ + two_digits(n as int),
{
    out.append(digit_str(n / 10));
    out.append(digit_str(n % 10));
}

/// Appends a number below one thousand as three digits.
fn append_three_digits(out: &mut String, n: u16)
    requires
        n < 1000,
    ensures
        final(out)@ == old(out)@ + three_digits(n as int),
{
    out.append(digit_str((n / 100) as u8));
    out.append(digit_str((n / 10 % 10) as u8));
    out.append(digit_str((n % 10) as u8));
}

/// Every valid timestamp renders to text of the fixed shape.
pub proof fn lemma_text_matches_pattern(ts: Timestamp)
    requires
        ts.wf(),
    ensures
        matches_timestamp_pattern(ts.text()),
{
    reveal_strlit("Jan");
    reveal_strlit("Feb");
    reveal_strlit("Mar");
    reveal_strlit("Apr");
    reveal_strlit("May");
    reveal_strlit("Jun");
    reveal_strlit("Jul");
    reveal_strlit("Aug");
    reveal_strlit("Sep");
    reveal_strlit("Oct");
    reveal_strlit("Nov");
    reveal_strlit("Dec");
}

/// Text of the timestamp shape holds one upper-case letter, its first.
pub proof fn lemma_pattern_one_capital(s: Seq<char>)
    requires
        matches_timestamp_pattern(s),
    ensures
        is_upper(s[0]),
        no_upper(s.subrange(1, s.len() as int)),
{
    let rest = s.subrange(1, s.len() as int);
    assert forall|i: int| 0 <= i < rest.len() implies !is_upper(#[trigger] rest[i]) by {
        assert(rest[i] == s[i + 1]);
    }
}

} // verus!
