//! Candle intervals as used by the dataset and optimisation code.

use vstd::prelude::*;
use crate::error::ParseIntervalError;
use crate::text::{owned, str_eq, label_minutes, lemma_one_digit_label, lemma_two_digit_label};

verus! {

/// Represents various time intervals.
#[derive(Debug, PartialEq, Eq, Clone, Copy, Hash, Structural)]
pub enum Interval {
    OneMinute,
    ThreeMinutes,
    FiveMinutes,
    FifteenMinutes,
    ThirtyMinutes,
    OneHour,
    TwoHours,
    FourHours,
    SixHours,
    EightHours,
    TwelveHours,
    OneDay,
    ThreeDays,
    OneWeek,
    OneMonth,
}

/// The length of an interval in minutes.
pub open spec fn spec_minutes(i: Interval) -> int {
    match i {
        Interval::OneMinute => 1,
        Interval::ThreeMinutes => 3,
        Interval::FiveMinutes => 5,
        Interval::FifteenMinutes => 15,
        Interval::ThirtyMinutes => 30,
        Interval::OneHour => 60,
        Interval::TwoHours => 120,
        Interval::FourHours => 240,
        Interval::SixHours => 360,
        Interval::EightHours => 480,
        Interval::TwelveHours => 720,
        Interval::OneDay => 1440,
        Interval::ThreeDays => 4320,
        Interval::OneWeek => 10080,
        Interval::OneMonth => 43200,
    }
}

/// The label of an interval, as Binance writes it.
pub open spec fn spec_label(i: Interval) -> Seq<char> {
    match i {
        Interval::OneMinute => "1m"@,
        Interval::ThreeMinutes => "3m"@,
        Interval::FiveMinutes => "5m"@,
        Interval::FifteenMinutes => "15m"@,
        Interval::ThirtyMinutes => "30m"@,
        Interval::OneHour => "1h"@,
        Interval::TwoHours => "2h"@,
        Interval::FourHours => "4h"@,
        Interval::SixHours => "6h"@,
        Interval::EightHours => "8h"@,
        Interval::TwelveHours => "12h"@,
        Interval::OneDay => "1d"@,
        Interval::ThreeDays => "3d"@,
        Interval::OneWeek => "1w"@,
        Interval::OneMonth => "1M"@,
    }
}

/// The interval whose length is `m` minutes, if there is one.
pub open spec fn spec_from_minutes(m: int) -> Option<Interval> {
    if m == 1 { Some(Interval::OneMinute) }
    else if m == 3 { Some(Interval::ThreeMinutes) }
    else if m == 5 { Some(Interval::FiveMinutes) }
    else if m == 15 { Some(Interval::FifteenMinutes) }
    else if m == 30 { Some(Interval::ThirtyMinutes) }
    else if m == 60 { Some(Interval::OneHour) }
    else if m == 120 { Some(Interval::TwoHours) }
    else if m == 240 { Some(Interval::FourHours) }
    else if m == 360 { Some(Interval::SixHours) }
    else if m == 480 { Some(Interval::EightHours) }
    else if m == 720 { Some(Interval::TwelveHours) }
    else if m == 1440 { Some(Interval::OneDay) }
    else if m == 4320 { Some(Interval::ThreeDays) }
    else if m == 10080 { Some(Interval::OneWeek) }
    else if m == 43200 { Some(Interval::OneMonth) }
    else { None }
}

/// The interval whose label is `s`, if there is one.
pub open spec fn spec_parse(s: Seq<char>) -> Option<Interval> {
    if s == "1m"@ { Some(Interval::OneMinute) }
    else if s == "3m"@ { Some(Interval::ThreeMinutes) }
    else if s == "5m"@ { Some(Interval::FiveMinutes) }
    else if s == "15m"@ { Some(Interval::FifteenMinutes) }
    else if s == "30m"@ { Some(Interval::ThirtyMinutes) }
    else if s == "1h"@ { Some(Interval::OneHour) }
    else if s == "2h"@ { Some(Interval::TwoHours) }
    else if s == "4h"@ { Some(Interval::FourHours) }
    else if s == "6h"@ { Some(Interval::SixHours) }
    else if s == "8h"@ { Some(Interval::EightHours) }
    else if s == "12h"@ { Some(Interval::TwelveHours) }
    else if s == "1d"@ { Some(Interval::OneDay) }
    else if s == "3d"@ { Some(Interval::ThreeDays) }
    else if s == "1w"@ { Some(Interval::OneWeek) }
    else if s == "1M"@ { Some(Interval::OneMonth) }
    else { None }
}

impl Interval {
    /// Returns the total minutes for the interval.
    pub fn to_minutes(&self) -> (r: i64)
        ensures
            r == spec_minutes(*self),
    {
        match self {
            Interval::OneMinute => 1,
            Interval::ThreeMinutes => 3,
            Interval::FiveMinutes => 5,
            Interval::FifteenMinutes => 15,
            Interval::ThirtyMinutes => 30,
            Interval::OneHour => 60,
            Interval::TwoHours => 120,
            Interval::FourHours => 240,
            Interval::SixHours => 360,
            Interval::EightHours => 480,
            Interval::TwelveHours => 720,
            Interval::OneDay => 1440,
            Interval::ThreeDays => 4320,
            Interval::OneWeek => 10080,
            Interval::OneMonth => 43200,
        }
    }

    /// Creates an `Interval` from the number of minutes.
    pub fn from_minutes(minutes: usize) -> (r: Result<Self, ParseIntervalError>)
        ensures
            match spec_from_minutes(minutes as int) {
                Some(i) => r == Ok::<Interval, ParseIntervalError>(i),
                None => r == Err::<Interval, ParseIntervalError>(ParseIntervalError::ParseIntError(minutes)),
            },
    {
        match minutes {
            1 => Ok(Interval::OneMinute),
            3 => Ok(Interval::ThreeMinutes),
            5 => Ok(Interval::FiveMinutes),
            15 => Ok(Interval::FifteenMinutes),
            30 => Ok(Interval::ThirtyMinutes),
            60 => Ok(Interval::OneHour),
            120 => Ok(Interval::TwoHours),
            240 => Ok(Interval::FourHours),
            360 => Ok(Interval::SixHours),
            480 => Ok(Interval::EightHours),
            720 => Ok(Interval::TwelveHours),
            1440 => Ok(Interval::OneDay),
            4320 => Ok(Interval::ThreeDays),
            10080 => Ok(Interval::OneWeek),
            43200 => Ok(Interval::OneMonth),
            _ => Err(ParseIntervalError::ParseIntError(minutes)),
        }
    }

    fn label(&self) -> (r: &'static str)
        ensures
            r@ == spec_label(*self),
    {
        match self {
            Interval::OneMinute => "1m",
            Interval::ThreeMinutes => "3m",
            Interval::FiveMinutes => "5m",
            Interval::FifteenMinutes => "15m",
            Interval::ThirtyMinutes => "30m",
            Interval::OneHour => "1h",
            Interval::TwoHours => "2h",
            Interval::FourHours => "4h",
            Interval::SixHours => "6h",
            Interval::EightHours => "8h",
            Interval::TwelveHours => "12h",
            Interval::OneDay => "1d",
            Interval::ThreeDays => "3d",
            Interval::OneWeek => "1w",
            Interval::OneMonth => "1M",
        }
    }

    /// The label of the interval ("1m", "1h", "1M", ...).
    pub fn to_string(&self) -> (r: String)
        ensures
            r@ == spec_label(*self),
    {
        owned(self.label())
    }

    /// Parses an interval label.
    pub fn parse(s: &str) -> (r: Result<Self, ParseIntervalError>)
        ensures
            match spec_parse(s@) {
                Some(i) => r == Ok::<Interval, ParseIntervalError>(i),
                None => r matches Err(ParseIntervalError::ParseError(e)) && e@ == s@,
            },
    {
        if str_eq(s, "1m") { Ok(Interval::OneMinute) }
        else if str_eq(s, "3m") { Ok(Interval::ThreeMinutes) }
        else if str_eq(s, "5m") { Ok(Interval::FiveMinutes) }
        else if str_eq(s, "15m") { Ok(Interval::FifteenMinutes) }
        else if str_eq(s, "30m") { Ok(Interval::ThirtyMinutes) }
        else if str_eq(s, "1h") { Ok(Interval::OneHour) }
        else if str_eq(s, "2h") { Ok(Interval::TwoHours) }
        else if str_eq(s, "4h") { Ok(Interval::FourHours) }
        else if str_eq(s, "6h") { Ok(Interval::SixHours) }
        else if str_eq(s, "8h") { Ok(Interval::EightHours) }
        else if str_eq(s, "12h") { Ok(Interval::TwelveHours) }
        else if str_eq(s, "1d") { Ok(Interval::OneDay) }
        else if str_eq(s, "3d") { Ok(Interval::ThreeDays) }
        else if str_eq(s, "1w") { Ok(Interval::OneWeek) }
        else if str_eq(s, "1M") { Ok(Interval::OneMonth) }
        else { Err(ParseIntervalError::ParseError(owned(s))) }
    }
}

impl std::str::FromStr for Interval {
    type Err = ParseIntervalError;

    fn from_str(s: &str) -> (r: Result<Self, Self::Err>)
        ensures
            match spec_parse(s@) {
                Some(i) => r == Ok::<Interval, ParseIntervalError>(i),
                None => r matches Err(ParseIntervalError::ParseError(e)) && e@ == s@,
            },
    {
        Interval::parse(s)
    }
}

/// Reading back the minutes of an interval gives the interval again.
pub proof fn lemma_minutes_round_trip(i: Interval)
    ensures
        spec_from_minutes(spec_minutes(i)) == Some(i),
{
}

/// Whenever a number of minutes names an interval, that interval has that many minutes.
pub proof fn lemma_from_minutes_sound(m: int)
    ensures
        spec_from_minutes(m) matches Some(i) ==> spec_minutes(i) == m,
{
}

/// Parsing the label of an interval gives the interval again.
pub proof fn lemma_label_round_trip(i: Interval)
    ensures
        spec_parse(spec_label(i)) == Some(i),
{
    reveal_strlit("1m");
    assert("1m"@ =~= seq!['1', 'm']);
    reveal_strlit("3m");
    assert("3m"@ =~= seq!['3', 'm']);
    reveal_strlit("5m");
    assert("5m"@ =~= seq!['5', 'm']);
    reveal_strlit("15m");
    assert("15m"@ =~= seq!['1', '5', 'm']);
    reveal_strlit("30m");
    assert("30m"@ =~= seq!['3', '0', 'm']);
    reveal_strlit("1h");
    assert("1h"@ =~= seq!['1', 'h']);
    reveal_strlit("2h");
    assert("2h"@ =~= seq!['2', 'h']);
    reveal_strlit("4h");
    assert("4h"@ =~= seq!['4', 'h']);
    reveal_strlit("6h");
    assert("6h"@ =~= seq!['6', 'h']);
    reveal_strlit("8h");
    assert("8h"@ =~= seq!['8', 'h']);
    reveal_strlit("12h");
    assert("12h"@ =~= seq!['1', '2', 'h']);
    reveal_strlit("1d");
    assert("1d"@ =~= seq!['1', 'd']);
    reveal_strlit("3d");
    assert("3d"@ =~= seq!['3', 'd']);
    reveal_strlit("1w");
    assert("1w"@ =~= seq!['1', 'w']);
    reveal_strlit("1M");
    assert("1M"@ =~= seq!['1', 'M']);
}

/// Whenever a string parses to an interval, it is that interval's label.
pub proof fn lemma_parse_sound(s: Seq<char>)
    ensures
        spec_parse(s) matches Some(i) ==> spec_label(i) == s,
{
}

/// An interval lasts what its label says: the label's number times its unit
/// ("15m" is 15 minutes, "6h" is 360, "1M" is a thirty-day month).
pub proof fn lemma_label_gives_minutes(i: Interval)
    ensures
        label_minutes(spec_label(i)) == Some(spec_minutes(i)),
{
    match i {
        Interval::OneMinute => {
            reveal_strlit("1m");
            assert("1m"@ =~= seq!['1', 'm']);
            lemma_one_digit_label('1', 'm', 1, 1);
        },
        Interval::ThreeMinutes => {
            reveal_strlit("3m");
            assert("3m"@ =~= seq!['3', 'm']);
            lemma_one_digit_label('3', 'm', 3, 1);
        },
        Interval::FiveMinutes => {
            reveal_strlit("5m");
            assert("5m"@ =~= seq!['5', 'm']);
            lemma_one_digit_label('5', 'm', 5, 1);
        },
        Interval::FifteenMinutes => {
            reveal_strlit("15m");
            assert("15m"@ =~= seq!['1', '5', 'm']);
            lemma_two_digit_label('1', '5', 'm', 15, 1);
        },
        Interval::ThirtyMinutes => {
            reveal_strlit("30m");
            assert("30m"@ =~= seq!['3', '0', 'm']);
            lemma_two_digit_label('3', '0', 'm', 30, 1);
        },
        Interval::OneHour => {
            reveal_strlit("1h");
            assert("1h"@ =~= seq!['1', 'h']);
            lemma_one_digit_label('1', 'h', 1, 60);
        },
        Interval::TwoHours => {
            reveal_strlit("2h");
            assert("2h"@ =~= seq!['2', 'h']);
            lemma_one_digit_label('2', 'h', 2, 60);
        },
        Interval::FourHours => {
            reveal_strlit("4h");
            assert("4h"@ =~= seq!['4', 'h']);
            lemma_one_digit_label('4', 'h', 4, 60);
        },
        Interval::SixHours => {
            reveal_strlit("6h");
            assert("6h"@ =~= seq!['6', 'h']);
            lemma_one_digit_label('6', 'h', 6, 60);
        },
        Interval::EightHours => {
            reveal_strlit("8h");
            assert("8h"@ =~= seq!['8', 'h']);
            lemma_one_digit_label('8', 'h', 8, 60);
        },
        Interval::TwelveHours => {
            reveal_strlit("12h");
            assert("12h"@ =~= seq!['1', '2', 'h']);
            lemma_two_digit_label('1', '2', 'h', 12, 60);
        },
        Interval::OneDay => {
            reveal_strlit("1d");
            assert("1d"@ =~= seq!['1', 'd']);
            lemma_one_digit_label('1', 'd', 1, 1440);
        },
        Interval::ThreeDays => {
            reveal_strlit("3d");
            assert("3d"@ =~= seq!['3', 'd']);
            lemma_one_digit_label('3', 'd', 3, 1440);
        },
        Interval::OneWeek => {
            reveal_strlit("1w");
            assert("1w"@ =~= seq!['1', 'w']);
            lemma_one_digit_label('1', 'w', 1, 10080);
        },
        Interval::OneMonth => {
            reveal_strlit("1M");
            assert("1M"@ =~= seq!['1', 'M']);
            lemma_one_digit_label('1', 'M', 1, 43200);
        },
    }
}

/// A number of minutes names the interval whose label says that many minutes.
pub proof fn lemma_from_minutes_matches_label(m: int)
    ensures
        spec_from_minutes(m) matches Some(i) ==> label_minutes(spec_label(i)) == Some(m),
{
    if let Some(i) = spec_from_minutes(m) {
        lemma_label_gives_minutes(i);
    }
}

} // verus!
