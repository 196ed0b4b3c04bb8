use vstd::prelude::*;

use num_decimal::Num;

use crate::message::Timestamp;
use crate::text::decimal;
use crate::text::decimal_string;
use crate::text::padded;
use crate::text::padded_string;

verus! {

/// An enumeration of the various supported time span values.
#[derive(Clone, Copy, Debug, PartialEq, Eq, Structural)]
pub enum TimeSpan {
    /// A minutely aggregate.
    Minute,
    /// A hourly aggregate.
    Hour,
    /// A daily aggregate.
    Day,
    /// A weekly aggregate.
    Week,
    /// A monthly aggregate.
    Month,
    /// A quarterly aggregate.
    Quarter,
    /// A yearly aggregate.
    Year,
}

/// The wire name of a time span.
pub open spec fn span_name(s: TimeSpan) -> Seq<char> {
    match s {
        TimeSpan::Minute => "minute"@,
        TimeSpan::Hour => "hour"@,
        TimeSpan::Day => "day"@,
        TimeSpan::Week => "week"@,
        TimeSpan::Month => "month"@,
        TimeSpan::Quarter => "quarter"@,
        TimeSpan::Year => "year"@,
    }
}

impl TimeSpan {
    /// The wire name of this time span.
    pub fn as_ref(&self) -> (r: &'static str)
        ensures
            r@ == span_name(*self),
    {
        match self {
            TimeSpan::Minute => "minute",
            TimeSpan::Hour => "hour",
            TimeSpan::Day => "day",
            TimeSpan::Week => "week",
            TimeSpan::Month => "month",
            TimeSpan::Quarter => "quarter",
            TimeSpan::Year => "year",
        }
    }
}

/// Whether `y` is a leap year of the Gregorian calendar.
pub open spec fn is_leap_year(y: int) -> bool {
    (y % 4 == 0 && y % 100 != 0) || y % 400 == 0
}

/// The number of days of month `m` of year `y`.
pub open spec fn days_in_month(y: int, m: int) -> int {
    if m == 2 {
        if is_leap_year(y) {
            29
        } else {
            28
        }
    } else if m == 4 || m == 6 || m == 9 || m == 11 {
        30
    } else {
        31
    }
}

/// Whether year `y`, month `m` and day `d` make a date of the calendar
/// with a year of at most four digits.
pub open spec fn is_valid_date(y: int, m: int, d: int) -> bool {
    0 <= y <= 9999 && 1 <= m <= 12 && 1 <= d <= days_in_month(y, m)
}

/// A calendar date (UTC), such as the bounds of an aggregates request.
/// Only dates of the calendar with a year of at most four digits exist.
#[derive(Clone, Copy, Debug, PartialEq, Eq, Hash, Structural)]
pub struct Date {
    year: u16,
    month: u8,
    day: u8,
}

impl Date {
    /// The year.
    pub closed spec fn spec_year(&self) -> u16 {
        self.year
    }

    /// The month, from 1 to 12.
    pub closed spec fn spec_month(&self) -> u8 {
        self.month
    }

    /// The day of the month, from 1.
    pub closed spec fn spec_day(&self) -> u8 {
        self.day
    }

    /// Every date is one of the calendar.
    #[verifier::type_invariant]
    closed spec fn inv(&self) -> bool {
        is_valid_date(self.year as int, self.month as int, self.day as int)
    }

    /// The date of the given year, month and day, if there is one.
    pub fn from_ymd(year: u16, month: u8, day: u8) -> (r: Option<Date>)
        ensures
            r is Some <==> is_valid_date(year as int, month as int, day as int),
            r matches Some(d) ==> d.spec_year() == year && d.spec_month() == month && d.spec_day()
                == day,
    {
        if year > 9999 || month < 1 || month > 12 || day < 1 {
            return None;
        }
        let leap = (year % 4 == 0 && year % 100 != 0) || year % 400 == 0;
        let days: u8 = if month == 2 {
            if leap {
                29
            } else {
                28
            }
        } else if month == 4 || month == 6 || month == 9 || month == 11 {
            30
        } else {
            31
        };
        if day > days {
            None
        } else {
            Some(Date { year, month, day })
        }
    }

    /// The year.
    pub fn year(&self) -> (r: u16)
        ensures
            r == self.spec_year(),
            r <= 9999,
    {
        proof {
            use_type_invariant(self);
        }
        self.year
    }

    /// The month, from 1 to 12.
    pub fn month(&self) -> (r: u8)
        ensures
            r == self.spec_month(),
            1 <= r <= 12,
    {
        proof {
            use_type_invariant(self);
        }
        self.month
    }

    /// The day of the month.
    pub fn day(&self) -> (r: u8)
        ensures
            r == self.spec_day(),
            is_valid_date(self.spec_year() as int, self.spec_month() as int, r as int),
    {
        proof {
            use_type_invariant(self);
        }
        self.day
    }

    /// This date as `YYYY-MM-DD`.
    pub fn format(&self) -> (r: String)
        ensures
            r@ == date_text(*self),
    {
        let year = padded_string(self.year as u64, 4);
        let month = padded_string(self.month as u64, 2);
        let day = padded_string(self.day as u64, 2);
        year.concat("-").concat(month.as_str()).concat("-").concat(day.as_str())
    }
}

/// A date as `YYYY-MM-DD`.
pub open spec fn date_text(d: Date) -> Seq<char> {
    padded(d.spec_year() as nat, 4) + "-"@ + padded(d.spec_month() as nat, 2) + "-"@ + padded(
        d.spec_day() as nat,
        2,
    )
}

/// A GET request to be made to the
/// `/v2/aggs/ticker/<symbol>/range/<multiplier>/<span>/<start>/<end>`
/// endpoint.
#[derive(Clone, Debug, PartialEq)]
pub struct AggregateReq {
    /// The ticker symbol to request aggregated data for.
    pub symbol: String,
    /// The aggregated time span.
    pub time_span: TimeSpan,
    /// The time span multiplier to use.
    pub multiplier: u8,
    /// The start date to request aggregates for.
    pub start_date: Date,
    /// The end date to request aggregates for.
    ///
    /// Note that the reported aggregates will include this date, i.e., the
    /// range is inclusive of this end date.
    pub end_date: Date,
}

/// An aggregate as returned by the
/// `/v2/aggs/ticker/<symbol>/range/<multiplier>/<span>/<start>/<end>`
/// endpoint.
#[derive(Clone, Debug, PartialEq)]
pub struct Aggregate {
    /// The aggregate's timestamp.
    pub timestamp: Timestamp,
    /// The trade volume during the aggregated time frame.
    pub volume: u64,
    /// The open price.
    pub open_price: Num,
    /// The close price.
    pub close_price: Num,
    /// The high price.
    pub high_price: Num,
    /// The low price.
    pub low_price: Num,
}

/// The path of the aggregates endpoint for a request.
pub open spec fn aggregates_path(req: AggregateReq) -> Seq<char> {
    "/v2/aggs/ticker/"@ + req.symbol@ + "/range/"@ + decimal(req.multiplier as nat) + "/"@
        + span_name(req.time_span) + "/"@ + date_text(req.start_date) + "/"@ + date_text(
        req.end_date,
    )
}

/// The path of the aggregates endpoint for a request.
pub fn path(input: &AggregateReq) -> (r: String)
    ensures
        r@ == aggregates_path(*input),
{
    let multiplier = decimal_string(input.multiplier as u64);
    let start = input.start_date.format();
    let end = input.end_date.format();
    let r = String::from_str("/v2/aggs/ticker/").concat(input.symbol.as_str()).concat(
        "/range/",
    ).concat(multiplier.as_str()).concat("/").concat(input.time_span.as_ref()).concat("/").concat(
        start.as_str(),
    ).concat("/").concat(end.as_str());
    assert(r@ =~= aggregates_path(*input));
    r
}

} // verus!
