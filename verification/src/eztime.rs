use vstd::prelude::*;
use vstd::string::StringExecFns;

use chrono::{Datelike, Timelike};

use crate::error::ContractError;

verus! {

/// A denormalized calendar record derived from an absolute timestamp:
/// all fields are UTC; a decoded record has month 1..=12.
#[derive(Clone, Copy, Debug, PartialEq, Eq, Structural)]
pub struct EzTimeStruct {
    pub year: u32,
    pub month: u32,
    pub day: u32,
    pub hour: u32,
    pub minute: u32,
    pub second: u32,
}

impl EzTimeStruct {
    /// The field ranges of a decoded record: month 1..=12, day 1..=31,
    /// hour below 24, minute and second below 60.
    pub open spec fn wf(self) -> bool {
        &&& 1 <= self.month <= 12
        &&& 1 <= self.day <= 31
        &&& self.hour < 24
        &&& self.minute < 60
        &&& self.second < 60
    }
}

/// An absolute point in time: non-leap nanoseconds since the epoch, UTC.
#[derive(Clone, Copy, Debug, PartialEq, Eq, Structural)]
pub struct Timestamp {
    pub nanos: u64,
}

/// The calendar decomposition (year, month, day, hour, minute, second) that
/// the date library assigns to a timestamp, or `None` when the timestamp
/// falls outside its representable range.
pub uninterp spec fn civil_of(seconds: u64, nanos: u32) -> Option<(u32, u32, u32, u32, u32, u32)>;

/// Relies on `chrono::DateTime::from_timestamp` (proleptic Gregorian
/// calendar, UTC) and the `Datelike`/`Timelike` accessors; the seconds value
/// is narrowed to the library's signed argument with a wrapping cast (the
/// public calendar functions reject values that would wrap before calling
/// this), and the year widened back with one. The field bounds are chrono's
/// documented accessor ranges, and the six fields depend on the whole
/// seconds alone, so a sub-second remainder below one second leaves the
/// decomposition unchanged.
#[verifier::external_body]
fn civil_from_timestamp(seconds: u64, nanos: u32) -> (r: Option<(u32, u32, u32, u32, u32, u32)>)
    ensures
        r == civil_of(seconds, nanos),
        r matches Some(t) ==> (1 <= t.1 <= 12 && 1 <= t.2 <= 31 && t.3 < 24 && t.4 < 60 && t.5
            < 60),
        nanos < 1_000_000_000 ==> r == civil_of(seconds, 0),
{
    match chrono::DateTime::from_timestamp(seconds as i64, nanos) {
        Some(dt) => Some(
            (dt.year() as u32, dt.month(), dt.day(), dt.hour(), dt.minute(), dt.second()),
        ),
        None => None,
    }
}

/// The digit character for one decimal digit.
pub open spec fn digit_char(d: nat) -> char {
    if d == 0 {
        '0'
    } else if d == 1 {
        '1'
    } else if d == 2 {
        '2'
    } else if d == 3 {
        '3'
    } else if d == 4 {
        '4'
    } else if d == 5 {
        '5'
    } else if d == 6 {
        '6'
    } else if d == 7 {
        '7'
    } else if d == 8 {
        '8'
    } else {
        '9'
    }
}

/// The decimal rendering of a number, most significant digit first, with no
/// zero-padding.
pub open spec fn dec_digits(n: nat) -> Seq<char>
    decreases n,
{
    if n < 10 {
        seq![digit_char(n)]
    } else {
        dec_digits(n / 10).push(digit_char(n % 10))
    }
}

/// The full English month name for a month number 1..=12; empty otherwise.
pub open spec fn month_name(m: int) -> Seq<char> {
    if m == 1 {
        "January"@
    } else if m == 2 {
        "February"@
    } else if m == 3 {
        "March"@
    } else if m == 4 {
        "April"@
    } else if m == 5 {
        "May"@
    } else if m == 6 {
        "June"@
    } else if m == 7 {
        "July"@
    } else if m == 8 {
        "August"@
    } else if m == 9 {
        "September"@
    } else if m == 10 {
        "October"@
    } else if m == 11 {
        "November"@
    } else if m == 12 {
        "December"@
    } else {
        Seq::empty()
    }
}

/// The locale-style rendering of a calendar record:
/// `<Month> <Day>, <Year> | <Hour>:<Minute>:<Second> UTC`, 24-hour
/// numbering, no zero-padding.
pub open spec fn display_of(e: EzTimeStruct) -> Seq<char> {
    month_name(e.month as int) + " "@ + dec_digits(e.day as nat) + ", "@ + dec_digits(
        e.year as nat,
    ) + " | "@ + dec_digits(e.hour as nat) + ":"@ + dec_digits(e.minute as nat) + ":"@
        + dec_digits(e.second as nat) + " UTC"@
}

/// The calendar record owed for a timestamp, when the date library can
/// represent it.
pub open spec fn struct_of_civil(t: (u32, u32, u32, u32, u32, u32)) -> EzTimeStruct {
    EzTimeStruct { year: t.0, month: t.1, day: t.2, hour: t.3, minute: t.4, second: t.5 }
}

/// The result owed by `eztime_struct`, over the named calendar
/// decomposition: seconds values above the date library's signed argument
/// range are out of range outright, never wrapped into it.
pub open spec fn calendar_of(seconds: u64, nanos: u32) -> Option<EzTimeStruct> {
    if seconds > i64::MAX as u64 {
        None
    } else {
        match civil_of(seconds, nanos) {
            Some(t) => Some(struct_of_civil(t)),
            None => None,
        }
    }
}

/// The result owed by `eztime_string`: the rendering of the calendar record.
pub open spec fn display_string_of(seconds: u64, nanos: u32) -> Option<Seq<char>> {
    match calendar_of(seconds, nanos) {
        Some(e) => Some(display_of(e)),
        None => None,
    }
}

/// Law: the calendar record and the display string agree: both succeed on
/// exactly the same timestamps, and the string renders exactly the fields of
/// the record.
pub proof fn lemma_calendar_display_agree(seconds: u64, nanos: u32)
    ensures
        calendar_of(seconds, nanos) is Some <==> display_string_of(seconds, nanos) is Some,
        calendar_of(seconds, nanos) matches Some(e) ==> display_string_of(seconds, nanos) == Some(
            display_of(e),
        ),
{
}

fn push_digit(s: &mut String, d: u32)
    requires
        d < 10,
    ensures
        final (s)@ == old(s)@.push(digit_char(d as nat)),
{
    if d == 0 {
        proof {
            reveal_strlit("0");
        }
        s.append("0");
    } else if d == 1 {
        proof {
            reveal_strlit("1");
        }
        s.append("1");
    } else if d == 2 {
        proof {
            reveal_strlit("2");
        }
        s.append("2");
    } else if d == 3 {
        proof {
            reveal_strlit("3");
        }
        s.append("3");
    } else if d == 4 {
        proof {
            reveal_strlit("4");
        }
        s.append("4");
    } else if d == 5 {
        proof {
            reveal_strlit("5");
        }
        s.append("5");
    } else if d == 6 {
        proof {
            reveal_strlit("6");
        }
        s.append("6");
    } else if d == 7 {
        proof {
            reveal_strlit("7");
        }
        s.append("7");
    } else if d == 8 {
        proof {
            reveal_strlit("8");
        }
        s.append("8");
    } else {
        proof {
            reveal_strlit("9");
        }
        s.append("9");
    }
    proof {
        assert(s@ =~= old(s)@.push(digit_char(d as nat)));
    }
}

/// Renders a number in decimal, most significant digit first.
pub fn u32_dec(n: u32) -> (s: String)
    ensures
        s@ == dec_digits(n as nat),
    decreases n,
{
    if n < 10 {
        let mut s = String::new();
        push_digit(&mut s, n);
        proof {
            assert(s@ =~= dec_digits(n as nat));
        }
        s
    } else {
        let mut s = u32_dec(n / 10);
        push_digit(&mut s, n % 10);
        proof {
            assert(s@ =~= dec_digits(n as nat));
        }
        s
    }
}

fn month_name_str(m: u32) -> (s: &'static str)
    requires
        1 <= m <= 12,
    ensures
        s@ == month_name(m as int),
{
    if m == 1 {
        "January"
    } else if m == 2 {
        "February"
    } else if m == 3 {
        "March"
    } else if m == 4 {
        "April"
    } else if m == 5 {
        "May"
    } else if m == 6 {
        "June"
    } else if m == 7 {
        "July"
    } else if m == 8 {
        "August"
    } else if m == 9 {
        "September"
    } else if m == 10 {
        "October"
    } else if m == 11 {
        "November"
    } else {
        "December"
    }
}

/// Renders a calendar record in the display form
/// `<Month> <Day>, <Year> | <Hour>:<Minute>:<Second> UTC`.
pub fn render_display(e: &EzTimeStruct) -> (s: String)
    requires
        1 <= e.month <= 12,
    ensures
        s@ == display_of(*e),
{
    let mut s = String::from_str(month_name_str(e.month));
    s.append(" ");
    let day_s = u32_dec(e.day);
    s.append(day_s.as_str());
    s.append(", ");
    let year_s = u32_dec(e.year);
    s.append(year_s.as_str());
    s.append(" | ");
    let hour_s = u32_dec(e.hour);
    s.append(hour_s.as_str());
    s.append(":");
    let minute_s = u32_dec(e.minute);
    s.append(minute_s.as_str());
    s.append(":");
    let second_s = u32_dec(e.second);
    s.append(second_s.as_str());
    s.append(" UTC");
    proof {
        assert(s@ =~= display_of(*e));
    }
    s
}

fn invalid_timestamp() -> (e: ContractError)
    ensures
        e matches ContractError::EncodingOrCalendar { msg } && msg@ == "Invalid Timestamp"@,
{
    ContractError::EncodingOrCalendar { msg: String::from_str("Invalid Timestamp") }
}

/// Decomposes an absolute time, given as whole seconds since the epoch and
/// a sub-second nanosecond remainder, into a calendar record; fails on a
/// time the date library cannot represent, seconds beyond its signed
/// argument range included. Sub-second precision is truncated: any remainder
/// below one second yields the record of the whole second.
pub fn to_calendar(seconds: u64, nanos: u32) -> (r: Result<EzTimeStruct, ContractError>)
    ensures
        match calendar_of(seconds, nanos) {
            Some(e) => r matches Ok(v) && v == e,
            None => (r matches Err(err) && err matches ContractError::EncodingOrCalendar { msg }
                && msg@ == "Invalid Timestamp"@),
        },
        r matches Ok(v) ==> v.wf(),
        nanos < 1_000_000_000 ==> calendar_of(seconds, nanos) == calendar_of(seconds, 0),
{
    if seconds > i64::MAX as u64 {
        return Err(invalid_timestamp());
    }
    match civil_from_timestamp(seconds, nanos) {
        Some(t) => Ok(
            EzTimeStruct { year: t.0, month: t.1, day: t.2, hour: t.3, minute: t.4, second: t.5 },
        ),
        None => Err(invalid_timestamp()),
    }
}

/// Renders an absolute time, given as whole seconds since the epoch and a
/// sub-second nanosecond remainder, in the display form
/// `<Month> <Day>, <Year> | <Hour>:<Minute>:<Second> UTC`; fails on a time
/// the date library cannot represent, seconds beyond its signed argument
/// range included.
pub fn to_display_string(seconds: u64, nanos: u32) -> (r: Result<String, ContractError>)
    ensures
        match display_string_of(seconds, nanos) {
            Some(d) => r matches Ok(s) && s@ == d,
            None => (r matches Err(err) && err matches ContractError::EncodingOrCalendar { msg }
                && msg@ == "Invalid Timestamp"@),
        },
        nanos < 1_000_000_000 ==> display_string_of(seconds, nanos) == display_string_of(
            seconds,
            0,
        ),
{
    if seconds > i64::MAX as u64 {
        return Err(invalid_timestamp());
    }
    match civil_from_timestamp(seconds, nanos) {
        Some(t) => {
            let e = EzTimeStruct {
                year: t.0,
                month: t.1,
                day: t.2,
                hour: t.3,
                minute: t.4,
                second: t.5,
            };
            if 1 <= e.month && e.month <= 12 {
                Ok(render_display(&e))
            } else {
                // Unreachable for any decoded record; kept as a defensive
                // guard mirroring the render function's precondition.
                Err(invalid_timestamp())
            }
        },
        None => Err(invalid_timestamp()),
    }
}

/// Conversion of an absolute timestamp into calendar form: a structured
/// record, or a display string.
pub trait EzTime {
    /// The whole seconds since the epoch of this point in time.
    spec fn spec_seconds(&self) -> u64;

    /// The sub-second nanosecond remainder of this point in time.
    spec fn spec_subsec_nanos(&self) -> u32;

    /// Decomposes the timestamp into a calendar record, truncating
    /// sub-second precision; fails on a timestamp the date library cannot
    /// represent.
    fn eztime_struct(&self) -> (r: Result<EzTimeStruct, ContractError>)
        ensures
            match calendar_of(self.spec_seconds(), self.spec_subsec_nanos()) {
                Some(e) => r matches Ok(v) && v == e,
                None => (r matches Err(err) && err matches ContractError::EncodingOrCalendar {
                    msg,
                } && msg@ == "Invalid Timestamp"@),
            },
            r matches Ok(v) ==> v.wf(),
    ;

    /// Renders the timestamp as
    /// `<Month> <Day>, <Year> | <Hour>:<Minute>:<Second> UTC`; fails on a
    /// timestamp the date library cannot represent.
    fn eztime_string(&self) -> (r: Result<String, ContractError>)
        ensures
            match display_string_of(self.spec_seconds(), self.spec_subsec_nanos()) {
                Some(d) => r matches Ok(s) && s@ == d,
                None => (r matches Err(err) && err matches ContractError::EncodingOrCalendar {
                    msg,
                } && msg@ == "Invalid Timestamp"@),
            },
    ;
}

impl Timestamp {
    /// A timestamp from whole seconds since the epoch.
    pub fn from_seconds(seconds: u64) -> (t: Timestamp)
        requires
            seconds <= u64::MAX / 1_000_000_000,
        ensures
            t.nanos == seconds * 1_000_000_000,
    {
        Timestamp { nanos: seconds * 1_000_000_000 }
    }

    /// A timestamp from nanoseconds since the epoch.
    pub fn from_nanos(nanos: u64) -> (t: Timestamp)
        ensures
            t.nanos == nanos,
    {
        Timestamp { nanos }
    }

    /// The whole seconds since the epoch.
    pub fn seconds(&self) -> (s: u64)
        ensures
            s == self.spec_seconds(),
    {
        self.nanos / 1_000_000_000
    }

    /// The sub-second nanosecond remainder.
    pub fn subsec_nanos(&self) -> (n: u32)
        ensures
            n == self.spec_subsec_nanos(),
    {
        (self.nanos % 1_000_000_000) as u32
    }
}

impl EzTime for Timestamp {
    open spec fn spec_seconds(&self) -> u64 {
        self.nanos / 1_000_000_000
    }

    open spec fn spec_subsec_nanos(&self) -> u32 {
        (self.nanos % 1_000_000_000) as u32
    }

    fn eztime_struct(&self) -> (r: Result<EzTimeStruct, ContractError>) {
        to_calendar(self.seconds(), self.subsec_nanos())
    }

    fn eztime_string(&self) -> (r: Result<String, ContractError>) {
        to_display_string(self.seconds(), self.subsec_nanos())
    }
}

} // verus!
