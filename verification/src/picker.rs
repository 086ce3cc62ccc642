//! Date and time pickers: what a picker reports after typing, and the text
//! of its value and bounds.
//!
//! Dates and times are held by their fields. Reading and writing them as
//! text is the calendar library's work; its results are named here, and the
//! pickers' rules are stated over those names.

use vstd::prelude::*;
use crate::text::optional_view;

verus! {

/// A calendar date.
#[derive(PartialEq, Eq, Structural, Clone, Copy, Debug)]
pub struct CosmoDate {
    pub year: i32,
    pub month: u32,
    pub day: u32,
}

/// A time of day.
#[derive(PartialEq, Eq, Structural, Clone, Copy, Debug)]
pub struct CosmoTime {
    pub hour: u32,
    pub minute: u32,
    pub second: u32,
    pub nanosecond: u32,
}

/// A date and a time of day, without a time zone.
#[derive(PartialEq, Eq, Structural, Clone, Copy, Debug)]
pub struct CosmoDateTime {
    pub date: CosmoDate,
    pub time: CosmoTime,
}

impl CosmoDate {
    /// The month and the day are in the range of a calendar.
    pub open spec fn wf(self) -> bool {
        1 <= self.month <= 12 && 1 <= self.day <= 31
    }
}

impl CosmoTime {
    /// The fields are in the range of a clock; a leap second counts in the
    /// nanoseconds.
    pub open spec fn wf(self) -> bool {
        self.hour <= 23 && self.minute <= 59 && self.second <= 59 && self.nanosecond
            < 2_000_000_000
    }
}

impl CosmoDateTime {
    /// Both parts are in range.
    pub open spec fn wf(self) -> bool {
        self.date.wf() && self.time.wf()
    }
}

/// The year, month and day that `chrono::NaiveDate::parse_from_str` reads
/// from text in the format `%F`, or nothing where it fails.
pub uninterp spec fn chrono_parse_date(text: Seq<char>) -> Option<(i32, u32, u32)>;

/// The hour, minute, second and nanosecond that
/// `chrono::NaiveTime::parse_from_str` reads from text in the format `%R`, or
/// nothing where it fails.
pub uninterp spec fn chrono_parse_time(text: Seq<char>) -> Option<(u32, u32, u32, u32)>;

/// The fields that `chrono::NaiveDateTime::parse_from_str` reads from text in
/// the format `%FT%R`, or nothing where it fails.
pub uninterp spec fn chrono_parse_date_time(text: Seq<char>) -> Option<
    ((i32, u32, u32), (u32, u32, u32, u32)),
>;

/// What `chrono::NaiveDate::format` writes in the format `%F` for the date
/// with these fields, or nothing where there is no such date.
pub uninterp spec fn chrono_format_date(year: i32, month: u32, day: u32) -> Option<Seq<char>>;

/// What `chrono::NaiveTime::format` writes in the format `%R` for the time
/// with these fields, or nothing where there is no such time.
pub uninterp spec fn chrono_format_time(hour: u32, minute: u32, second: u32, nanosecond: u32) -> Option<
    Seq<char>,
>;

/// What `chrono::NaiveDateTime::format` writes in the format `%FT%R` for the
/// date and time with these fields, or nothing where there is no such date
/// or time.
pub uninterp spec fn chrono_format_date_time(
    date: (i32, u32, u32),
    time: (u32, u32, u32, u32),
) -> Option<Seq<char>>;

/// Calls `chrono::NaiveDate::parse_from_str` with the format `%F` and takes
/// the date apart with `Datelike::year`, `month` and `day`. The contract
/// names the result and claims the ranges that the getters document: a month
/// from 1 to 12 and a day from 1 to 31.
#[verifier::external_body]
fn parse_date(text: &str) -> (parts: Option<(i32, u32, u32)>)
    ensures
        parts == chrono_parse_date(text@),
        parts matches Some(read) ==> 1 <= read.1 <= 12 && 1 <= read.2 <= 31,
{
    match chrono::NaiveDate::parse_from_str(text, "%F") {
        Ok(date) => Some(
            (
                chrono::Datelike::year(&date),
                chrono::Datelike::month(&date),
                chrono::Datelike::day(&date),
            ),
        ),
        Err(_) => None,
    }
}

/// Calls `chrono::NaiveTime::parse_from_str` with the format `%R` and takes
/// the time apart with `Timelike::hour`, `minute`, `second` and
/// `nanosecond`. The contract names the result and claims the ranges that
/// the getters document.
#[verifier::external_body]
fn parse_time(text: &str) -> (parts: Option<(u32, u32, u32, u32)>)
    ensures
        parts == chrono_parse_time(text@),
        parts matches Some(read) ==> read.0 <= 23 && read.1 <= 59 && read.2 <= 59 && read.3
            < 2_000_000_000,
{
    match chrono::NaiveTime::parse_from_str(text, "%R") {
        Ok(time) => Some(
            (
                chrono::Timelike::hour(&time),
                chrono::Timelike::minute(&time),
                chrono::Timelike::second(&time),
                chrono::Timelike::nanosecond(&time),
            ),
        ),
        Err(_) => None,
    }
}

/// Calls `chrono::NaiveDateTime::parse_from_str` with the format `%FT%R` and
/// takes the result apart with the getters of `Datelike` and `Timelike`. The
/// contract names the result and claims the ranges that the getters
/// document.
#[verifier::external_body]
fn parse_date_time(text: &str) -> (parts: Option<((i32, u32, u32), (u32, u32, u32, u32))>)
    ensures
        parts == chrono_parse_date_time(text@),
        parts matches Some(read) ==> 1 <= read.0.1 <= 12 && 1 <= read.0.2 <= 31 && read.1.0 <= 23
            && read.1.1 <= 59 && read.1.2 <= 59 && read.1.3 < 2_000_000_000,
{
    match chrono::NaiveDateTime::parse_from_str(text, "%FT%R") {
        Ok(at) => Some(
            (
                (chrono::Datelike::year(&at), chrono::Datelike::month(&at), chrono::Datelike::day(&at)),
                (
                    chrono::Timelike::hour(&at),
                    chrono::Timelike::minute(&at),
                    chrono::Timelike::second(&at),
                    chrono::Timelike::nanosecond(&at),
                ),
            ),
        ),
        Err(_) => None,
    }
}

/// Builds the date with `chrono::NaiveDate::from_ymd_opt` and writes it with
/// `NaiveDate::format` in the format `%F`. The contract names the text, and
/// nothing where the fields are no date.
#[verifier::external_body]
fn format_date(year: i32, month: u32, day: u32) -> (text: Option<String>)
    ensures
        optional_view(text) == chrono_format_date(year, month, day),
{
    match chrono::NaiveDate::from_ymd_opt(year, month, day) {
        Some(date) => Some(date.format("%F").to_string()),
        None => None,
    }
}

/// Builds the time with `chrono::NaiveTime::from_hms_nano_opt` and writes it
/// with `NaiveTime::format` in the format `%R`. The contract names the text,
/// and nothing where the fields are no time.
#[verifier::external_body]
fn format_time(hour: u32, minute: u32, second: u32, nanosecond: u32) -> (text: Option<String>)
    ensures
        optional_view(text) == chrono_format_time(hour, minute, second, nanosecond),
{
    match chrono::NaiveTime::from_hms_nano_opt(hour, minute, second, nanosecond) {
        Some(time) => Some(time.format("%R").to_string()),
        None => None,
    }
}

/// Builds the date with `chrono::NaiveDate::from_ymd_opt`, the time with
/// `chrono::NaiveTime::from_hms_nano_opt`, joins them with
/// `NaiveDateTime::new` and writes the result with `NaiveDateTime::format` in
/// the format `%FT%R`. The contract names the text, and nothing where the
/// fields are no date or no time.
#[verifier::external_body]
fn format_date_time(date: (i32, u32, u32), time: (u32, u32, u32, u32)) -> (text: Option<String>)
    ensures
        optional_view(text) == chrono_format_date_time(date, time),
{
    match (
        chrono::NaiveDate::from_ymd_opt(date.0, date.1, date.2),
        chrono::NaiveTime::from_hms_nano_opt(time.0, time.1, time.2, time.3),
    ) {
        (Some(day), Some(clock)) => Some(
            chrono::NaiveDateTime::new(day, clock).format("%FT%R").to_string(),
        ),
        _ => None,
    }
}

/// The date with the given fields.
pub open spec fn date_of(parts: (i32, u32, u32)) -> CosmoDate {
    CosmoDate { year: parts.0, month: parts.1, day: parts.2 }
}

/// The time with the given fields.
pub open spec fn time_of(parts: (u32, u32, u32, u32)) -> CosmoTime {
    CosmoTime { hour: parts.0, minute: parts.1, second: parts.2, nanosecond: parts.3 }
}

/// The value a picker reports, given what reading the typed text gave: the
/// value read, or the previous value if nothing could be read.
pub fn value_or_previous<T>(read: Option<T>, previous: T) -> (value: T)
    ensures
        value == match read {
            Some(fresh) => fresh,
            None => previous,
        },
{
    match read {
        Some(fresh) => fresh,
        None => previous,
    }
}

/// Reads a date in the form `2001-07-08`.
pub fn read_date(typed: &str) -> (date: Option<CosmoDate>)
    ensures
        date == match chrono_parse_date(typed@) {
            Some(parts) => Some(date_of(parts)),
            None => None,
        },
        date matches Some(read) ==> read.wf(),
{
    match parse_date(typed) {
        Some(parts) => Some(CosmoDate { year: parts.0, month: parts.1, day: parts.2 }),
        None => None,
    }
}

/// Reads a time in the form `00:34`.
pub fn read_time(typed: &str) -> (time: Option<CosmoTime>)
    ensures
        time == match chrono_parse_time(typed@) {
            Some(parts) => Some(time_of(parts)),
            None => None,
        },
        time matches Some(read) ==> read.wf(),
{
    match parse_time(typed) {
        Some(parts) => Some(
            CosmoTime { hour: parts.0, minute: parts.1, second: parts.2, nanosecond: parts.3 },
        ),
        None => None,
    }
}

/// Reads a date and time in the form `2001-07-08T00:34`.
pub fn read_date_time(typed: &str) -> (at: Option<CosmoDateTime>)
    ensures
        at == match chrono_parse_date_time(typed@) {
            Some(parts) => Some(CosmoDateTime { date: date_of(parts.0), time: time_of(parts.1) }),
            None => None,
        },
        at matches Some(read) ==> read.wf(),
{
    match parse_date_time(typed) {
        Some(parts) => Some(
            CosmoDateTime {
                date: CosmoDate { year: parts.0.0, month: parts.0.1, day: parts.0.2 },
                time: CosmoTime {
                    hour: parts.1.0,
                    minute: parts.1.1,
                    second: parts.1.2,
                    nanosecond: parts.1.3,
                },
            },
        ),
        None => None,
    }
}

/// A date as the text of a date field, or nothing if the fields are no
/// date.
pub fn write_date(date: CosmoDate) -> (text: Option<String>)
    ensures
        optional_view(text) == chrono_format_date(date.year, date.month, date.day),
{
    format_date(date.year, date.month, date.day)
}

/// A time as the text of a time field, or nothing if the fields are no
/// time.
pub fn write_time(time: CosmoTime) -> (text: Option<String>)
    ensures
        optional_view(text) == chrono_format_time(
            time.hour,
            time.minute,
            time.second,
            time.nanosecond,
        ),
{
    format_time(time.hour, time.minute, time.second, time.nanosecond)
}

/// A date and time as the text of a date-time field, or nothing if the
/// fields are no date or no time.
pub fn write_date_time(at: CosmoDateTime) -> (text: Option<String>)
    ensures
        optional_view(text) == spec_write_date_time(at),
{
    format_date_time(
        (at.date.year, at.date.month, at.date.day),
        (at.time.hour, at.time.minute, at.time.second, at.time.nanosecond),
    )
}

/// The text of a date and time.
pub open spec fn spec_write_date_time(at: CosmoDateTime) -> Option<Seq<char>> {
    chrono_format_date_time(
        (at.date.year, at.date.month, at.date.day),
        (at.time.hour, at.time.minute, at.time.second, at.time.nanosecond),
    )
}

/// The text of an optional date: nothing for no date.
pub open spec fn spec_write_optional_date(date: Option<CosmoDate>) -> Option<Seq<char>> {
    match date {
        Some(given) => chrono_format_date(given.year, given.month, given.day),
        None => None,
    }
}

/// The text of an optional time: nothing for no time.
pub open spec fn spec_write_optional_time(time: Option<CosmoTime>) -> Option<Seq<char>> {
    match time {
        Some(given) => chrono_format_time(given.hour, given.minute, given.second, given.nanosecond),
        None => None,
    }
}

/// The text of an optional date and time: nothing for none.
pub open spec fn spec_write_optional_date_time(at: Option<CosmoDateTime>) -> Option<Seq<char>> {
    match at {
        Some(given) => spec_write_date_time(given),
        None => None,
    }
}

/// The three texts a picker draws with: its value and its bounds.
#[derive(PartialEq, Eq, Debug)]
pub struct CosmoPickerView {
    pub value: Option<String>,
    pub min: Option<String>,
    pub max: Option<String>,
}

/// What a date picker reads from its owner.
#[derive(PartialEq, Eq, Structural, Clone, Copy, Debug)]
pub struct CosmoDatePickerProps {
    pub value: CosmoDate,
    pub min: Option<CosmoDate>,
    pub max: Option<CosmoDate>,
}

/// What a time picker reads from its owner.
#[derive(PartialEq, Eq, Structural, Clone, Copy, Debug)]
pub struct CosmoTimePickerProps {
    pub value: CosmoTime,
    pub min: Option<CosmoTime>,
    pub max: Option<CosmoTime>,
}

/// What a date-time picker reads from its owner.
#[derive(PartialEq, Eq, Structural, Clone, Copy, Debug)]
pub struct CosmoDateTimePickerProps {
    pub value: CosmoDateTime,
    pub min: Option<CosmoDateTime>,
    pub max: Option<CosmoDateTime>,
}

/// Draws a date picker: the value as text, and each bound that the owner
/// gave as text.
pub fn date_picker(props: &CosmoDatePickerProps) -> (view: CosmoPickerView)
    ensures
        optional_view(view.value) == spec_write_optional_date(Some(props.value)),
        optional_view(view.min) == spec_write_optional_date(props.min),
        optional_view(view.max) == spec_write_optional_date(props.max),
{
    let min = match props.min {
        Some(bound) => write_date(bound),
        None => None,
    };
    let max = match props.max {
        Some(bound) => write_date(bound),
        None => None,
    };
    CosmoPickerView { value: write_date(props.value), min, max }
}

/// Draws a time picker: the value as text, and each bound that the owner
/// gave as text.
pub fn time_picker(props: &CosmoTimePickerProps) -> (view: CosmoPickerView)
    ensures
        optional_view(view.value) == spec_write_optional_time(Some(props.value)),
        optional_view(view.min) == spec_write_optional_time(props.min),
        optional_view(view.max) == spec_write_optional_time(props.max),
{
    let min = match props.min {
        Some(bound) => write_time(bound),
        None => None,
    };
    let max = match props.max {
        Some(bound) => write_time(bound),
        None => None,
    };
    CosmoPickerView { value: write_time(props.value), min, max }
}

/// Draws a date-time picker: the value as text, and each bound that the
/// owner gave as text.
pub fn date_time_picker(props: &CosmoDateTimePickerProps) -> (view: CosmoPickerView)
    ensures
        optional_view(view.value) == spec_write_optional_date_time(Some(props.value)),
        optional_view(view.min) == spec_write_optional_date_time(props.min),
        optional_view(view.max) == spec_write_optional_date_time(props.max),
{
    let min = match props.min {
        Some(bound) => write_date_time(bound),
        None => None,
    };
    let max = match props.max {
        Some(bound) => write_date_time(bound),
        None => None,
    };
    CosmoPickerView { value: write_date_time(props.value), min, max }
}

/// The date a date picker reports after typing: the date typed, or the
/// previous value if what was typed is no date.
pub fn date_picker_input(typed: &str, previous: CosmoDate) -> (value: CosmoDate)
    ensures
        value == match chrono_parse_date(typed@) {
            Some(parts) => date_of(parts),
            None => previous,
        },
        previous.wf() ==> value.wf(),
{
    value_or_previous(read_date(typed), previous)
}

/// The time a time picker reports after typing: the time typed, or the
/// previous value if what was typed is no time.
pub fn time_picker_input(typed: &str, previous: CosmoTime) -> (value: CosmoTime)
    ensures
        value == match chrono_parse_time(typed@) {
            Some(parts) => time_of(parts),
            None => previous,
        },
        previous.wf() ==> value.wf(),
{
    value_or_previous(read_time(typed), previous)
}

/// What a date-time picker reports after typing: the date and time typed, or
/// nothing, in which case its owner is not told, if what was typed is no
/// date and time.
pub fn date_time_picker_input(typed: &str) -> (value: Option<CosmoDateTime>)
    ensures
        value == match chrono_parse_date_time(typed@) {
            Some(parts) => Some(CosmoDateTime { date: date_of(parts.0), time: time_of(parts.1) }),
            None => None,
        },
        value matches Some(read) ==> read.wf(),
{
    read_date_time(typed)
}

} // verus!
