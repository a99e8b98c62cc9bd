use chrono::{Datelike, Offset};
use std::fmt::Write;
use vstd::prelude::*;

use crate::text::{
    concat2, concat3, decimal, decimal_text, owned, plus_decimal, plus_decimal_text,
    signed_decimal, signed_decimal_text, text_eq,
};

verus! {

broadcast use vstd::string::group_string_axioms;

/// The instants chrono can represent, as Unix timestamps in seconds: from
/// -262143-01-01T00:00:00Z to +262142-12-31T23:59:59Z.
pub open spec fn chrono_range(ts: int) -> bool {
    -8334601315200 <= ts <= 8210266876799
}

/// Whether chrono-tz knows a time zone of this name (`Tz::from_str` succeeds).
pub uninterp spec fn timezone_known(name: Seq<char>) -> bool;

/// The UTC offset in seconds that chrono-tz gives the zone `name` at instant `now`.
pub uninterp spec fn zone_offset(name: Seq<char>, now: i64) -> i32;

/// chrono's `Utc::now`, as a Unix timestamp in seconds. The reading is not promised, only
/// that it lies in chrono's range, as every `DateTime<Utc>` does.
#[verifier::external_body]
pub(crate) fn clock_now() -> (r: i64)
    ensures
        chrono_range(r as int),
{
    chrono::Utc::now().timestamp()
}

/// chrono-tz's `Tz::from_str`: whether the name parses; named by `timezone_known`.
#[verifier::external_body]
pub(crate) fn is_known_timezone(name: &str) -> (r: bool)
    ensures
        r == timezone_known(name@),
{
    name.parse::<chrono_tz::Tz>().is_ok()
}

/// The UTC offset chrono-tz gives zone `name` at instant `now`
/// (`DateTime::with_timezone`, then the offset's `local_minus_utc`); named by `zone_offset`.
#[verifier::external_body]
pub(crate) fn utc_offset_seconds(name: &str, now: i64) -> (r: i32)
    requires
        timezone_known(name@),
        chrono_range(now as int),
    ensures
        r == zone_offset(name@, now),
{
    let tz: chrono_tz::Tz = name.parse().unwrap();
    let utc = chrono::DateTime::from_timestamp(now, 0).unwrap();
    utc.with_timezone(&tz).offset().fix().local_minus_utc()
}

/// The text chrono writes for instant `ts` with format `format`, shown in UTC (`in_zone`
/// false) or in chrono-tz's zone `zone`; nothing when the instant is outside chrono's range,
/// the zone is unknown, or the format holds an item chrono cannot write.
pub uninterp spec fn instant_text(ts: i64, zone: Seq<char>, in_zone: bool, format: Seq<char>) -> Option<
    Seq<char>,
>;

/// The formats the library writes instants with on its own; each is made only of date, time,
/// zone-name and offset items (`%Y`, `%m`, `%d`, `%H`, `%M`, `%S`, `%Z`, `%:z`) and literal
/// text. The last is RFC 3339 at whole seconds.
pub open spec fn plain_format(format: Seq<char>) -> bool {
    ||| format == "%Y-%m-%d"@
    ||| format == "%Y-%m-%d %H:%M"@
    ||| format == "%Y-%m-%dT%H:%M"@
    ||| format == "%Y-%m-%d %H:%M UTC"@
    ||| format == "%Y-%m-%d %H:%M:%S"@
    ||| format == "%Z"@
    ||| format == rfc3339_format()
}

/// The chrono format of RFC 3339 at whole seconds (`2024-01-15T07:00:00-05:00`), the
/// default in which the current time is written.
pub open spec fn rfc3339_format() -> Seq<char> {
    "%Y-%m-%dT%H:%M:%S%:z"@
}

/// chrono's `DateTime::from_timestamp`, then (in a zone) `with_timezone`, then `format`,
/// written out; the text is named by `instant_text`. `from_timestamp` gives an instant for
/// every timestamp in chrono's range, a known zone parses, and an instant is always written
/// with a format made only of date, time, zone-name and offset items, so there the text is
/// present.
#[verifier::external_body]
pub(crate) fn write_instant(ts: i64, zone: &str, in_zone: bool, format: &str) -> (r: Option<String>)
    ensures
        match r {
            Some(s) => instant_text(ts, zone@, in_zone, format@) == Some(s@),
            None => instant_text(ts, zone@, in_zone, format@) is None,
        },
        chrono_range(ts as int) && (in_zone ==> timezone_known(zone@)) && plain_format(format@)
            ==> r is Some,
{
    let utc = chrono::DateTime::from_timestamp(ts, 0)?;
    let mut s = String::new();
    let written = if in_zone {
        let tz: chrono_tz::Tz = zone.parse().ok()?;
        write!(s, "{}", utc.with_timezone(&tz).format(format))
    } else {
        write!(s, "{}", utc.format(format))
    };
    match written {
        Ok(()) => Some(s),
        Err(_) => None,
    }
}

/// What chrono's `DateTime::parse_from_rfc3339` makes of `text`: the Unix timestamp (in
/// seconds) of the instant read, or the text of its parse error.
pub uninterp spec fn rfc3339_reading(text: Seq<char>) -> Result<i64, Seq<char>>;

/// chrono's `DateTime::parse_from_rfc3339`, taken as the Unix timestamp of the instant read or
/// the text of the parse error; the outcome is named by `rfc3339_reading`. An instant read
/// lies in chrono's range, as every `DateTime` does.
#[verifier::external_body]
pub(crate) fn parse_rfc3339(text: &str) -> (r: Result<i64, String>)
    ensures
        match r {
            Ok(t) => rfc3339_reading(text@) == Ok::<i64, Seq<char>>(t) && chrono_range(t as int),
            Err(e) => rfc3339_reading(text@) == Err::<i64, Seq<char>>(e@),
        },
{
    match chrono::DateTime::parse_from_rfc3339(text) {
        Ok(dt) => Ok(dt.timestamp()),
        Err(e) => Err(e.to_string()),
    }
}

/// A time argument that could not be read: the refusal, and chrono's words on it.
#[derive(Debug)]
pub struct InvalidTime {
    pub message: String,
    pub detail: String,
}

/// Why a date/time request failed.
#[derive(Debug)]
pub enum DateTimeServiceError {
    InvalidTimezone(String),
    ParseError(String),
}

/// The text of a date/time error, as its `Display` reads.
pub open spec fn datetime_error_text(e: DateTimeServiceError) -> Seq<char> {
    match e {
        DateTimeServiceError::InvalidTimezone(m) => "Invalid timezone: "@ + m@,
        DateTimeServiceError::ParseError(m) => "Parse error: "@ + m@,
    }
}

impl DateTimeServiceError {
    /// The HTTP status with which the date/time routes answer this error.
    pub fn http_status(&self) -> (r: u16)
        ensures
            self is InvalidTimezone ==> r == 400,
            !(self is InvalidTimezone) ==> r == 500,
    {
        match self {
            DateTimeServiceError::InvalidTimezone(_) => 400,
            _ => 500,
        }
    }

    /// The text of the error.
    pub fn message(&self) -> (r: String)
        ensures
            r@ == datetime_error_text(*self),
    {
        match self {
            DateTimeServiceError::InvalidTimezone(m) => concat2("Invalid timezone: ", m.as_str()),
            DateTimeServiceError::ParseError(m) => concat2("Parse error: ", m.as_str()),
        }
    }
}

/// The query of the current-time request.
#[derive(Debug)]
pub struct GetDateTimeQuery {
    pub timezone: Option<String>,
    pub format: Option<String>,
}

/// The time zone and format in which the current time is asked for.
#[derive(Debug)]
pub struct DateTimeConfig {
    pub timezone: Option<String>,
    pub format: Option<String>,
}

/// The zone a configuration names: its own, or `UTC`.
pub open spec fn config_zone(c: DateTimeConfig) -> Seq<char> {
    match c.timezone {
        Some(t) => t@,
        None => "UTC"@,
    }
}

/// The format a configuration names: its own, or RFC 3339.
pub open spec fn config_format(c: DateTimeConfig) -> Seq<char> {
    match c.format {
        Some(f) => f@,
        None => rfc3339_format(),
    }
}

impl DateTimeConfig {
    /// A configuration that names neither zone nor format.
    pub fn new() -> (r: Self)
        ensures
            r.timezone is None,
            r.format is None,
    {
        DateTimeConfig { timezone: None, format: None }
    }

    /// The same configuration with zone `timezone`.
    pub fn with_timezone(self, timezone: String) -> (r: Self)
        ensures
            r.timezone == Some(timezone),
            r.format == self.format,
    {
        DateTimeConfig { timezone: Some(timezone), ..self }
    }

    /// The same configuration with format `format`.
    pub fn with_format(self, format: String) -> (r: Self)
        ensures
            r.timezone == self.timezone,
            r.format == Some(format),
    {
        DateTimeConfig { format: Some(format), ..self }
    }

    /// The zone the configuration names, `UTC` by default.
    pub fn timezone(&self) -> (r: &str)
        ensures
            r@ == config_zone(*self),
    {
        match &self.timezone {
            Some(t) => t.as_str(),
            None => "UTC",
        }
    }

    /// The format the configuration names, RFC 3339 by default.
    pub fn format(&self) -> (r: &str)
        ensures
            r@ == config_format(*self),
    {
        match &self.format {
            Some(f) => f.as_str(),
            None => "%Y-%m-%dT%H:%M:%S%:z",
        }
    }
}

impl From<GetDateTimeQuery> for DateTimeConfig {
    fn from(query: GetDateTimeQuery) -> (r: Self) {
        DateTimeConfig { timezone: query.timezone, format: query.format }
    }
}

impl vstd::std_specs::convert::FromSpecImpl<GetDateTimeQuery> for DateTimeConfig {
    open spec fn obeys_from_spec() -> bool {
        true
    }

    open spec fn from_spec(query: GetDateTimeQuery) -> Self {
        DateTimeConfig { timezone: query.timezone, format: query.format }
    }
}

impl Default for DateTimeConfig {
    fn default() -> (r: Self)
        ensures
            r.timezone is None,
            r.format is None,
    {
        Self::new()
    }
}

/// How the current time is to be written: the zone, the chrono format, and the zone's UTC
/// offset at the instant. `zone_formatted` tells whether the time is written in the named
/// zone (true) or in UTC (false).
#[derive(Debug)]
pub struct DateTimePlan {
    pub timezone: String,
    pub format: String,
    pub zone_formatted: bool,
    pub utc_offset: i32,
}

/// Decides how to write the current time `now`: in UTC with offset 0 when the zone is
/// `UTC`, else in the named zone with its offset; an unknown zone is refused with
/// `InvalidTimezone`. Without a format of its own, the time is written in RFC 3339.
pub fn current_datetime_plan(config: &DateTimeConfig, now: i64) -> (r: Result<DateTimePlan, DateTimeServiceError>)
    requires
        chrono_range(now as int),
    ensures
        config_zone(*config) == "UTC"@ ==> (r matches Ok(p) && {
            &&& p.timezone@ == "UTC"@
            &&& p.format@ == config_format(*config)
            &&& !p.zone_formatted
            &&& p.utc_offset == 0
        }),
        config_zone(*config) != "UTC"@ && !timezone_known(config_zone(*config)) ==> (r matches Err(
            DateTimeServiceError::InvalidTimezone(m),
        ) && m@ == "Invalid timezone: "@ + config_zone(*config)
            + ". Examples: UTC, America/New_York, Europe/London"@),
        config_zone(*config) != "UTC"@ && timezone_known(config_zone(*config)) ==> (r matches Ok(p) && {
            &&& p.timezone@ == config_zone(*config)
            &&& p.format@ == config_format(*config)
            &&& p.zone_formatted
            &&& p.utc_offset == zone_offset(config_zone(*config), now)
        }),
{
    let zone = config.timezone();
    if text_eq(zone, "UTC") {
        let format = owned(config.format());
        Ok(DateTimePlan { timezone: owned(zone), format, zone_formatted: false, utc_offset: 0 })
    } else {
        if !is_known_timezone(zone) {
            return Err(
                DateTimeServiceError::InvalidTimezone(
                    concat3(
                        "Invalid timezone: ",
                        zone,
                        ". Examples: UTC, America/New_York, Europe/London",
                    ),
                ),
            );
        }
        let format = owned(config.format());
        let utc_offset = utc_offset_seconds(zone, now);
        Ok(DateTimePlan { timezone: owned(zone), format, zone_formatted: true, utc_offset })
    }
}

/// The ISO week number of the UTC date of instant `ts`, as chrono gives it (`iso_week().week()`).
pub uninterp spec fn iso_week_number(ts: i64) -> u32;

/// The day of the year of the UTC date of instant `ts`, as chrono gives it (`ordinal()`).
pub uninterp spec fn ordinal_day(ts: i64) -> u32;

/// chrono's `iso_week().week()` and `ordinal()` of the UTC instant `ts`; named by
/// `iso_week_number` and `ordinal_day`. chrono documents a week number from 1 to 53 and a
/// day from 1 to 366.
#[verifier::external_body]
pub(crate) fn calendar_position(ts: i64) -> (r: (u32, u32))
    requires
        chrono_range(ts as int),
    ensures
        r.0 == iso_week_number(ts),
        r.1 == ordinal_day(ts),
        1 <= r.0 <= 53,
        1 <= r.1 <= 366,
{
    let utc = chrono::DateTime::from_timestamp(ts, 0).unwrap();
    (utc.iso_week().week(), utc.ordinal())
}

/// The current date and time as the date/time service reports it.
#[derive(Debug)]
pub struct DateTimeResponse {
    pub formatted_time: String,
    pub timezone: String,
    pub unix_timestamp: i64,
    pub iso_week: u32,
    pub day_of_year: u32,
    /// The zone's UTC offset in seconds.
    pub utc_offset: i32,
}

/// The zone in which a plan writes the time: the named zone, or UTC.
pub open spec fn plan_zone(plan: DateTimePlan) -> Seq<char> {
    if plan.zone_formatted {
        plan.timezone@
    } else {
        "UTC"@
    }
}

/// The report of instant `now` written by `plan`; nothing when chrono cannot write the plan's
/// format (where the service fails).
pub fn datetime_response(plan: &DateTimePlan, now: i64) -> (r: Option<DateTimeResponse>)
    requires
        chrono_range(now as int),
    ensures
        match instant_text(now, plan_zone(*plan), plan.zone_formatted, plan.format@) {
            None => r is None,
            Some(t) => r matches Some(resp) && resp.formatted_time@ == t && resp.timezone@
                == plan.timezone@ && resp.unix_timestamp == now && resp.iso_week == iso_week_number(
                now,
            ) && resp.day_of_year == ordinal_day(now) && resp.utc_offset == plan.utc_offset,
        },
        (plan.zone_formatted ==> timezone_known(plan.timezone@)) && plain_format(plan.format@)
            ==> r is Some,
{
    let written = if plan.zone_formatted {
        write_instant(now, plan.timezone.as_str(), true, plan.format.as_str())
    } else {
        write_instant(now, "UTC", false, plan.format.as_str())
    };
    let formatted_time = match written {
        Some(t) => t,
        None => return None,
    };
    let (iso_week, day_of_year) = calendar_position(now);
    Some(
        DateTimeResponse {
            formatted_time,
            timezone: plan.timezone.clone(),
            unix_timestamp: now,
            iso_week,
            day_of_year,
            utc_offset: plan.utc_offset,
        },
    )
}

/// The current date and time at `now` as asked by `query`: an unknown zone is refused; the
/// time is written in the asked format, RFC 3339 by default; a format chrono cannot write
/// gives `Ok(None)` (where the service fails).
pub fn current_datetime(query: GetDateTimeQuery, now: i64) -> (r: Result<
    Option<DateTimeResponse>,
    DateTimeServiceError,
>)
    requires
        chrono_range(now as int),
    ensures
        ({
            let config = DateTimeConfig { timezone: query.timezone, format: query.format };
            let zone = config_zone(config);
            &&& zone != "UTC"@ && !timezone_known(zone) ==> (r matches Err(
                DateTimeServiceError::InvalidTimezone(m),
            ) && m@ == "Invalid timezone: "@ + zone
                + ". Examples: UTC, America/New_York, Europe/London"@)
            &&& readable(zone) ==> ({
                let in_zone = zone != "UTC"@;
                let format = config_format(config);
                &&& (config.format is None ==> (r matches Ok(Some(_))))
                &&& (match instant_text(now, if in_zone { zone } else { "UTC"@ }, in_zone, format) {
                    None => r matches Ok(None),
                    Some(t) => r matches Ok(Some(resp)) && resp.formatted_time@ == t
                        && resp.timezone@ == zone && resp.unix_timestamp == now && resp.iso_week
                        == iso_week_number(now) && resp.day_of_year == ordinal_day(now)
                        && resp.utc_offset == reading_offset(zone, now),
                })
            })
        }),
{
    let config = DateTimeConfig::from(query);
    match current_datetime_plan(&config, now) {
        Ok(plan) => Ok(datetime_response(&plan, now)),
        Err(e) => Err(e),
    }
}

/// What the date/time tool answers for a report.
pub fn datetime_text(resp: &DateTimeResponse) -> (r: String)
    ensures
        r@ == "Current date and time: "@ + resp.formatted_time@ + "\nTimezone: "@ + resp.timezone@
            + "\nUnix timestamp: "@ + signed_decimal(resp.unix_timestamp as int) + "\nISO week: "@
            + decimal(resp.iso_week as nat) + "\nDay of year: "@ + decimal(resp.day_of_year as nat)
            + "\nUTC offset: "@ + plus_decimal(resp.utc_offset as int) + " seconds"@,
{
    let ts = signed_decimal_text(resp.unix_timestamp);
    let week = decimal_text(resp.iso_week as u64);
    let day = decimal_text(resp.day_of_year as u64);
    let offset = plus_decimal_text(resp.utc_offset as i64);
    let mut r = concat2("Current date and time: ", resp.formatted_time.as_str());
    r.append("\nTimezone: ");
    r.append(resp.timezone.as_str());
    r.append("\nUnix timestamp: ");
    r.append(ts.as_str());
    r.append("\nISO week: ");
    r.append(week.as_str());
    r.append("\nDay of year: ");
    r.append(day.as_str());
    r.append("\nUTC offset: ");
    r.append(offset.as_str());
    r.append(" seconds");
    r
}

/// A zone's clock at an instant: its name, UTC offset in seconds, local time
/// (`YYYY-MM-DD HH:MM:SS`) and abbreviation.
#[derive(Debug)]
pub struct ZoneReading {
    pub timezone: String,
    pub utc_offset: i32,
    pub local_time: String,
    pub abbreviation: String,
    /// Whether the zone is `UTC`, which is read without consulting chrono-tz.
    pub is_utc: bool,
}

/// How the target zone's clock stands to the source zone's.
#[derive(Clone, Copy, Debug, PartialEq, Eq, Structural)]
pub enum ZoneRelation {
    Ahead,
    Behind,
    Same,
}

/// The outcome of comparing two zones at one instant.
#[derive(Debug)]
pub struct ZoneComparison {
    pub from: ZoneReading,
    pub to: ZoneReading,
    /// The target's offset minus the source's, in seconds.
    pub difference_seconds: i64,
    pub relation: ZoneRelation,
}

/// The offset of a zone at `now`: 0 for `UTC`, chrono-tz's offset otherwise.
pub open spec fn reading_offset(name: Seq<char>, now: i64) -> int {
    if name == "UTC"@ {
        0
    } else {
        zone_offset(name, now) as int
    }
}

/// The local time of a zone at `now`, as `YYYY-MM-DD HH:MM:SS`.
pub open spec fn reading_time(name: Seq<char>, now: i64) -> Seq<char> {
    if name == "UTC"@ {
        instant_text(now, "UTC"@, false, "%Y-%m-%d %H:%M:%S"@).unwrap()
    } else {
        instant_text(now, name, true, "%Y-%m-%d %H:%M:%S"@).unwrap()
    }
}

/// The abbreviation of a zone at `now`: `UTC` for UTC, chrono-tz's `%Z` otherwise.
pub open spec fn reading_abbreviation(name: Seq<char>, now: i64) -> Seq<char> {
    if name == "UTC"@ {
        "UTC"@
    } else {
        instant_text(now, name, true, "%Z"@).unwrap()
    }
}

/// A zone can be read when it is `UTC` or chrono-tz knows it.
pub open spec fn readable(name: Seq<char>) -> bool {
    name == "UTC"@ || timezone_known(name)
}

fn read_zone(name: &str, now: i64, refusal: &str) -> (r: Result<ZoneReading, DateTimeServiceError>)
    requires
        chrono_range(now as int),
    ensures
        readable(name@) ==> (r matches Ok(z) && z.timezone@ == name@ && z.utc_offset == reading_offset(
            name@,
            now,
        ) && z.local_time@ == reading_time(name@, now) && z.abbreviation@ == reading_abbreviation(
            name@,
            now,
        ) && z.is_utc == (name@ == "UTC"@)),
        !readable(name@) ==> (r matches Err(DateTimeServiceError::InvalidTimezone(m)) && m@
            == refusal@ + name@),
{
    if text_eq(name, "UTC") {
        let local_time = write_instant(now, "UTC", false, "%Y-%m-%d %H:%M:%S").unwrap();
        Ok(
            ZoneReading {
                timezone: owned(name),
                utc_offset: 0,
                local_time,
                abbreviation: owned("UTC"),
                is_utc: true,
            },
        )
    } else if is_known_timezone(name) {
        let local_time = write_instant(now, name, true, "%Y-%m-%d %H:%M:%S").unwrap();
        let abbreviation = write_instant(now, name, true, "%Z").unwrap();
        Ok(
            ZoneReading {
                timezone: owned(name),
                utc_offset: utc_offset_seconds(name, now),
                local_time,
                abbreviation,
                is_utc: false,
            },
        )
    } else {
        Err(DateTimeServiceError::InvalidTimezone(concat2(refusal, name)))
    }
}

/// The two zones a comparison is asked for.
#[derive(Debug)]
pub struct TimezoneComparisonRequest {
    pub from_timezone: String,
    pub to_timezone: String,
}

/// Compares zone `to` with zone `from` at instant `now`. The source zone is checked first:
/// an unknown zone is refused with `Invalid from_timezone: <name>` or
/// `Invalid to_timezone: <name>`. The relation follows the sign of the offset difference.
pub fn compare_timezones(request: &TimezoneComparisonRequest, now: i64) -> (r: Result<
    ZoneComparison,
    DateTimeServiceError,
>)
    requires
        chrono_range(now as int),
    ensures
        ({
            let from_timezone = request.from_timezone;
            let to_timezone = request.to_timezone;
            &&& !readable(from_timezone@) ==> (r matches Err(DateTimeServiceError::InvalidTimezone(m)) && m@
                == "Invalid from_timezone: "@ + from_timezone@)
            &&& readable(from_timezone@) && !readable(to_timezone@) ==> (r matches Err(
                DateTimeServiceError::InvalidTimezone(m),
            ) && m@ == "Invalid to_timezone: "@ + to_timezone@)
            &&& readable(from_timezone@) && readable(to_timezone@) ==> (r matches Ok(c) && {
                let d = reading_offset(to_timezone@, now) - reading_offset(from_timezone@, now);
                &&& c.from.timezone@ == from_timezone@
                &&& c.to.timezone@ == to_timezone@
                &&& c.from.utc_offset == reading_offset(from_timezone@, now)
                &&& c.to.utc_offset == reading_offset(to_timezone@, now)
                &&& c.from.local_time@ == reading_time(from_timezone@, now)
                &&& c.to.local_time@ == reading_time(to_timezone@, now)
                &&& c.from.abbreviation@ == reading_abbreviation(from_timezone@, now)
                &&& c.to.abbreviation@ == reading_abbreviation(to_timezone@, now)
                &&& c.difference_seconds == d
                &&& (d > 0 ==> c.relation == ZoneRelation::Ahead)
                &&& (d < 0 ==> c.relation == ZoneRelation::Behind)
                &&& (d == 0 ==> c.relation == ZoneRelation::Same)
            })
        }),
{
    let from_timezone = request.from_timezone.as_str();
    let to_timezone = request.to_timezone.as_str();
    let from = match read_zone(from_timezone, now, "Invalid from_timezone: ") {
        Ok(z) => z,
        Err(e) => return Err(e),
    };
    let to = match read_zone(to_timezone, now, "Invalid to_timezone: ") {
        Ok(z) => z,
        Err(e) => return Err(e),
    };
    let difference_seconds: i64 = to.utc_offset as i64 - from.utc_offset as i64;
    let relation = if difference_seconds > 0 {
        ZoneRelation::Ahead
    } else if difference_seconds < 0 {
        ZoneRelation::Behind
    } else {
        ZoneRelation::Same
    };
    Ok(ZoneComparison { from, to, difference_seconds, relation })
}

/// A hub of the aviation clock board: its name, zone, UTC offset in seconds, local time and
/// zone abbreviation.
#[derive(Debug)]
pub struct HubTime {
    pub name: String,
    pub timezone: String,
    pub utc_offset: i32,
    pub local_time: String,
    pub abbreviation: String,
}

/// The hubs of the aviation clock board, as (name, zone) pairs.
pub open spec fn aviation_hubs() -> Seq<(Seq<char>, Seq<char>)> {
    seq![
        ("UTC"@, "UTC"@),
        ("New York (JFK/LGA/EWR)"@, "America/New_York"@),
        ("Los Angeles (LAX)"@, "America/Los_Angeles"@),
        ("Chicago (ORD/MDW)"@, "America/Chicago"@),
        ("Denver (DEN)"@, "America/Denver"@),
        ("London (LHR/LGW)"@, "Europe/London"@),
        ("Paris (CDG/ORY)"@, "Europe/Paris"@),
        ("Frankfurt (FRA)"@, "Europe/Berlin"@),
        ("Tokyo (NRT/HND)"@, "Asia/Tokyo"@),
        ("Sydney (SYD)"@, "Australia/Sydney"@),
        ("Dubai (DXB)"@, "Asia/Dubai"@),
        ("Singapore (SIN)"@, "Asia/Singapore"@),
    ]
}

/// The board entries for the hubs `hubs`, in order, leaving out hubs whose zone cannot be read.
pub open spec fn board(hubs: Seq<(Seq<char>, Seq<char>)>, now: i64) -> Seq<
    (Seq<char>, Seq<char>, int, Seq<char>, Seq<char>),
>
    decreases hubs.len(),
{
    if hubs.len() == 0 {
        Seq::empty()
    } else {
        let rest = board(hubs.drop_last(), now);
        let (name, zone) = hubs.last();
        if readable(zone) {
            rest.push(
                (
                    name,
                    zone,
                    reading_offset(zone, now),
                    reading_time(zone, now),
                    reading_abbreviation(zone, now),
                ),
            )
        } else {
            rest
        }
    }
}

/// The view of a board entry.
pub open spec fn hub_view(h: HubTime) -> (Seq<char>, Seq<char>, int, Seq<char>, Seq<char>) {
    (h.name@, h.timezone@, h.utc_offset as int, h.local_time@, h.abbreviation@)
}

fn hub_table() -> (r: Vec<(&'static str, &'static str)>)
    ensures
        r@.map_values(|p: (&'static str, &'static str)| (p.0@, p.1@)) == aviation_hubs(),
{
    let mut r: Vec<(&'static str, &'static str)> = Vec::new();
    r.push(("UTC", "UTC"));
    r.push(("New York (JFK/LGA/EWR)", "America/New_York"));
    r.push(("Los Angeles (LAX)", "America/Los_Angeles"));
    r.push(("Chicago (ORD/MDW)", "America/Chicago"));
    r.push(("Denver (DEN)", "America/Denver"));
    r.push(("London (LHR/LGW)", "Europe/London"));
    r.push(("Paris (CDG/ORY)", "Europe/Paris"));
    r.push(("Frankfurt (FRA)", "Europe/Berlin"));
    r.push(("Tokyo (NRT/HND)", "Asia/Tokyo"));
    r.push(("Sydney (SYD)", "Australia/Sydney"));
    r.push(("Dubai (DXB)", "Asia/Dubai"));
    r.push(("Singapore (SIN)", "Asia/Singapore"));
    assert(r@.map_values(|p: (&'static str, &'static str)| (p.0@, p.1@)) =~= aviation_hubs());
    r
}

/// The aviation clock board at instant `now`: every hub whose zone can be read, in order,
/// with its UTC offset (0 for UTC), local time and abbreviation.
pub fn aviation_times(now: i64) -> (r: Vec<HubTime>)
    requires
        chrono_range(now as int),
    ensures
        r@.map_values(|h: HubTime| hub_view(h)) == board(aviation_hubs(), now),
{
    let table = hub_table();
    let ghost hubs = table@.map_values(|p: (&'static str, &'static str)| (p.0@, p.1@));
    let mut out: Vec<HubTime> = Vec::new();
    let mut i: usize = 0;
    while i < table.len()
        invariant
            chrono_range(now as int),
            hubs == table@.map_values(|p: (&'static str, &'static str)| (p.0@, p.1@)),
            i <= table.len(),
            out@.map_values(|h: HubTime| hub_view(h)) == board(hubs.take(i as int), now),
        decreases table.len() - i,
    {
        let (name, zone) = table[i];
        let ghost before = out@;
        match read_zone(zone, now, "Invalid timezone: ") {
            Ok(z) => {
                out.push(
                    HubTime {
                        name: owned(name),
                        timezone: z.timezone,
                        utc_offset: z.utc_offset,
                        local_time: z.local_time,
                        abbreviation: z.abbreviation,
                    },
                );
            },
            Err(_) => {},
        }
        proof {
            assert(hubs.take(i + 1).drop_last() =~= hubs.take(i as int));
            assert(hubs.take(i + 1).last() == (name@, zone@));
            if readable(zone@) {
                assert(out@ == before.push(out@.last()));
                assert(out@.map_values(|h: HubTime| hub_view(h)) =~= before.map_values(
                    |h: HubTime| hub_view(h),
                ).push(hub_view(out@.last())));
            } else {
                assert(out@ == before);
            }
        }
        i = i + 1;
    }
    assert(hubs.take(table.len() as int) =~= hubs);
    out
}

} // verus!
