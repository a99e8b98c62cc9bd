use vstd::prelude::*;

use crate::datetime::{
    instant_text, parse_rfc3339, plain_format, rfc3339_reading, write_instant, InvalidTime,
};
use crate::text::{
    concat2, concat3, decimal, decimal_text, lowercase, owned, seq_contains, text_contains, text_eq,
    to_lower, to_upper, uppercase,
};

verus! {

broadcast use vstd::string::group_string_axioms;

/// A scheduled flight. Times are Unix timestamps in seconds (UTC).
#[derive(Debug)]
pub struct Flight {
    pub flight_number: String,
    pub aircraft_number: String,
    pub departure: String,
    pub arrival: String,
    pub departure_time: i64,
    pub arrival_time: Option<i64>,
}

impl Clone for Flight {
    fn clone(&self) -> (r: Self)
        ensures
            r == *self,
    {
        Flight {
            flight_number: self.flight_number.clone(),
            aircraft_number: self.aircraft_number.clone(),
            departure: self.departure.clone(),
            arrival: self.arrival.clone(),
            departure_time: self.departure_time,
            arrival_time: self.arrival_time,
        }
    }
}

/// Why a request to the flight service failed.
#[derive(Debug)]
pub enum FlightServiceError {
    /// The flight service could not be reached or answered with an error status; holds the
    /// transport error's text.
    Network(String),
    NotFound(String),
    ParseError(String),
}

/// The text of a flight-service error, as its `Display` reads.
pub open spec fn flight_error_text(e: FlightServiceError) -> Seq<char> {
    match e {
        FlightServiceError::Network(m) => "Network error: "@ + m@,
        FlightServiceError::NotFound(m) => "Flight not found: "@ + m@,
        FlightServiceError::ParseError(m) => "Parse error: "@ + m@,
    }
}

impl FlightServiceError {
    /// The text of the error.
    pub fn message(&self) -> (r: String)
        ensures
            r@ == flight_error_text(*self),
    {
        match self {
            FlightServiceError::Network(m) => concat2("Network error: ", m.as_str()),
            FlightServiceError::NotFound(m) => concat2("Flight not found: ", m.as_str()),
            FlightServiceError::ParseError(m) => concat2("Parse error: ", m.as_str()),
        }
    }

    /// The HTTP status with which the flight lookup by number answers this error.
    pub fn lookup_http_status(&self) -> (r: u16)
        ensures
            self is NotFound ==> r == 404,
            !(self is NotFound) ==> r == 500,
    {
        match self {
            FlightServiceError::NotFound(_) => 404,
            _ => 500,
        }
    }

    /// The HTTP status with which the flight listing and creation answer this error.
    pub fn http_status(&self) -> (r: u16)
        ensures
            self is NotFound ==> r == 404,
            self is Network ==> r == 502,
            self is ParseError ==> r == 500,
    {
        match self {
            FlightServiceError::NotFound(_) => 404,
            FlightServiceError::Network(_) => 502,
            FlightServiceError::ParseError(_) => 500,
        }
    }
}

/// The flights the flight service's answer lists: none when the body is blank, the parsed
/// flights otherwise, and a `ParseError` quoting the body when it could not be parsed.
/// `parsed` is the outcome of parsing `body` as JSON.
pub fn flight_list_outcome(body: &str, parsed: Result<Vec<Flight>, String>) -> (r: Result<
    Vec<Flight>,
    FlightServiceError,
>)
    ensures
        crate::text::all_white(body@) ==> (r matches Ok(v) && v@.len() == 0),
        !crate::text::all_white(body@) ==> (parsed matches Ok(v) ==> r == Ok::<
            Vec<Flight>,
            FlightServiceError,
        >(v)),
        !crate::text::all_white(body@) ==> (parsed matches Err(e) ==> (r matches Err(
            FlightServiceError::ParseError(m),
        ) && m@ == "JSON parse error: "@ + e@ + ", response: "@ + body@)),
{
    if crate::text::is_blank(body) {
        return Ok(Vec::new());
    }
    match parsed {
        Ok(v) => Ok(v),
        Err(e) => {
            let mut m = concat2("JSON parse error: ", e.as_str());
            m.append(", response: ");
            m.append(body);
            Err(FlightServiceError::ParseError(m))
        },
    }
}

/// The flight the flight service's answer to a creation describes, or a `ParseError` quoting
/// the body when it could not be parsed. `parsed` is the outcome of parsing `body` as JSON.
pub fn created_flight_outcome(body: &str, parsed: Result<Flight, String>) -> (r: Result<
    Flight,
    FlightServiceError,
>)
    ensures
        parsed matches Ok(f) ==> r == Ok::<Flight, FlightServiceError>(f),
        parsed matches Err(e) ==> (r matches Err(FlightServiceError::ParseError(m)) && m@
            == "JSON parse error: "@ + e@ + ", response: "@ + body@),
{
    match parsed {
        Ok(f) => Ok(f),
        Err(e) => {
            let mut m = concat2("JSON parse error: ", e.as_str());
            m.append(", response: ");
            m.append(body);
            Err(FlightServiceError::ParseError(m))
        },
    }
}

/// The first flight with the given number, or `NotFound("Flight <number> not found")`.
pub fn find_flight_by_number(flights: &Vec<Flight>, flight_number: &str) -> (r: Result<
    Flight,
    FlightServiceError,
>)
    ensures
        match r {
            Ok(f) => exists|i: int|
                0 <= i < flights@.len() && flights@[i] == f && f.flight_number@ == flight_number@
                    && forall|j: int| 0 <= j < i ==> flights@[j].flight_number@ != flight_number@,
            Err(e) => (forall|i: int|
                0 <= i < flights@.len() ==> flights@[i].flight_number@ != flight_number@) && (e matches FlightServiceError::NotFound(m) && m@ == "Flight "@
                + flight_number@ + " not found"@),
        },
{
    let mut i: usize = 0;
    while i < flights.len()
        invariant
            i <= flights.len(),
            forall|j: int| 0 <= j < i ==> flights@[j].flight_number@ != flight_number@,
        decreases flights.len() - i,
    {
        if text_eq(flights[i].flight_number.as_str(), flight_number) {
            return Ok(flights[i].clone());
        }
        i = i + 1;
    }
    Err(FlightServiceError::NotFound(concat3("Flight ", flight_number, " not found")))
}

/// The text chrono writes for the UTC instant `ts` with format `format`; nothing when the
/// instant is outside chrono's range or the format holds an item chrono cannot write.
pub open spec fn formatted_utc(ts: i64, format: Seq<char>) -> Option<Seq<char>> {
    instant_text(ts, "UTC"@, false, format)
}

/// Writes the UTC instant `ts` with format `format`.
pub fn format_utc(ts: i64, format: &str) -> (r: Option<String>)
    ensures
        match r {
            Some(s) => formatted_utc(ts, format@) == Some(s@),
            None => formatted_utc(ts, format@) is None,
        },
        crate::datetime::chrono_range(ts as int) && plain_format(format@) ==> r is Some,
{
    write_instant(ts, "UTC", false, format)
}

/// A text filter that is either absent (everything passes) or must occur in the value,
/// compared in lower case.
pub open spec fn passes_lower(value: Seq<char>, wanted: Option<String>) -> bool {
    match wanted {
        None => true,
        Some(w) => seq_contains(lowercase(value), lowercase(w@)),
    }
}

/// A text filter that is either absent (everything passes) or must occur in the value,
/// compared in upper case.
pub open spec fn passes_upper(value: Seq<char>, wanted: Option<String>) -> bool {
    match wanted {
        None => true,
        Some(w) => seq_contains(uppercase(value), uppercase(w@)),
    }
}

/// A date filter (`YYYY-MM-DD`) that is either absent or must equal the UTC date of `ts`.
pub open spec fn passes_date(ts: i64, wanted: Option<String>) -> bool {
    match wanted {
        None => true,
        Some(d) => formatted_utc(ts, "%Y-%m-%d"@) == Some(d@),
    }
}

/// The filters of the flight listing: departure, arrival (both matched in lower case) and
/// departure date (`YYYY-MM-DD`), each optional.
#[derive(Debug)]
pub struct ListFlightsToolRequest {
    pub departure: Option<String>,
    pub arrival: Option<String>,
    pub date: Option<String>,
}

/// A flight passes the listing's filters.
pub open spec fn listing_keeps(filter: ListFlightsToolRequest, f: Flight) -> bool {
    &&& passes_lower(f.departure@, filter.departure)
    &&& passes_lower(f.arrival@, filter.arrival)
    &&& passes_date(f.departure_time, filter.date)
}

/// A flight passes the dashboard's filters (departure and arrival, matched in upper case).
pub open spec fn dashboard_keeps(departure: Option<String>, arrival: Option<String>, f: Flight) -> bool {
    &&& passes_upper(f.departure@, departure)
    &&& passes_upper(f.arrival@, arrival)
}

fn lower_filter(value: &str, wanted: &Option<String>) -> (r: bool)
    ensures
        r == passes_lower(value@, *wanted),
{
    match wanted {
        None => true,
        Some(w) => {
            let v = to_lower(value);
            let l = to_lower(w.as_str());
            text_contains(v.as_str(), l.as_str())
        },
    }
}

fn upper_filter(value: &str, wanted: &Option<String>) -> (r: bool)
    ensures
        r == passes_upper(value@, *wanted),
{
    match wanted {
        None => true,
        Some(w) => {
            let v = to_upper(value);
            let u = to_upper(w.as_str());
            text_contains(v.as_str(), u.as_str())
        },
    }
}

fn date_filter(ts: i64, wanted: &Option<String>) -> (r: bool)
    ensures
        r == passes_date(ts, *wanted),
{
    match wanted {
        None => true,
        Some(d) => match format_utc(ts, "%Y-%m-%d") {
            Some(s) => text_eq(s.as_str(), d.as_str()),
            None => false,
        },
    }
}

impl ListFlightsToolRequest {
    /// Whether a flight passes the listing's filters.
    pub fn keeps(&self, f: &Flight) -> (r: bool)
        ensures
            r == listing_keeps(*self, *f),
    {
        lower_filter(f.departure.as_str(), &self.departure) && lower_filter(
            f.arrival.as_str(),
            &self.arrival,
        ) && date_filter(f.departure_time, &self.date)
    }

    /// The flights that pass the listing's filters, in their order.
    pub fn apply(&self, flights: &Vec<Flight>) -> (r: Vec<Flight>)
        ensures
            r@ == flights@.filter(|f: Flight| listing_keeps(*self, f)),
    {
        let ghost pred = |f: Flight| listing_keeps(*self, f);
        let mut out: Vec<Flight> = Vec::new();
        let mut i: usize = 0;
        while i < flights.len()
            invariant
                i <= flights.len(),
                pred == (|f: Flight| listing_keeps(*self, f)),
                out@ == flights@.take(i as int).filter(pred),
            decreases flights.len() - i,
        {
            proof {
                reveal_with_fuel(Seq::<_>::filter, 1);
                assert(flights@.take(i + 1).drop_last() =~= flights@.take(i as int));
            }
            if self.keeps(&flights[i]) {
                out.push(flights[i].clone());
            }
            i = i + 1;
        }
        assert(flights@.take(flights.len() as int) =~= flights@);
        out
    }
}

/// The filters of the flight dashboard: departure and arrival, each optional.
#[derive(Debug)]
pub struct FlightDashboardRequest {
    pub departure: Option<String>,
    pub arrival: Option<String>,
}

/// The flights that pass the dashboard's filters, in their order.
pub fn dashboard_flights(flights: &Vec<Flight>, request: &FlightDashboardRequest) -> (r: Vec<Flight>)
    ensures
        r@ == flights@.filter(
            |f: Flight| dashboard_keeps(request.departure, request.arrival, f),
        ),
{
    let departure = &request.departure;
    let arrival = &request.arrival;
    let ghost pred = |f: Flight| dashboard_keeps(*departure, *arrival, f);
    let mut out: Vec<Flight> = Vec::new();
    let mut i: usize = 0;
    while i < flights.len()
        invariant
            i <= flights.len(),
            pred == (|f: Flight| dashboard_keeps(*departure, *arrival, f)),
            out@ == flights@.take(i as int).filter(pred),
        decreases flights.len() - i,
    {
        proof {
            reveal_with_fuel(Seq::<_>::filter, 1);
            assert(flights@.take(i + 1).drop_last() =~= flights@.take(i as int));
        }
        if upper_filter(flights[i].departure.as_str(), departure) && upper_filter(
            flights[i].arrival.as_str(),
            arrival,
        ) {
            out.push(flights[i].clone());
        }
        i = i + 1;
    }
    assert(flights@.take(flights.len() as int) =~= flights@);
    out
}

/// A flight as the dashboard shows it, times written as `YYYY-MM-DD HH:MM UTC`.
#[derive(Debug)]
pub struct FlightRow {
    pub flight_number: String,
    pub aircraft_number: String,
    pub departure: String,
    pub arrival: String,
    pub departure_time: String,
    pub arrival_time: String,
}

/// The flight's times lie in chrono's range, as those of every parsed flight do.
pub open spec fn times_in_range(f: Flight) -> bool {
    &&& crate::datetime::chrono_range(f.departure_time as int)
    &&& (f.arrival_time matches Some(t) ==> crate::datetime::chrono_range(t as int))
}

/// How the dashboard writes an instant.
pub open spec fn row_time(ts: i64) -> Seq<char> {
    formatted_utc(ts, "%Y-%m-%d %H:%M UTC"@).unwrap()
}

/// `row` shows flight `f`: the same texts, the departure time written out, and the arrival
/// time written out or `TBD` when it is unknown.
pub open spec fn shows(row: FlightRow, f: Flight) -> bool {
    &&& row.flight_number@ == f.flight_number@
    &&& row.aircraft_number@ == f.aircraft_number@
    &&& row.departure@ == f.departure@
    &&& row.arrival@ == f.arrival@
    &&& row.departure_time@ == row_time(f.departure_time)
    &&& row.arrival_time@ == match f.arrival_time {
        Some(t) => row_time(t),
        None => "TBD"@,
    }
}

/// The dashboard row of a flight.
pub fn flight_row(f: &Flight) -> (r: FlightRow)
    requires
        times_in_range(*f),
    ensures
        shows(r, *f),
{
    let departure_time = format_utc(f.departure_time, "%Y-%m-%d %H:%M UTC").unwrap();
    let arrival_time = match f.arrival_time {
        Some(t) => format_utc(t, "%Y-%m-%d %H:%M UTC").unwrap(),
        None => owned("TBD"),
    };
    FlightRow {
        flight_number: f.flight_number.clone(),
        aircraft_number: f.aircraft_number.clone(),
        departure: f.departure.clone(),
        arrival: f.arrival.clone(),
        departure_time,
        arrival_time,
    }
}

/// The dashboard's rows: one for each flight that passes its filters, in order.
pub fn dashboard_rows(flights: &Vec<Flight>, request: &FlightDashboardRequest) -> (r: Vec<FlightRow>)
    requires
        forall|i: int| 0 <= i < flights@.len() ==> times_in_range(#[trigger] flights@[i]),
    ensures
        ({
            let kept = flights@.filter(
                |f: Flight| dashboard_keeps(request.departure, request.arrival, f),
            );
            &&& r@.len() == kept.len()
            &&& forall|i: int| 0 <= i < kept.len() ==> shows(#[trigger] r@[i], kept[i])
        }),
{
    let kept = dashboard_flights(flights, request);
    proof {
        let pred = |f: Flight| dashboard_keeps(request.departure, request.arrival, f);
        assert forall|i: int| 0 <= i < kept@.len() implies times_in_range(#[trigger] kept@[i]) by {
            assert(kept@.contains(kept@[i]));
            flights@.lemma_filter_contains_rev(pred, kept@[i]);
            let j = choose|j: int| 0 <= j < flights@.len() && flights@[j] == kept@[i];
            assert(times_in_range(flights@[j]));
        }
    }
    let mut rows: Vec<FlightRow> = Vec::new();
    let mut i: usize = 0;
    while i < kept.len()
        invariant
            i <= kept.len(),
            forall|k: int| 0 <= k < kept@.len() ==> times_in_range(#[trigger] kept@[k]),
            rows@.len() == i,
            forall|k: int| 0 <= k < i ==> shows(#[trigger] rows@[k], kept@[k]),
        decreases kept.len() - i,
    {
        let row = flight_row(&kept[i]);
        rows.push(row);
        i = i + 1;
    }
    rows
}

/// A flight about to be registered: the flight service assigns the number, so it carries a
/// stand-in made of the departure code and `0001`.
pub fn draft_flight(
    aircraft_number: String,
    departure: String,
    arrival: String,
    departure_time: i64,
    arrival_time: Option<i64>,
) -> (r: Flight)
    ensures
        r.flight_number@ == departure@ + "0001"@,
        r.aircraft_number == aircraft_number,
        r.departure == departure,
        r.arrival == arrival,
        r.departure_time == departure_time,
        r.arrival_time == arrival_time,
{
    let flight_number = concat2(departure.as_str(), "0001");
    Flight { flight_number, aircraft_number, departure, arrival, departure_time, arrival_time }
}

/// The arguments of the flight-creation tool; times in RFC 3339.
#[derive(Debug)]
pub struct CreateFlightToolRequest {
    pub aircraft_number: String,
    pub departure: String,
    pub arrival: String,
    pub departure_time: String,
    pub arrival_time: Option<String>,
}

/// The flight the creation tool's arguments describe, or the refusal of the first time that
/// cannot be read (departure first).
pub fn flight_from_tool_request(req: CreateFlightToolRequest) -> (r: Result<Flight, InvalidTime>)
    ensures
        match rfc3339_reading(req.departure_time@) {
            Err(d) => r matches Err(e) && e.message@ == "Invalid departure_time format"@ && e.detail@
                == d,
            Ok(dep) => match req.arrival_time {
                Some(a) => match rfc3339_reading(a@) {
                    Err(d) => r matches Err(e) && e.message@ == "Invalid arrival_time format"@
                        && e.detail@ == d,
                    Ok(arr) => r matches Ok(f) && f.flight_number@ == req.departure@ + "0001"@
                        && f.aircraft_number == req.aircraft_number && f.departure == req.departure
                        && f.arrival == req.arrival && f.departure_time == dep && f.arrival_time
                        == Some(arr),
                },
                None => r matches Ok(f) && f.flight_number@ == req.departure@ + "0001"@
                    && f.aircraft_number == req.aircraft_number && f.departure == req.departure
                    && f.arrival == req.arrival && f.departure_time == dep && f.arrival_time is None,
            },
        },
        r matches Ok(f) ==> times_in_range(f),
{
    let departure_time = match parse_rfc3339(req.departure_time.as_str()) {
        Ok(t) => t,
        Err(d) => {
            return Err(InvalidTime { message: owned("Invalid departure_time format"), detail: d });
        },
    };
    let arrival_time = match &req.arrival_time {
        None => None,
        Some(a) => match parse_rfc3339(a.as_str()) {
            Ok(t) => Some(t),
            Err(d) => {
                return Err(InvalidTime { message: owned("Invalid arrival_time format"), detail: d });
            },
        },
    };
    Ok(draft_flight(req.aircraft_number, req.departure, req.arrival, departure_time, arrival_time))
}

/// How a flight's arrival is written: its time, or `TBD` when unknown.
pub open spec fn arrival_text(f: Flight) -> Seq<char> {
    match f.arrival_time {
        Some(t) => row_time(t),
        None => "TBD"@,
    }
}

fn write_arrival(f: &Flight) -> (r: String)
    requires
        times_in_range(*f),
    ensures
        r@ == arrival_text(*f),
{
    match f.arrival_time {
        Some(t) => format_utc(t, "%Y-%m-%d %H:%M UTC").unwrap(),
        None => owned("TBD"),
    }
}

/// The block the listing tool writes for a flight.
pub open spec fn flight_block(f: Flight) -> Seq<char> {
    "Flight: "@ + f.flight_number@ + "\nAircraft: "@ + f.aircraft_number@ + "\nRoute: "@
        + f.departure@ + " → "@ + f.arrival@ + "\nDeparture: "@ + row_time(f.departure_time)
        + "\nArrival: "@ + arrival_text(f) + "\n\n"@
}

/// The blocks of the flights, one after another.
pub open spec fn flight_blocks(v: Seq<Flight>) -> Seq<char>
    decreases v.len(),
{
    if v.len() == 0 {
        Seq::empty()
    } else {
        flight_blocks(v.drop_last()) + flight_block(v.last())
    }
}

fn write_block(f: &Flight) -> (r: String)
    requires
        times_in_range(*f),
    ensures
        r@ == flight_block(*f),
{
    let departure = format_utc(f.departure_time, "%Y-%m-%d %H:%M UTC").unwrap();
    let arrival = write_arrival(f);
    let mut r = concat2("Flight: ", f.flight_number.as_str());
    r.append("\nAircraft: ");
    r.append(f.aircraft_number.as_str());
    r.append("\nRoute: ");
    r.append(f.departure.as_str());
    r.append(" → ");
    r.append(f.arrival.as_str());
    r.append("\nDeparture: ");
    r.append(departure.as_str());
    r.append("\nArrival: ");
    r.append(arrival.as_str());
    r.append("\n\n");
    r
}

/// What the listing tool answers for the flights that passed its filters.
pub fn flights_listing(flights: &Vec<Flight>) -> (r: String)
    requires
        forall|i: int| 0 <= i < flights@.len() ==> times_in_range(#[trigger] flights@[i]),
    ensures
        flights@.len() == 0 ==> r@ == "No flights found matching the criteria."@,
        flights@.len() > 0 ==> r@ == "Found "@ + decimal(flights@.len()) + " flights:\n\n"@
            + flight_blocks(flights@),
{
    if flights.len() == 0 {
        return owned("No flights found matching the criteria.");
    }
    let count = decimal_text(flights.len() as u64);
    let mut r = concat3("Found ", count.as_str(), " flights:\n\n");
    let ghost head = r@;
    let mut i: usize = 0;
    while i < flights.len()
        invariant
            i <= flights.len(),
            forall|k: int| 0 <= k < flights@.len() ==> times_in_range(#[trigger] flights@[k]),
            r@ == head + flight_blocks(flights@.take(i as int)),
        decreases flights.len() - i,
    {
        let block = write_block(&flights[i]);
        r.append(block.as_str());
        proof {
            assert(flights@.take(i + 1).drop_last() =~= flights@.take(i as int));
            assert(flights@.take(i + 1).last() == flights@[i as int]);
        }
        i = i + 1;
    }
    assert(flights@.take(flights.len() as int) =~= flights@);
    r
}

/// What the flight-details tool answers for a flight.
pub fn flight_details(f: &Flight) -> (r: String)
    requires
        times_in_range(*f),
    ensures
        r@ == "Flight Details:\nFlight Number: "@ + f.flight_number@ + "\nAircraft: "@
            + f.aircraft_number@ + "\nRoute: "@ + f.departure@ + " → "@ + f.arrival@
            + "\nDeparture Time: "@ + row_time(f.departure_time) + "\nArrival Time: "@
            + arrival_text(*f) + "\nStatus: Active"@,
{
    let departure = format_utc(f.departure_time, "%Y-%m-%d %H:%M UTC").unwrap();
    let arrival = write_arrival(f);
    let mut r = concat2("Flight Details:\nFlight Number: ", f.flight_number.as_str());
    r.append("\nAircraft: ");
    r.append(f.aircraft_number.as_str());
    r.append("\nRoute: ");
    r.append(f.departure.as_str());
    r.append(" → ");
    r.append(f.arrival.as_str());
    r.append("\nDeparture Time: ");
    r.append(departure.as_str());
    r.append("\nArrival Time: ");
    r.append(arrival.as_str());
    r.append("\nStatus: Active");
    r
}

/// What the creation tool answers for the flight the flight service registered.
pub fn created_flight_text(f: &Flight) -> (r: String)
    requires
        times_in_range(*f),
    ensures
        r@ == "Flight created successfully!\nFlight Number: "@ + f.flight_number@ + "\nAircraft: "@
            + f.aircraft_number@ + "\nRoute: "@ + f.departure@ + " → "@ + f.arrival@
            + "\nDeparture: "@ + row_time(f.departure_time) + "\nArrival: "@ + arrival_text(*f),
{
    let departure = format_utc(f.departure_time, "%Y-%m-%d %H:%M UTC").unwrap();
    let arrival = write_arrival(f);
    let mut r = concat2("Flight created successfully!\nFlight Number: ", f.flight_number.as_str());
    r.append("\nAircraft: ");
    r.append(f.aircraft_number.as_str());
    r.append("\nRoute: ");
    r.append(f.departure.as_str());
    r.append(" → ");
    r.append(f.arrival.as_str());
    r.append("\nDeparture: ");
    r.append(departure.as_str());
    r.append("\nArrival: ");
    r.append(arrival.as_str());
    r
}

} // verus!
