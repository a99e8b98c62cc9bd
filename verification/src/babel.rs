use vstd::prelude::*;

use crate::flights::{arrival_text, format_utc, row_time, times_in_range, Flight};
use crate::text::{
    concat2, concat3, decimal, decimal_text, owned, seq_contains, text_contains, to_upper, uppercase,
};

verus! {

broadcast use vstd::string::group_string_axioms;

/// Why a request to the flight-aggregation service failed.
#[derive(Debug)]
pub enum BabelServiceError {
    /// The service could not be reached or answered with an unexpected status; holds the
    /// transport error's text.
    Network(String),
    NotFound(String),
    NoFutureFlights(String),
    ParseError(String),
}

/// The text of an aggregation-service error, as its `Display` reads.
pub open spec fn babel_error_text(e: BabelServiceError) -> Seq<char> {
    match e {
        BabelServiceError::Network(m) => "Network error: "@ + m@,
        BabelServiceError::NotFound(m) => "Not found: "@ + m@,
        BabelServiceError::NoFutureFlights(m) => "No future flights found for airport: "@ + m@,
        BabelServiceError::ParseError(m) => "Parse error: "@ + m@,
    }
}

impl BabelServiceError {
    /// The text of the error.
    pub fn message(&self) -> (r: String)
        ensures
            r@ == babel_error_text(*self),
    {
        match self {
            BabelServiceError::Network(m) => concat2("Network error: ", m.as_str()),
            BabelServiceError::NotFound(m) => concat2("Not found: ", m.as_str()),
            BabelServiceError::NoFutureFlights(m) => concat2(
                "No future flights found for airport: ",
                m.as_str(),
            ),
            BabelServiceError::ParseError(m) => concat2("Parse error: ", m.as_str()),
        }
    }
}

/// A 404 body that says the airport has no future flights (rather than that it is unknown).
pub open spec fn says_no_future_flights(body: Seq<char>) -> bool {
    seq_contains(body, "No future flights"@) || seq_contains(body, "NO_FUTURE_FLIGHTS"@)
}

/// The outcome of asking for the flights at `airport_code`. `status` is the HTTP status of
/// the answer, `body` its text (or `Unknown error` when it could not be read), `parsed` the
/// outcome of reading the body as a list of flights, and `status_error` the transport's
/// text for an unexpected status.
pub fn flights_by_airport_outcome<F>(
    airport_code: &str,
    status: u16,
    body: &str,
    parsed: Result<Vec<F>, String>,
    status_error: &str,
) -> (r: Result<Vec<F>, BabelServiceError>)
    ensures
        status == 200 ==> (parsed matches Ok(v) ==> r == Ok::<Vec<F>, BabelServiceError>(v)),
        status == 200 ==> (parsed matches Err(e) ==> (r matches Err(BabelServiceError::ParseError(m))
            && m@ == "JSON parse error: "@ + e@)),
        status == 404 && says_no_future_flights(body@) ==> (r matches Err(
            BabelServiceError::NoFutureFlights(c),
        ) && c@ == airport_code@),
        status == 404 && !says_no_future_flights(body@) ==> (r matches Err(
            BabelServiceError::NotFound(m),
        ) && m@ == "Airport "@ + airport_code@ + " not found or no data available"@),
        status != 200 && status != 404 ==> (r matches Err(BabelServiceError::Network(m)) && m@
            == status_error@),
{
    if status == 200 {
        match parsed {
            Ok(v) => Ok(v),
            Err(e) => Err(BabelServiceError::ParseError(concat2("JSON parse error: ", e.as_str()))),
        }
    } else if status == 404 {
        if text_contains(body, "No future flights") || text_contains(body, "NO_FUTURE_FLIGHTS") {
            Err(BabelServiceError::NoFutureFlights(owned(airport_code)))
        } else {
            Err(
                BabelServiceError::NotFound(
                    concat3("Airport ", airport_code, " not found or no data available"),
                ),
            )
        }
    } else {
        Err(BabelServiceError::Network(owned(status_error)))
    }
}

/// The flight whose position is asked for.
#[derive(Debug)]
pub struct GetFlightPositionRequest {
    pub flight_number: String,
}

/// The outcome of asking for the position of the requested flight: the parsed position on
/// 200, `NotFound` on 404, the transport's error otherwise.
pub fn flight_position_outcome<P>(
    request: &GetFlightPositionRequest,
    status: u16,
    parsed: Result<P, String>,
    status_error: &str,
) -> (r: Result<P, BabelServiceError>)
    ensures
        status == 200 ==> (parsed matches Ok(p) ==> r == Ok::<P, BabelServiceError>(p)),
        status == 200 ==> (parsed matches Err(e) ==> (r matches Err(BabelServiceError::ParseError(m))
            && m@ == "JSON parse error: "@ + e@)),
        status == 404 ==> (r matches Err(BabelServiceError::NotFound(m)) && m@ == "Flight "@
            + request.flight_number@ + " not found or not currently in flight"@),
        status != 200 && status != 404 ==> (r matches Err(BabelServiceError::Network(m)) && m@
            == status_error@),
{
    let flight_number = request.flight_number.as_str();
    if status == 200 {
        match parsed {
            Ok(p) => Ok(p),
            Err(e) => Err(BabelServiceError::ParseError(concat2("JSON parse error: ", e.as_str()))),
        }
    } else if status == 404 {
        Err(
            BabelServiceError::NotFound(
                concat3("Flight ", flight_number, " not found or not currently in flight"),
            ),
        )
    } else {
        Err(BabelServiceError::Network(owned(status_error)))
    }
}

/// The length of a text in bytes, as `str::len` gives it (UTF-8).
pub open spec fn byte_len(s: Seq<char>) -> usize {
    vstd::utf8::encode_utf8(s).len() as usize
}

/// A pattern can name an airport when it is 3 (IATA) or 4 (ICAO) bytes long.
pub open spec fn code_shaped(pattern: Seq<char>) -> bool {
    byte_len(pattern) == 3 || byte_len(pattern) == 4
}

/// The airport whose flights are asked for.
#[derive(Debug)]
pub struct GetFlightsByAirportRequest {
    pub airport_code: String,
}

/// The airport-code pattern searched for.
#[derive(Debug)]
pub struct SearchFlightsByPatternRequest {
    pub pattern: String,
}

/// How the flights-at-airport answer lists a flight.
pub open spec fn future_flight_block(f: Flight) -> Seq<char> {
    "Flight: "@ + f.flight_number@ + "\nAircraft: "@ + f.aircraft_number@ + "\nRoute: "@
        + f.departure@ + " → "@ + f.arrival@ + "\nDeparture: "@ + row_time(f.departure_time)
        + "\nArrival: "@ + arrival_text(f) + "\nStatus: Future Flight\n\n"@
}

/// The blocks of the flights, one after another.
pub open spec fn future_flight_blocks(v: Seq<Flight>) -> Seq<char>
    decreases v.len(),
{
    if v.len() == 0 {
        Seq::empty()
    } else {
        future_flight_blocks(v.drop_last()) + future_flight_block(v.last())
    }
}

/// The answer of the flights-at-airport tool for the flights the aggregation service listed,
/// or for the error it reported: a text for the outcomes it explains, the error itself for
/// the others (`Network`, `ParseError`).
pub open spec fn airport_flights_answer_spec(
    code: Seq<char>,
    outcome: Result<Seq<Flight>, BabelServiceError>,
) -> Result<Seq<char>, BabelServiceError> {
    match outcome {
        Ok(v) => if v.len() == 0 {
            Ok(
                "No future flights found for airport: "@ + code
                    + "\nThis could mean:\n- No flights are currently scheduled\n- All scheduled flights have already departed\n- The airport code may be incorrect"@,
            )
        } else {
            Ok(
                "Found "@ + decimal(v.len()) + " future flights for airport "@ + code + ":\n\n"@
                    + future_flight_blocks(v),
            )
        },
        Err(BabelServiceError::NotFound(m)) => Ok(
            "Airport not found: "@ + m@
                + "\nPlease check the airport code and try again.\nExamples of valid codes: JFK, LAX, LHR, CDG, NRT"@,
        ),
        Err(BabelServiceError::NoFutureFlights(a)) => Ok(
            "No future flights found for airport: "@ + a@
                + "\nAll scheduled flights may have already departed or \nno flights are currently scheduled from this airport."@,
        ),
        Err(e) => Err(e),
    }
}

fn write_future_block(f: &Flight) -> (r: String)
    requires
        times_in_range(*f),
    ensures
        r@ == future_flight_block(*f),
{
    let departure = format_utc(f.departure_time, "%Y-%m-%d %H:%M UTC").unwrap();
    let arrival = match f.arrival_time {
        Some(t) => format_utc(t, "%Y-%m-%d %H:%M UTC").unwrap(),
        None => owned("TBD"),
    };
    let mut r = concat2("Flight: ", f.flight_number.as_str());
    r.append("\nAircraft: ");
    r.append(f.aircraft_number.as_str());
    r.append("\nRoute: ");
    r.append(f.departure.as_str());
    r.append(" → ");
    r.append(f.arrival.as_str());
    r.append("\nDeparture: ");
    r.append(departure.as_str());
    r.append("\nArrival: ");
    r.append(arrival.as_str());
    r.append("\nStatus: Future Flight\n\n");
    r
}

/// The answer of the flights-at-airport tool.
pub fn airport_flights_answer(
    request: &GetFlightsByAirportRequest,
    outcome: Result<Vec<Flight>, BabelServiceError>,
) -> (r: Result<String, BabelServiceError>)
    requires
        outcome matches Ok(v) ==> forall|i: int|
            0 <= i < v@.len() ==> times_in_range(#[trigger] v@[i]),
    ensures
        match (r, airport_flights_answer_spec(
            request.airport_code@,
            match outcome {
                Ok(v) => Ok(v@),
                Err(e) => Err(e),
            },
        )) {
            (Ok(t), Ok(s)) => t@ == s,
            (Err(e), Err(s)) => e == s,
            _ => false,
        },
{
    let code = request.airport_code.as_str();
    match outcome {
        Ok(v) => {
            if v.len() == 0 {
                return Ok(
                    concat2("No future flights found for airport: ", code).concat(
                        "\nThis could mean:\n- No flights are currently scheduled\n- All scheduled flights have already departed\n- The airport code may be incorrect",
                    ),
                );
            }
            let count = decimal_text(v.len() as u64);
            let mut r = concat3("Found ", count.as_str(), " future flights for airport ");
            r.append(code);
            r.append(":\n\n");
            let ghost head = r@;
            let mut i: usize = 0;
            while i < v.len()
                invariant
                    i <= v.len(),
                    forall|k: int| 0 <= k < v@.len() ==> times_in_range(#[trigger] v@[k]),
                    r@ == head + future_flight_blocks(v@.take(i as int)),
                decreases v.len() - i,
            {
                let block = write_future_block(&v[i]);
                r.append(block.as_str());
                proof {
                    assert(v@.take(i + 1).drop_last() =~= v@.take(i as int));
                }
                i = i + 1;
            }
            assert(v@.take(v.len() as int) =~= v@);
            Ok(r)
        },
        Err(BabelServiceError::NotFound(m)) => Ok(
            concat3(
                "Airport not found: ",
                m.as_str(),
                "\nPlease check the airport code and try again.\nExamples of valid codes: JFK, LAX, LHR, CDG, NRT",
            ),
        ),
        Err(BabelServiceError::NoFutureFlights(a)) => Ok(
            concat3(
                "No future flights found for airport: ",
                a.as_str(),
                "\nAll scheduled flights may have already departed or \nno flights are currently scheduled from this airport.",
            ),
        ),
        Err(e) => Err(e),
    }
}

/// What the position tool answers for an error that it explains in text: an unknown flight.
/// Other errors it raises, and a found position it writes out itself.
pub fn flight_position_failure_text(e: &BabelServiceError) -> (r: Option<String>)
    ensures
        e matches BabelServiceError::NotFound(m) ==> (r matches Some(t) && t@ == "Flight not found: "@
            + m@ + "\nPlease check the flight number and try again.\nExamples of valid flight numbers: AA123, BA456, LH789"@),
        !(e is NotFound) ==> r is None,
{
    match e {
        BabelServiceError::NotFound(m) => Some(
            concat3(
                "Flight not found: ",
                m.as_str(),
                "\nPlease check the flight number and try again.\nExamples of valid flight numbers: AA123, BA456, LH789",
            ),
        ),
        _ => None,
    }
}

/// The airport code the pattern search looks up: the pattern in upper case, when it is 3
/// (IATA) or 4 (ICAO) bytes long (`str::len`); otherwise nothing is looked up.
pub fn pattern_search_code(request: &SearchFlightsByPatternRequest) -> (r: Option<String>)
    ensures
        code_shaped(request.pattern@) ==> (r matches Some(c) && c@ == uppercase(request.pattern@)),
        !code_shaped(request.pattern@) ==> r is None,
{
    let n = request.pattern.as_str().len();
    if n == 3 || n == 4 {
        Some(to_upper(request.pattern.as_str()))
    } else {
        None
    }
}

/// How the pattern search lists a flight.
pub open spec fn pattern_line(f: Flight) -> Seq<char> {
    f.flight_number@ + ": "@ + f.departure@ + " → "@ + f.arrival@ + " (Departs: "@ + row_time(
        f.departure_time,
    ) + ")\n"@
}

/// The lines of the flights, one after another.
pub open spec fn pattern_lines(v: Seq<Flight>) -> Seq<char>
    decreases v.len(),
{
    if v.len() == 0 {
        Seq::empty()
    } else {
        pattern_lines(v.drop_last()) + pattern_line(v.last())
    }
}

/// The answer of the pattern search: for a pattern that is no airport code, a refusal; for
/// one that is, what the lookup of its upper-case form (`looked_up`, absent when no lookup was
/// made) found: the first ten flights and a count of the rest, or that there are none.
pub open spec fn pattern_answer_spec(
    pattern: Seq<char>,
    looked_up: Option<Result<Seq<Flight>, BabelServiceError>>,
) -> Seq<char> {
    match looked_up {
        None => "Invalid airport code pattern: "@ + pattern
            + "\nAirport codes should be 3 letters (IATA) or 4 letters (ICAO).\nExamples: JFK, LAX, LHR, KJFK, KLAX, EGLL"@,
        Some(Err(_)) => "No flights found for pattern: "@ + pattern
            + "\nPlease try a valid airport code (e.g., JFK, LAX, LHR)"@,
        Some(Ok(v)) => if v.len() == 0 {
            "No flights found for airport pattern: "@ + pattern
                + "\nTry using a complete 3-letter IATA code (e.g., JFK, LAX) \nor 4-letter ICAO code (e.g., KJFK, KLAX)"@
        } else {
            "Found "@ + decimal(v.len()) + " flights matching pattern '"@ + pattern + "':\n\n"@
                + pattern_lines(if v.len() > 10 { v.take(10) } else { v }) + if v.len() > 10 {
                "\n... and "@ + decimal((v.len() - 10) as nat) + " more flights"@
            } else {
                Seq::empty()
            }
        },
    }
}

fn write_pattern_line(f: &Flight) -> (r: String)
    requires
        times_in_range(*f),
    ensures
        r@ == pattern_line(*f),
{
    let departure = format_utc(f.departure_time, "%Y-%m-%d %H:%M UTC").unwrap();
    let mut r = concat3(f.flight_number.as_str(), ": ", f.departure.as_str());
    r.append(" → ");
    r.append(f.arrival.as_str());
    r.append(" (Departs: ");
    r.append(departure.as_str());
    r.append(")\n");
    r
}

/// The answer of the pattern search, given what the lookup of `pattern_search_code` found
/// (`None` when that code is absent and nothing was looked up).
pub fn pattern_search_answer(
    request: &SearchFlightsByPatternRequest,
    looked_up: Option<Result<Vec<Flight>, BabelServiceError>>,
) -> (r: String)
    requires
        looked_up matches Some(Ok(v)) ==> forall|i: int|
            0 <= i < v@.len() ==> times_in_range(#[trigger] v@[i]),
    ensures
        r@ == pattern_answer_spec(
            request.pattern@,
            match looked_up {
                None => None,
                Some(Ok(v)) => Some(Ok(v@)),
                Some(Err(e)) => Some(Err(e)),
            },
        ),
{
    let pattern = request.pattern.as_str();
    match looked_up {
        None => concat3(
            "Invalid airport code pattern: ",
            pattern,
            "\nAirport codes should be 3 letters (IATA) or 4 letters (ICAO).\nExamples: JFK, LAX, LHR, KJFK, KLAX, EGLL",
        ),
        Some(Err(_)) => concat3(
            "No flights found for pattern: ",
            pattern,
            "\nPlease try a valid airport code (e.g., JFK, LAX, LHR)",
        ),
        Some(Ok(v)) => {
            if v.len() == 0 {
                return concat3(
                    "No flights found for airport pattern: ",
                    pattern,
                    "\nTry using a complete 3-letter IATA code (e.g., JFK, LAX) \nor 4-letter ICAO code (e.g., KJFK, KLAX)",
                );
            }
            let count = decimal_text(v.len() as u64);
            let mut r = concat3("Found ", count.as_str(), " flights matching pattern '");
            r.append(pattern);
            r.append("':\n\n");
            let shown: usize = if v.len() > 10 { 10 } else { v.len() };
            let ghost picked = if v@.len() > 10 { v@.take(10) } else { v@ };
            let ghost head = r@;
            let mut i: usize = 0;
            while i < shown
                invariant
                    shown <= v@.len(),
                    picked == (if v@.len() > 10 { v@.take(10) } else { v@ }),
                    shown == picked.len(),
                    i <= shown,
                    forall|k: int| 0 <= k < v@.len() ==> times_in_range(#[trigger] v@[k]),
                    r@ == head + pattern_lines(picked.take(i as int)),
                decreases shown - i,
            {
                let line = write_pattern_line(&v[i]);
                r.append(line.as_str());
                proof {
                    assert(picked[i as int] == v@[i as int]);
                    assert(picked.take(i + 1).drop_last() =~= picked.take(i as int));
                }
                i = i + 1;
            }
            assert(picked.take(shown as int) =~= picked);
            if v.len() > 10 {
                let rest = decimal_text((v.len() - 10) as u64);
                r.append("\n... and ");
                r.append(rest.as_str());
                r.append(" more flights");
            }
            r
        },
    }
}

} // verus!
