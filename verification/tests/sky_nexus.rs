use sky_tracer_demo::airports::{
    airport_by_code_outcome, airports_outcome, blank_query_answer, choice_fallback, choice_prompt,
    match_airports, normalize_choice, resolve_airport_query, select_airport, settle_airport_choice,
    AirportChoice, AirportLabel, AirportServiceError, ChoiceFailure, ElicitationOutcome,
    GetAirportRequest, QueryResolution, ResolveAirportRequest, SelectedAirportCode,
};
use sky_tracer_demo::babel::{
    airport_flights_answer, flight_position_failure_text, flight_position_outcome,
    flights_by_airport_outcome, pattern_search_answer, pattern_search_code, BabelServiceError,
    GetFlightPositionRequest, GetFlightsByAirportRequest, SearchFlightsByPatternRequest,
};
use sky_tracer_demo::datetime::{
    aviation_times, compare_timezones, current_datetime, current_datetime_plan, datetime_text,
    DateTimeConfig, DateTimeResponse, DateTimeServiceError, GetDateTimeQuery,
    TimezoneComparisonRequest, ZoneRelation,
};
use sky_tracer_demo::flights::{
    created_flight_text, dashboard_flights, dashboard_rows, draft_flight, find_flight_by_number,
    flight_details, flight_from_tool_request, flight_list_outcome, flight_row, flights_listing,
    format_utc, CreateFlightToolRequest, Flight, FlightDashboardRequest, FlightServiceError,
    ListFlightsToolRequest,
};
use sky_tracer_demo::mcp::{
    airport_uri, invalid_uri_message, list_resource_templates, list_resources, parse_code,
    route_tool, ToolGroup,
};
use sky_tracer_demo::network_map::{map_pins, map_routes, map_title, FlightMapRequest, RoutePlan};
use sky_tracer_demo::prompts::{
    airport_briefing, aviation_network_overview, delay_investigation, flight_route_analysis,
    AirportBriefingParams, DelayInvestigationParams, FlightRouteParams,
};
use sky_tracer_demo::satellite::{Satellite, SatelliteStatus};
use sky_tracer_demo::text::{plus_decimal_text, signed_decimal_text};
use sky_tracer_demo::beacon::CreateSatelliteForm;
use sky_tracer_demo::tools::{
    created_text, describe_satellite, position_tool_request, satellites_listing, tool_status,
    updated_text, CalculatePositionToolRequest, CreateSatelliteToolRequest,
};

const JAN_15_NOON: i64 = 1705320000;
const JUL_1_MIDNIGHT: i64 = 1719792000;

fn flight(number: &str, departure: &str, arrival: &str, departure_time: i64, arrival_time: Option<i64>) -> Flight {
    Flight {
        flight_number: number.to_string(),
        aircraft_number: format!("D-{}", number),
        departure: departure.to_string(),
        arrival: arrival.to_string(),
        departure_time,
        arrival_time,
    }
}

fn labels() -> Vec<AirportLabel> {
    vec![
        AirportLabel { code: "FRA".to_string(), name: "Frankfurt Airport".to_string() },
        AirportLabel { code: "LHR".to_string(), name: "London Heathrow".to_string() },
        AirportLabel { code: "LGW".to_string(), name: "London Gatwick".to_string() },
        AirportLabel { code: "HHN".to_string(), name: "Frankfurt-Hahn".to_string() },
    ]
}

// ── MCP routing and resources ────────────────────────────────────────────────

#[test]
fn tools_are_routed_to_their_group() {
    assert_eq!(route_tool("get_airport"), Ok(ToolGroup::Airports));
    assert_eq!(route_tool("search_flights_by_route"), Ok(ToolGroup::Flights));
    assert_eq!(route_tool("calculate_position"), Ok(ToolGroup::Satellites));
    assert_eq!(route_tool("compare_timezones"), Ok(ToolGroup::DateTime));
    assert_eq!(route_tool("get_timezone_difference"), Ok(ToolGroup::DateTime));
    assert_eq!(route_tool("search_flights_by_airport_pattern"), Ok(ToolGroup::Babel));
    assert_eq!(route_tool("generate_flight_map"), Ok(ToolGroup::FlightMap));
    assert_eq!(route_tool("launch_rocket"), Err("unknown tool: launch_rocket".to_string()));
    assert_eq!(route_tool(""), Err("unknown tool: ".to_string()));
}

#[test]
fn airport_uris_read_back() {
    assert_eq!(airport_uri("FRA"), "airports://FRA");
    assert_eq!(parse_code(&airport_uri("LHR")), Some("LHR".to_string()));
    assert_eq!(parse_code("airports://"), None);
    assert_eq!(parse_code("airport://FRA"), None);
    assert_eq!(parse_code("http://FRA"), None);
    assert_eq!(parse_code("airports://ünï"), Some("ünï".to_string()));
    assert_eq!(
        invalid_uri_message("x://y"),
        "Invalid URI 'x://y'. Expected format: airports://{IATA_CODE}"
    );
}

#[test]
fn featured_airports_are_listed_as_resources() {
    let resources = list_resources();
    assert_eq!(resources.len(), 8);
    assert_eq!(resources[0].uri, "airports://FRA");
    assert_eq!(resources[0].name, "Frankfurt Airport");
    assert_eq!(resources[0].title, "Frankfurt Airport (FRA)");
    assert_eq!(resources[0].description, "Live data for Frankfurt Airport airport (IATA: FRA)");
    assert_eq!(resources[0].mime_type, "application/json");
    assert_eq!(resources[7].uri, "airports://HND");
    assert_eq!(resources[7].name, "Tokyo Haneda");
    let template = list_resource_templates();
    assert_eq!(template.uri, "airports://{code}");
    assert_eq!(template.name, "Airport by IATA code");
    assert_eq!(template.description, "Fetch live airport data by IATA code. Example: airports://FRA");
}

// ── Date and time ───────────────────────────────────────────────────────────

#[test]
fn datetime_config_defaults_and_builders() {
    let c = DateTimeConfig::new();
    assert_eq!(c.timezone(), "UTC");
    assert_eq!(c.format(), "%Y-%m-%dT%H:%M:%S%:z");
    let c = DateTimeConfig::new()
        .with_timezone("Europe/Berlin".to_string())
        .with_format("%H:%M".to_string());
    assert_eq!(c.timezone(), "Europe/Berlin");
    assert_eq!(c.format(), "%H:%M");
    let c = DateTimeConfig::from(GetDateTimeQuery { timezone: Some("Asia/Tokyo".to_string()), format: None });
    assert_eq!(c.timezone(), "Asia/Tokyo");
    assert_eq!(c.format(), "%Y-%m-%dT%H:%M:%S%:z");
    let d = DateTimeConfig::default();
    assert_eq!(d.timezone, None);
    assert_eq!(d.format, None);
}

#[test]
fn zones_are_known_and_have_offsets() {
    let offset = |zone: &str, now: i64| {
        let config = DateTimeConfig::new().with_timezone(zone.to_string());
        current_datetime_plan(&config, now).map(|p| p.utc_offset)
    };
    assert_eq!(offset("America/New_York", JAN_15_NOON).unwrap(), -18000);
    assert_eq!(offset("America/New_York", JUL_1_MIDNIGHT).unwrap(), -14400);
    assert_eq!(offset("Asia/Tokyo", JAN_15_NOON).unwrap(), 32400);
    assert!(offset("Mars/Olympus_Mons", JAN_15_NOON).is_err());
}

#[test]
fn datetime_plan_follows_the_zone() {
    let plan = current_datetime_plan(&DateTimeConfig::new(), JAN_15_NOON).unwrap();
    assert_eq!(plan.timezone, "UTC");
    assert_eq!(plan.format, "%Y-%m-%dT%H:%M:%S%:z");
    assert!(!plan.zone_formatted);
    assert_eq!(plan.utc_offset, 0);

    let config = DateTimeConfig::new().with_timezone("America/New_York".to_string());
    let plan = current_datetime_plan(&config, JAN_15_NOON).unwrap();
    assert_eq!(plan.format, "%Y-%m-%dT%H:%M:%S%:z");
    assert!(plan.zone_formatted);
    assert_eq!(plan.utc_offset, -18000);

    let config = DateTimeConfig::new().with_timezone("Nowhere/Land".to_string());
    match current_datetime_plan(&config, JAN_15_NOON) {
        Err(DateTimeServiceError::InvalidTimezone(m)) => assert_eq!(
            m,
            "Invalid timezone: Nowhere/Land. Examples: UTC, America/New_York, Europe/London"
        ),
        other => panic!("unexpected {:?}", other),
    }
}

#[test]
fn current_datetime_reports_the_instant() {
    let query = GetDateTimeQuery { timezone: Some("America/New_York".to_string()), format: None };
    let resp = current_datetime(query, JAN_15_NOON).unwrap().unwrap();
    assert_eq!(resp.formatted_time, "2024-01-15T07:00:00-05:00");
    assert_eq!(resp.timezone, "America/New_York");
    assert_eq!(resp.unix_timestamp, JAN_15_NOON);
    assert_eq!(resp.iso_week, 3);
    assert_eq!(resp.day_of_year, 15);
    assert_eq!(resp.utc_offset, -18000);
    assert_eq!(
        datetime_text(&resp),
        "Current date and time: 2024-01-15T07:00:00-05:00\nTimezone: America/New_York\nUnix timestamp: 1705320000\nISO week: 3\nDay of year: 15\nUTC offset: -18000 seconds"
    );

    let query = GetDateTimeQuery { timezone: None, format: Some("%d.%m.%Y".to_string()) };
    let resp = current_datetime(query, JAN_15_NOON).unwrap().unwrap();
    assert_eq!(resp.formatted_time, "15.01.2024");
    assert_eq!(resp.timezone, "UTC");
    assert_eq!(resp.utc_offset, 0);
    assert!(datetime_text(&resp).ends_with("UTC offset: +0 seconds"));

    let query = GetDateTimeQuery { timezone: None, format: Some("%Q".to_string()) };
    assert!(matches!(current_datetime(query, JAN_15_NOON), Ok(None)));

    let query = GetDateTimeQuery { timezone: Some("Atlantis/Main".to_string()), format: None };
    let e = current_datetime(query, JAN_15_NOON).unwrap_err();
    assert_eq!(e.http_status(), 400);
    assert_eq!(
        e.message(),
        "Invalid timezone: Invalid timezone: Atlantis/Main. Examples: UTC, America/New_York, Europe/London"
    );
    assert_eq!(DateTimeServiceError::ParseError("x".to_string()).http_status(), 500);
}

#[test]
fn instants_are_written_and_placed_in_the_calendar() {
    assert_eq!(format_utc(1709296200, "%Y-%m-%d %H:%M UTC"), Some("2024-03-01 12:30 UTC".to_string()));
    assert_eq!(format_utc(JAN_15_NOON, "%Y-%m-%d %H:%M:%S"), Some("2024-01-15 12:00:00".to_string()));
    assert_eq!(format_utc(i64::MAX, "%Y"), None);
    assert_eq!(format_utc(JAN_15_NOON, "%Q"), None);
    let zoned = GetDateTimeQuery { timezone: Some("Asia/Tokyo".to_string()), format: Some("%H:%M %Z".to_string()) };
    assert_eq!(current_datetime(zoned, JAN_15_NOON).unwrap().unwrap().formatted_time, "21:00 JST");
    let last_day = current_datetime(GetDateTimeQuery { timezone: None, format: None }, 1735689540).unwrap().unwrap();
    assert_eq!((last_day.iso_week, last_day.day_of_year), (1, 366));
    let june = current_datetime(GetDateTimeQuery { timezone: None, format: None }, 1748851500).unwrap().unwrap();
    assert_eq!((june.iso_week, june.day_of_year), (23, 153));
    assert_eq!(june.formatted_time, "2025-06-02T08:05:00+00:00");
    let utc_default = chrono::DateTime::from_timestamp(1748851500, 0).unwrap().to_rfc3339();
    assert_eq!(june.formatted_time, utc_default);
}

#[test]
fn signed_numbers_are_written_like_display() {
    assert_eq!(signed_decimal_text(0), "0");
    assert_eq!(signed_decimal_text(-42), "-42");
    assert_eq!(signed_decimal_text(i64::MIN), "-9223372036854775808");
    assert_eq!(plus_decimal_text(0), "+0");
    assert_eq!(plus_decimal_text(3600), "+3600");
    assert_eq!(plus_decimal_text(-3600), "-3600");
    assert_eq!(plus_decimal_text(i64::MAX), format!("{:+}", i64::MAX));
}

#[test]
fn timezones_are_compared() {
    let request = TimezoneComparisonRequest {
        from_timezone: "America/New_York".to_string(),
        to_timezone: "Europe/London".to_string(),
    };
    let c = compare_timezones(&request, JAN_15_NOON).unwrap();
    assert_eq!(c.from.utc_offset, -18000);
    assert_eq!(c.to.utc_offset, 0);
    assert_eq!(c.difference_seconds, 18000);
    assert_eq!(c.relation, ZoneRelation::Ahead);
    assert_eq!(c.from.local_time, "2024-01-15 07:00:00");
    assert_eq!(c.from.abbreviation, "EST");
    assert_eq!(c.to.abbreviation, "GMT");
    assert!(!c.from.is_utc);

    let request = TimezoneComparisonRequest { from_timezone: "UTC".to_string(), to_timezone: "America/Chicago".to_string() };
    let c = compare_timezones(&request, JAN_15_NOON).unwrap();
    assert_eq!(c.relation, ZoneRelation::Behind);
    assert_eq!(c.difference_seconds, -21600);
    assert_eq!(c.from.abbreviation, "UTC");
    assert_eq!(c.from.local_time, "2024-01-15 12:00:00");
    assert!(c.from.is_utc);

    let request = TimezoneComparisonRequest { from_timezone: "UTC".to_string(), to_timezone: "Etc/UTC".to_string() };
    assert_eq!(compare_timezones(&request, JAN_15_NOON).unwrap().relation, ZoneRelation::Same);

    let request = TimezoneComparisonRequest { from_timezone: "Bad/Zone".to_string(), to_timezone: "Worse/Zone".to_string() };
    match compare_timezones(&request, JAN_15_NOON) {
        Err(DateTimeServiceError::InvalidTimezone(m)) => assert_eq!(m, "Invalid from_timezone: Bad/Zone"),
        other => panic!("unexpected {:?}", other),
    }
    let request = TimezoneComparisonRequest { from_timezone: "UTC".to_string(), to_timezone: "Worse/Zone".to_string() };
    match compare_timezones(&request, JAN_15_NOON) {
        Err(DateTimeServiceError::InvalidTimezone(m)) => assert_eq!(m, "Invalid to_timezone: Worse/Zone"),
        other => panic!("unexpected {:?}", other),
    }
}

#[test]
fn comparison_either_way_gives_opposite_differences() {
    let ab = TimezoneComparisonRequest { from_timezone: "Asia/Tokyo".to_string(), to_timezone: "Europe/Paris".to_string() };
    let ba = TimezoneComparisonRequest { from_timezone: "Europe/Paris".to_string(), to_timezone: "Asia/Tokyo".to_string() };
    let x = compare_timezones(&ab, JUL_1_MIDNIGHT).unwrap();
    let y = compare_timezones(&ba, JUL_1_MIDNIGHT).unwrap();
    assert_eq!(x.difference_seconds, -y.difference_seconds);
    assert_eq!(x.relation, ZoneRelation::Behind);
    assert_eq!(y.relation, ZoneRelation::Ahead);
}

#[test]
fn aviation_board_lists_every_hub() {
    let board = aviation_times(JAN_15_NOON);
    assert_eq!(board.len(), 12);
    assert_eq!(board[0].name, "UTC");
    assert_eq!(board[0].utc_offset, 0);
    assert_eq!(board[0].abbreviation, "UTC");
    assert_eq!(board[0].local_time, "2024-01-15 12:00:00");
    assert_eq!(board[1].name, "New York (JFK/LGA/EWR)");
    assert_eq!(board[1].timezone, "America/New_York");
    assert_eq!(board[1].utc_offset, -18000);
    assert_eq!(board[1].abbreviation, "EST");
    assert_eq!(board[9].name, "Sydney (SYD)");
    assert_eq!(board[9].utc_offset, 39600);
    assert_eq!(board[11].name, "Singapore (SIN)");
    assert_eq!(board[11].utc_offset, 28800);
}

#[test]
fn a_response_is_written_for_each_plan() {
    let resp = DateTimeResponse {
        formatted_time: "now".to_string(),
        timezone: "UTC".to_string(),
        unix_timestamp: -5,
        iso_week: 52,
        day_of_year: 365,
        utc_offset: 19800,
    };
    assert_eq!(
        datetime_text(&resp),
        "Current date and time: now\nTimezone: UTC\nUnix timestamp: -5\nISO week: 52\nDay of year: 365\nUTC offset: +19800 seconds"
    );
}

// ── Aggregation service (Tower of Babel) ────────────────────────────────────

#[test]
fn babel_answers_become_outcomes() {
    let ok: Result<Vec<u8>, String> = Ok(vec![1, 2]);
    assert_eq!(flights_by_airport_outcome("FRA", 200, "", ok, "-").unwrap(), vec![1, 2]);
    let bad: Result<Vec<u8>, String> = Err("eof".to_string());
    match flights_by_airport_outcome("FRA", 200, "", bad, "-") {
        Err(BabelServiceError::ParseError(m)) => assert_eq!(m, "JSON parse error: eof"),
        other => panic!("unexpected {:?}", other),
    }
    match flights_by_airport_outcome::<u8>("FRA", 404, "{\"code\":\"NO_FUTURE_FLIGHTS\"}", Ok(vec![]), "-") {
        Err(BabelServiceError::NoFutureFlights(c)) => assert_eq!(c, "FRA"),
        other => panic!("unexpected {:?}", other),
    }
    match flights_by_airport_outcome::<u8>("XXX", 404, "nothing", Ok(vec![]), "-") {
        Err(BabelServiceError::NotFound(m)) => assert_eq!(m, "Airport XXX not found or no data available"),
        other => panic!("unexpected {:?}", other),
    }
    match flights_by_airport_outcome::<u8>("FRA", 503, "", Ok(vec![]), "HTTP status server error (503)") {
        Err(BabelServiceError::Network(m)) => assert_eq!(m, "HTTP status server error (503)"),
        other => panic!("unexpected {:?}", other),
    }
    let lh1 = GetFlightPositionRequest { flight_number: "LH1".to_string() };
    match flight_position_outcome::<u8>(&lh1, 404, Ok(0), "-") {
        Err(e) => {
            assert_eq!(e.message(), "Not found: Flight LH1 not found or not currently in flight");
            assert_eq!(
                flight_position_failure_text(&e).unwrap(),
                "Flight not found: Flight LH1 not found or not currently in flight\nPlease check the flight number and try again.\nExamples of valid flight numbers: AA123, BA456, LH789"
            );
        }
        other => panic!("unexpected {:?}", other),
    }
    assert_eq!(flight_position_outcome::<u8>(&lh1, 200, Ok(7), "-").unwrap(), 7);
    assert!(flight_position_failure_text(&BabelServiceError::Network("x".to_string())).is_none());
}

#[test]
fn flights_at_an_airport_are_listed() {
    let req = GetFlightsByAirportRequest { airport_code: "FRA".to_string() };
    let flights = vec![
        flight("LH1", "FRA", "LIS", 1709296200, Some(1709303400)),
        flight("LH2", "FRA", "JFK", 1709296200, None),
    ];
    let text = airport_flights_answer(&req, Ok(flights)).unwrap();
    assert_eq!(
        text,
        "Found 2 future flights for airport FRA:\n\nFlight: LH1\nAircraft: D-LH1\nRoute: FRA → LIS\nDeparture: 2024-03-01 12:30 UTC\nArrival: 2024-03-01 14:30 UTC\nStatus: Future Flight\n\nFlight: LH2\nAircraft: D-LH2\nRoute: FRA → JFK\nDeparture: 2024-03-01 12:30 UTC\nArrival: TBD\nStatus: Future Flight\n\n"
    );
    assert_eq!(
        airport_flights_answer(&req, Ok(vec![])).unwrap(),
        "No future flights found for airport: FRA\nThis could mean:\n- No flights are currently scheduled\n- All scheduled flights have already departed\n- The airport code may be incorrect"
    );
    assert_eq!(
        airport_flights_answer(&req, Err(BabelServiceError::NotFound("gone".to_string()))).unwrap(),
        "Airport not found: gone\nPlease check the airport code and try again.\nExamples of valid codes: JFK, LAX, LHR, CDG, NRT"
    );
    assert_eq!(
        airport_flights_answer(&req, Err(BabelServiceError::NoFutureFlights("FRA".to_string()))).unwrap(),
        "No future flights found for airport: FRA\nAll scheduled flights may have already departed or \nno flights are currently scheduled from this airport."
    );
    assert!(matches!(
        airport_flights_answer(&req, Err(BabelServiceError::Network("down".to_string()))),
        Err(BabelServiceError::Network(_))
    ));
}

#[test]
fn pattern_search_lists_ten_at_most() {
    let req = SearchFlightsByPatternRequest { pattern: "fra".to_string() };
    assert_eq!(pattern_search_code(&req), Some("FRA".to_string()));
    let long = SearchFlightsByPatternRequest { pattern: "FRANK".to_string() };
    assert_eq!(pattern_search_code(&long), None);
    assert_eq!(
        pattern_search_answer(&long, None),
        "Invalid airport code pattern: FRANK\nAirport codes should be 3 letters (IATA) or 4 letters (ICAO).\nExamples: JFK, LAX, LHR, KJFK, KLAX, EGLL"
    );
    // "äb" is three bytes long, so it is looked up.
    assert_eq!(pattern_search_code(&SearchFlightsByPatternRequest { pattern: "äb".to_string() }), Some("ÄB".to_string()));

    let flights: Vec<Flight> = (0..12)
        .map(|i| flight(&format!("LH{}", i), "FRA", "LIS", 1709296200 + i * 60, None))
        .collect();
    let text = pattern_search_answer(&req, Some(Ok(flights)));
    assert!(text.starts_with("Found 12 flights matching pattern 'fra':\n\nLH0: FRA → LIS (Departs: 2024-03-01 12:30 UTC)\nLH1: FRA → LIS (Departs: 2024-03-01 12:31 UTC)\n"));
    assert!(text.contains("LH9: FRA → LIS (Departs: 2024-03-01 12:39 UTC)\n"));
    assert!(!text.contains("LH10:"));
    assert!(text.ends_with("\n... and 2 more flights"));
    assert_eq!(
        pattern_search_answer(&req, Some(Ok(vec![]))),
        "No flights found for airport pattern: fra\nTry using a complete 3-letter IATA code (e.g., JFK, LAX) \nor 4-letter ICAO code (e.g., KJFK, KLAX)"
    );
    assert_eq!(
        pattern_search_answer(&req, Some(Err(BabelServiceError::Network("x".to_string())))),
        "No flights found for pattern: fra\nPlease try a valid airport code (e.g., JFK, LAX, LHR)"
    );
}

// ── Airports ────────────────────────────────────────────────────────────────

#[test]
fn airport_answers_become_outcomes() {
    let ok: Result<Vec<u8>, String> = Ok(vec![3]);
    assert_eq!(airports_outcome(true, ok, "-").unwrap(), vec![3]);
    match airports_outcome::<u8>(false, Ok(vec![]), "HTTP status client error (404 Not Found)") {
        Err(AirportServiceError::Network(m)) => assert_eq!(m, "HTTP status client error (404 Not Found)"),
        other => panic!("unexpected {:?}", other),
    }
    assert_eq!(airport_by_code_outcome(&GetAirportRequest { code: "FRA".to_string() }, true, Ok(vec![7u8, 8]), "-").unwrap(), 7);
    let e = airport_by_code_outcome::<u8>(&GetAirportRequest { code: "XYZ".to_string() }, true, Ok(vec![]), "-").unwrap_err();
    assert_eq!(e.message(), "Airport not found: Airport with code XYZ not found");
    assert_eq!(e.http_status(), 404);
    assert_eq!(AirportServiceError::Network("x".to_string()).http_status(), 500);
    match airport_by_code_outcome::<u8>(&GetAirportRequest { code: "FRA".to_string() }, true, Err("bad json".to_string()), "-") {
        Err(AirportServiceError::Network(m)) => assert_eq!(m, "bad json"),
        other => panic!("unexpected {:?}", other),
    }
}

#[test]
fn airport_queries_are_matched_by_code_or_name() {
    let labels = labels();
    assert_eq!(match_airports("FRANKFURT", &labels), vec![0, 3]);
    assert_eq!(match_airports("LONDON", &labels), vec![1, 2]);
    assert_eq!(match_airports("H", &labels), vec![1, 3]);
    assert_eq!(match_airports("ZZZ", &labels), Vec::<usize>::new());
    let many: Vec<AirportLabel> = (0..20)
        .map(|i| AirportLabel { code: format!("A{:02}", i), name: "Alpha".to_string() })
        .collect();
    assert_eq!(match_airports("ALPHA", &many), (0..12).collect::<Vec<usize>>());
}

#[test]
fn airport_queries_resolve() {
    let labels = labels();
    match resolve_airport_query(&ResolveAirportRequest { query: "   ".to_string() }, &labels) {
        QueryResolution::Blank(t) => assert_eq!(t, "Please provide a non-empty airport query."),
        other => panic!("unexpected {:?}", other),
    }
    match resolve_airport_query(&ResolveAirportRequest { query: " zurich ".to_string() }, &labels) {
        QueryResolution::NoMatch(t) => assert_eq!(t, "No airports found matching 'zurich'."),
        other => panic!("unexpected {:?}", other),
    }
    match resolve_airport_query(&ResolveAirportRequest { query: "heathrow".to_string() }, &labels) {
        QueryResolution::Single(i) => assert_eq!(i, 1),
        other => panic!("unexpected {:?}", other),
    }
    match resolve_airport_query(&ResolveAirportRequest { query: "frank".to_string() }, &labels) {
        QueryResolution::Several(picks, t) => {
            assert_eq!(picks, vec![0, 3]);
            assert_eq!(
                t,
                "Multiple airports match 'frank'. Choose one airport_code from:\n- Frankfurt Airport (FRA)\n- Frankfurt-Hahn (HHN)"
            );
            assert_eq!(
                choice_fallback("frank", &labels, &picks),
                "Multiple matches for 'frank'. Client does not support elicitation.\nCall get_airport with one of:\n- FRA\n- HHN"
            );
            assert_eq!(choice_prompt("frank", &labels, &picks), t);
            let chosen = select_airport(&SelectedAirportCode { airport_code: " hhn ".to_string() }, &labels, &picks);
            assert_eq!(chosen, Ok(3));
            let refused = select_airport(&SelectedAirportCode { airport_code: "lhr".to_string() }, &labels, &picks);
            assert_eq!(refused, Err("Invalid airport_code 'LHR'. Choose one of: FRA, HHN".to_string()));
        }
        other => panic!("unexpected {:?}", other),
    }
    assert_eq!(normalize_choice("  fra\n"), "FRA");
}

#[test]
fn blank_queries_are_answered_before_any_lookup() {
    let blank = ResolveAirportRequest { query: " \t ".to_string() };
    assert_eq!(blank_query_answer(&blank), Some("Please provide a non-empty airport query.".to_string()));
    let real = ResolveAirportRequest { query: " fra ".to_string() };
    assert_eq!(blank_query_answer(&real), None);
}

#[test]
fn the_users_answer_settles_the_airport() {
    let labels = labels();
    let request = ResolveAirportRequest { query: "  frank ".to_string() };
    let picks = vec![0, 3];
    let picked = ElicitationOutcome::Selected(SelectedAirportCode { airport_code: "hhn".to_string() });
    assert!(matches!(settle_airport_choice(&request, &labels, &picks, picked), Ok(AirportChoice::Chosen(3))));
    let wrong = ElicitationOutcome::Selected(SelectedAirportCode { airport_code: "lhr".to_string() });
    match settle_airport_choice(&request, &labels, &picks, wrong) {
        Err(ChoiceFailure::InvalidAirportCode(m)) => assert_eq!(m, "Invalid airport_code 'LHR'. Choose one of: FRA, HHN"),
        other => panic!("unexpected {:?}", other),
    }
    match settle_airport_choice(&request, &labels, &picks, ElicitationOutcome::NotSupported) {
        Ok(AirportChoice::Answer(t)) => assert_eq!(
            t,
            "Multiple matches for 'frank'. Client does not support elicitation.\nCall get_airport with one of:\n- FRA\n- HHN"
        ),
        other => panic!("unexpected {:?}", other),
    }
    match settle_airport_choice(&request, &labels, &picks, ElicitationOutcome::NoSelection) {
        Ok(AirportChoice::Answer(t)) => assert_eq!(t, "No airport was selected."),
        other => panic!("unexpected {:?}", other),
    }
    match settle_airport_choice(&request, &labels, &picks, ElicitationOutcome::Declined) {
        Ok(AirportChoice::Answer(t)) => assert_eq!(t, "Airport selection cancelled."),
        other => panic!("unexpected {:?}", other),
    }
    match settle_airport_choice(&request, &labels, &picks, ElicitationOutcome::Failed("broken pipe".to_string())) {
        Err(ChoiceFailure::SelectionFailed(m)) => assert_eq!(m, "broken pipe"),
        other => panic!("unexpected {:?}", other),
    }
}

// ── Flights ─────────────────────────────────────────────────────────────────

#[test]
fn flight_lists_are_read_from_the_answer() {
    assert_eq!(flight_list_outcome("  \n", Err("ignored".to_string())).unwrap().len(), 0);
    let one = vec![flight("LH1", "FRA", "LIS", 0, None)];
    assert_eq!(flight_list_outcome("[...]", Ok(one)).unwrap()[0].flight_number, "LH1");
    match flight_list_outcome("oops", Err("expected value".to_string())) {
        Err(e) => {
            assert_eq!(e.message(), "Parse error: JSON parse error: expected value, response: oops");
            assert_eq!(e.http_status(), 500);
            assert_eq!(e.lookup_http_status(), 500);
        }
        Ok(_) => panic!("expected an error"),
    }
    assert_eq!(FlightServiceError::Network("down".to_string()).http_status(), 502);
    assert_eq!(FlightServiceError::NotFound("x".to_string()).http_status(), 404);
    assert_eq!(FlightServiceError::NotFound("x".to_string()).lookup_http_status(), 404);
    assert_eq!(FlightServiceError::Network("down".to_string()).message(), "Network error: down");
}

#[test]
fn flights_are_found_by_number() {
    let flights = vec![
        flight("LH1", "FRA", "LIS", 0, None),
        flight("LH2", "FRA", "JFK", 0, None),
        flight("LH2", "MUC", "JFK", 0, None),
    ];
    let found = find_flight_by_number(&flights, "LH2").unwrap();
    assert_eq!(found.departure, "FRA");
    match find_flight_by_number(&flights, "LH9") {
        Err(FlightServiceError::NotFound(m)) => assert_eq!(m, "Flight LH9 not found"),
        other => panic!("unexpected {:?}", other),
    }
}

#[test]
fn flight_listing_filters() {
    let flights = vec![
        flight("LH1", "FRA", "LIS", 1709296200, None),
        flight("LH2", "fra", "JFK", 1705320000, None),
        flight("BA3", "LHR", "FRA", 1709296200, None),
    ];
    let none = ListFlightsToolRequest { departure: None, arrival: None, date: None };
    assert_eq!(none.apply(&flights).len(), 3);
    let by_departure = ListFlightsToolRequest { departure: Some("Fr".to_string()), arrival: None, date: None };
    let kept: Vec<String> = by_departure.apply(&flights).into_iter().map(|f| f.flight_number).collect();
    assert_eq!(kept, vec!["LH1", "LH2"]);
    let by_date = ListFlightsToolRequest { departure: None, arrival: None, date: Some("2024-03-01".to_string()) };
    let kept: Vec<String> = by_date.apply(&flights).into_iter().map(|f| f.flight_number).collect();
    assert_eq!(kept, vec!["LH1", "BA3"]);
    let both = ListFlightsToolRequest { departure: Some("lhr".to_string()), arrival: Some("fra".to_string()), date: None };
    assert!(both.keeps(&flights[2]));
    assert!(!both.keeps(&flights[0]));

    let dashboard = FlightDashboardRequest { departure: Some("fra".to_string()), arrival: Some("jf".to_string()) };
    let kept = dashboard_flights(&flights, &dashboard);
    assert_eq!(kept.len(), 1);
    assert_eq!(kept[0].flight_number, "LH2");
}

#[test]
fn flights_are_written_out() {
    let f = flight("LH1", "FRA", "LIS", 1709296200, Some(1709303400));
    let row = flight_row(&f);
    assert_eq!(row.departure_time, "2024-03-01 12:30 UTC");
    assert_eq!(row.arrival_time, "2024-03-01 14:30 UTC");
    assert_eq!(row.aircraft_number, "D-LH1");
    let g = flight("LH2", "FRA", "JFK", 1709296200, None);
    assert_eq!(flight_row(&g).arrival_time, "TBD");
    let rows = dashboard_rows(&vec![f.clone(), g.clone()], &FlightDashboardRequest { departure: None, arrival: Some("jfk".to_string()) });
    assert_eq!(rows.len(), 1);
    assert_eq!(rows[0].flight_number, "LH2");

    assert_eq!(flights_listing(&vec![]), "No flights found matching the criteria.");
    assert_eq!(
        flights_listing(&vec![f.clone()]),
        "Found 1 flights:\n\nFlight: LH1\nAircraft: D-LH1\nRoute: FRA → LIS\nDeparture: 2024-03-01 12:30 UTC\nArrival: 2024-03-01 14:30 UTC\n\n"
    );
    assert_eq!(
        flight_details(&g),
        "Flight Details:\nFlight Number: LH2\nAircraft: D-LH2\nRoute: FRA → JFK\nDeparture Time: 2024-03-01 12:30 UTC\nArrival Time: TBD\nStatus: Active"
    );
    assert_eq!(
        created_flight_text(&f),
        "Flight created successfully!\nFlight Number: LH1\nAircraft: D-LH1\nRoute: FRA → LIS\nDeparture: 2024-03-01 12:30 UTC\nArrival: 2024-03-01 14:30 UTC"
    );
}

#[test]
fn new_flights_get_a_stand_in_number() {
    let d = draft_flight("D-ABCD".to_string(), "FRA".to_string(), "LIS".to_string(), 10, None);
    assert_eq!(d.flight_number, "FRA0001");
    let req = CreateFlightToolRequest {
        aircraft_number: "D-ABCD".to_string(),
        departure: "MUC".to_string(),
        arrival: "LIS".to_string(),
        departure_time: "2024-03-01T12:30:00Z".to_string(),
        arrival_time: Some("2024-03-01T15:30:00+01:00".to_string()),
    };
    let f = flight_from_tool_request(req).unwrap();
    assert_eq!(f.flight_number, "MUC0001");
    assert_eq!(f.departure_time, 1709296200);
    assert_eq!(f.arrival_time, Some(1709303400));
    let req = CreateFlightToolRequest {
        aircraft_number: "D-ABCD".to_string(),
        departure: "MUC".to_string(),
        arrival: "LIS".to_string(),
        departure_time: "2024-03-01T12:30:00Z".to_string(),
        arrival_time: Some("later".to_string()),
    };
    let e = flight_from_tool_request(req).unwrap_err();
    assert_eq!(e.message, "Invalid arrival_time format");
    assert!(!e.detail.is_empty());
    let req = CreateFlightToolRequest {
        aircraft_number: "D-ABCD".to_string(),
        departure: "MUC".to_string(),
        arrival: "LIS".to_string(),
        departure_time: "now".to_string(),
        arrival_time: Some("later".to_string()),
    };
    assert_eq!(flight_from_tool_request(req).unwrap_err().message, "Invalid departure_time format");
}

// ── Flight map ──────────────────────────────────────────────────────────────

#[test]
fn the_map_marks_airports_with_routes() {
    let codes: Vec<String> = vec!["FRA", "LIS", "JFK", "FRA", "CDG"].into_iter().map(String::from).collect();
    let flights = vec![
        flight("LH1", "FRA", "LIS", 0, None),
        flight("LH2", "FRA", "XXX", 0, None),
        flight("LH3", "JFK", "LIS", 0, None),
    ];
    let routes = map_routes(&codes, &flights);
    assert_eq!(
        routes,
        vec![
            RoutePlan { flight: 0, departure: 3, arrival: 1 },
            RoutePlan { flight: 2, departure: 2, arrival: 1 },
        ]
    );
    let mut pins = map_pins(&codes, &flights);
    pins.sort();
    assert_eq!(pins, vec![1, 2, 3]);
    for r in &routes {
        assert!(pins.contains(&r.departure) && pins.contains(&r.arrival));
    }
    assert_eq!(map_title(&FlightMapRequest { airport_code: None, title: None }), "Sky Tracer Network");
    assert_eq!(map_title(&FlightMapRequest { airport_code: Some("FRA".to_string()), title: None }), "Sky Tracer — FRA");
    assert_eq!(map_title(&FlightMapRequest { airport_code: Some("FRA".to_string()), title: Some("Mine".to_string()) }), "Mine");
}

// ── Satellite tools ─────────────────────────────────────────────────────────

#[test]
fn satellite_tools_describe_satellites() {
    let s = Satellite { id: 0x67e55044_10b1_426f_9247_bb680e5fe0c8, name: "Sputnik".to_string(), status: SatelliteStatus::Active };
    assert_eq!(describe_satellite(&s), "Sputnik (ID: 67e55044-10b1-426f-9247-bb680e5fe0c8) - Status: Active");
    assert_eq!(created_text(&s), "Satellite created: Sputnik (ID: 67e55044-10b1-426f-9247-bb680e5fe0c8) - Status: Active");
    assert_eq!(updated_text(&s), "Satellite updated: Sputnik (ID: 67e55044-10b1-426f-9247-bb680e5fe0c8) - Status: Active");
    assert_eq!(satellites_listing(&vec![]), "No satellites found.");
    assert_eq!(
        satellites_listing(&vec![s]),
        "Sputnik (ID: 67e55044-10b1-426f-9247-bb680e5fe0c8) - Status: Active\n"
    );
    let form = CreateSatelliteForm::from(CreateSatelliteToolRequest { name: "Vostok".to_string() });
    assert_eq!(form.name, "Vostok");
    assert_eq!(tool_status("Maintenance"), Ok(SatelliteStatus::Maintenance));
    assert_eq!(tool_status("active"), Err("Invalid status. Must be Active, Inactive, or Maintenance.".to_string()));
}

#[test]
fn position_tool_reads_rfc3339_times() {
    let req = CalculatePositionToolRequest {
        departure: "FRA".to_string(),
        arrival: "LIS".to_string(),
        departure_time: "2024-03-01T12:30:00Z".to_string(),
        arrival_time: "2024-03-01T14:30:00Z".to_string(),
        current_time: Some("2024-03-01T13:30:00Z".to_string()),
    };
    let p = position_tool_request(&req).unwrap();
    assert_eq!(p.departure_code, "FRA");
    assert_eq!(p.departure_time, 1709296200);
    assert_eq!(p.arrival_time, 1709303400);
    assert_eq!(p.current_time, Some(1709299800));
    let bad = CalculatePositionToolRequest { current_time: Some("noon".to_string()), ..req };
    let e = position_tool_request(&bad).unwrap_err();
    assert_eq!(e.message, "Invalid current_time");
    let bad = CalculatePositionToolRequest { arrival_time: "soon".to_string(), current_time: None, ..bad };
    assert_eq!(position_tool_request(&bad).unwrap_err().message, "Invalid arrival_time");
}

// ── Prompts ─────────────────────────────────────────────────────────────────

#[test]
fn prompts_are_written() {
    let p = airport_briefing(&AirportBriefingParams { airport_code: "fra".to_string() }, None);
    assert!(p.user.contains("**Airport data:**\n```\nAirport code: fra\n```"));
    assert_eq!(p.assistant, "I'll provide a comprehensive Markdown briefing for **FRA** airport.");
    assert_eq!(p.description.as_deref(), Some("Airport briefing for FRA"));
    let p = airport_briefing(&AirportBriefingParams { airport_code: "fra".to_string() }, Some("Frankfurt".to_string()));
    assert!(p.user.contains("```\nFrankfurt\n```"));

    let params = FlightRouteParams { departure: "fra".to_string(), arrival: "lis".to_string(), date: Some("2024-03-01".to_string()) };
    let p = flight_route_analysis(&params, Some(("Frankfurt".to_string(), "FRA".to_string())), None);
    assert!(p.user.starts_with("Analyse the flight route from **Frankfurt (FRA)** to **lis** on 2024-03-01.\n\n"));
    assert_eq!(p.assistant, "I'll analyse the **FRA** → **LIS** route on 2024-03-01 in Markdown.");
    assert_eq!(p.description.as_deref(), Some("Route analysis: FRA → LIS"));

    let flights: Vec<Flight> = (0..7).map(|i| flight(&format!("LH{}", i), "FRA", "LIS", 0, None)).collect();
    let p = delay_investigation(&DelayInvestigationParams { airport_code: "fra".to_string() }, Some(flights));
    assert!(p.user.contains("Active flights at FRA:\n  - LH0 (FRA → LIS)\n"));
    assert!(p.user.contains("  - LH4 (FRA → LIS)\n```"));
    assert!(!p.user.contains("LH5"));
    assert_eq!(p.description.as_deref(), Some("Delay investigation for FRA"));
    let p = delay_investigation(&DelayInvestigationParams { airport_code: "fra".to_string() }, Some(vec![]));
    assert!(p.user.contains("```\nAirport: FRA\n```"));

    let p = aviation_network_overview();
    assert!(p.description.is_none());
    assert!(p.user.starts_with("You have access to the **Sky Tracer** aviation network via MCP."));
}
