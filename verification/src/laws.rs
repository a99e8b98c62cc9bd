use vstd::prelude::*;

use crate::beacon::{parse_status_spec, status_name};
use crate::datetime::{reading_offset, DateTimeConfig, config_format, config_zone};
use crate::flight_position::{in_progress_spec, progress_spec};
use crate::airports::{label_matches, matching_positions, AirportLabel};
use crate::babel::{byte_len, code_shaped};
use crate::datetime::chrono_range;
use crate::flight_position::FlightPositionRequest;
use crate::flights::{formatted_utc, listing_keeps, Flight, ListFlightsToolRequest};
use crate::mcp::{tool_group, uri_code, uri_prefix, ToolGroup};
use crate::text::{lowercase, occurs_at, seq_contains, uppercase};
use crate::tracking::evaluation_instant;
use crate::network_map::{lookup, pins_exact, routes_upto, used};
use crate::satellite::{SatelliteStatus, SatelliteView};
use crate::satellite_service::{keyed_by_id, with_status};

verus! {

/// Read after create: the registry holds the new satellite under its id, and every other
/// satellite is as it was.
pub proof fn law_read_after_create(before: Map<u128, SatelliteView>, s: SatelliteView)
    ensures
        ({
            let after = before.insert(s.id, s);
            &&& after.contains_key(s.id)
            &&& after[s.id] == s
            &&& forall|k: u128| k != s.id ==> (after.contains_key(k) == before.contains_key(k) && (
            before.contains_key(k) ==> after[k] == before[k]))
        }),
{
}

/// A registry keyed by id stays keyed by id when a satellite is added under its own id.
pub proof fn law_create_keeps_keys(before: Map<u128, SatelliteView>, s: SatelliteView)
    requires
        keyed_by_id(before),
    ensures
        keyed_by_id(before.insert(s.id, s)),
{
}

/// Creating a satellite under an id not yet taken adds exactly one satellite.
pub proof fn law_create_counts(before: Map<u128, SatelliteView>, s: SatelliteView)
    requires
        before.dom().finite(),
        !before.contains_key(s.id),
    ensures
        before.insert(s.id, s).dom().len() == before.dom().len() + 1,
{
}

/// Read after update: the updated satellite keeps its id and name and has the new status;
/// no satellite is added or removed, and every other satellite is as it was.
pub proof fn law_read_after_update(before: Map<u128, SatelliteView>, id: u128, status: SatelliteStatus)
    requires
        before.contains_key(id),
    ensures
        ({
            let after = with_status(before, id, status);
            &&& after.dom() == before.dom()
            &&& after[id].status == status
            &&& after[id].id == before[id].id
            &&& after[id].name == before[id].name
            &&& forall|k: u128| #[trigger] before.contains_key(k) && k != id ==> after[k] == before[k]
        }),
{
    assert(with_status(before, id, status).dom() =~= before.dom());
}

/// Setting the same status twice is the same as setting it once.
pub proof fn law_update_idempotent(before: Map<u128, SatelliteView>, id: u128, status: SatelliteStatus)
    ensures
        with_status(with_status(before, id, status), id, status) == with_status(before, id, status),
{
    assert(with_status(with_status(before, id, status), id, status) =~= with_status(before, id, status));
}

/// Setting the status a satellite already has changes nothing.
pub proof fn law_update_to_same_status(before: Map<u128, SatelliteView>, id: u128)
    requires
        before.contains_key(id),
    ensures
        with_status(before, id, before[id].status) == before,
{
    assert(with_status(before, id, before[id].status) =~= before);
}

/// Progress is a fraction between 0 and 1: `0 <= elapsed <= total`, and the total is
/// positive except for a flight that departs and arrives at the very instant asked about.
pub proof fn law_progress_between_zero_and_one(departure: int, arrival: int, now: int)
    requires
        !(departure == arrival && arrival == now),
    ensures
        ({
            let (e, t) = progress_spec(departure, arrival, now);
            0 <= e <= t && t > 0
        }),
{
}

/// A flight is in progress exactly when its progress lies strictly between 0 and 1.
pub proof fn law_in_progress_iff_fraction_strictly_inside(departure: int, arrival: int, now: int)
    ensures
        in_progress_spec(departure, arrival, now) == ({
            let (e, t) = progress_spec(departure, arrival, now);
            0 < e < t
        }),
{
}

/// Before departure the progress is 0; after arrival it is 1 (for a flight that does not
/// arrive before it departs); outside its schedule a flight is not in progress.
pub proof fn law_progress_outside_schedule(departure: int, arrival: int, now: int)
    ensures
        now < departure ==> progress_spec(departure, arrival, now) == (0int, 1int),
        departure <= arrival && now > arrival ==> progress_spec(departure, arrival, now) == (
            1int,
            1int,
        ),
        now < departure || now > arrival ==> !in_progress_spec(departure, arrival, now),
{
}

/// The code of an airport resource URI reads back as the code it was made from.
pub proof fn law_uri_roundtrip(code: Seq<char>)
    requires
        code.len() > 0,
    ensures
        uri_code(uri_prefix() + code) == Some(code),
{
    reveal_strlit("airports://");
    let u = uri_prefix() + code;
    assert(u.subrange(0, uri_prefix().len() as int) =~= uri_prefix());
    assert(u.subrange(uri_prefix().len() as int, u.len() as int) =~= code);
}

/// Every status reads back from its name.
pub proof fn law_status_name_roundtrip(s: SatelliteStatus)
    ensures
        parse_status_spec(status_name(s)) == Some(s),
{
    reveal_strlit("Active");
    reveal_strlit("Inactive");
    reveal_strlit("Maintenance");
    assert("Active"@.len() == 6);
    assert("Inactive"@.len() == 8);
    assert("Maintenance"@.len() == 11);
}

/// A configuration reports the zone and format it was given, and UTC and the default format
/// otherwise.
pub proof fn law_config_defaults(timezone: Option<String>, format: Option<String>)
    ensures
        ({
            let c = DateTimeConfig { timezone, format };
            &&& (timezone matches Some(t) ==> config_zone(c) == t@)
            &&& (timezone is None ==> config_zone(c) == "UTC"@)
            &&& (format matches Some(f) ==> config_format(c) == f@)
            &&& (format is None ==> config_format(c) == "%Y-%m-%dT%H:%M:%S%:z"@)
        }),
{
}

/// Comparing two zones either way gives opposite differences.
pub proof fn law_comparison_antisymmetric(a: Seq<char>, b: Seq<char>, now: i64)
    ensures
        reading_offset(b, now) - reading_offset(a, now) == -(reading_offset(a, now) - reading_offset(
            b,
            now,
        )),
{
}

/// A listing without filters keeps every flight, in order.
pub proof fn law_no_filter_keeps_all(flights: Seq<Flight>)
    ensures
        flights.filter(
            |f: Flight| listing_keeps(ListFlightsToolRequest { departure: None, arrival: None, date: None }, f),
        ) == flights,
    decreases flights.len(),
{
    reveal_with_fuel(Seq::<_>::filter, 1);
    if flights.len() > 0 {
        law_no_filter_keeps_all(flights.drop_last());
        assert(flights.drop_last().push(flights.last()) =~= flights);
    } else {
        assert(flights =~= Seq::<Flight>::empty());
    }
}

/// As time passes a flight's progress never goes back: at a later instant the fraction
/// `elapsed / total` is at least what it was (compared as `e1 * t2 <= e2 * t1`).
pub proof fn law_progress_never_decreases(departure: int, arrival: int, earlier: int, later: int)
    requires
        earlier <= later,
    ensures
        ({
            let (e1, t1) = progress_spec(departure, arrival, earlier);
            let (e2, t2) = progress_spec(departure, arrival, later);
            e1 * t2 <= e2 * t1
        }),
{
    let (e1, t1) = progress_spec(departure, arrival, earlier);
    let (e2, t2) = progress_spec(departure, arrival, later);
    assert(0 <= e1 <= t1);
    assert(0 <= e2 <= t2);
    if earlier - departure < 0 {
        assert(e1 == 0 && t1 == 1);
        assert(e1 * t2 <= e2 * t1) by (nonlinear_arith)
            requires
                e1 == 0,
                t1 == 1,
                0 <= e2,
        ;
    } else if later - departure > arrival - departure {
        assert(e2 == 1 && t2 == 1);
        assert(e1 * t2 <= e2 * t1) by (nonlinear_arith)
            requires
                e2 == 1,
                t2 == 1,
                e1 <= t1,
        ;
    } else {
        assert(t1 == t2);
        assert(e1 <= e2);
        assert(e1 * t2 <= e2 * t1) by (nonlinear_arith)
            requires
                e1 <= e2,
                t1 == t2,
                t1 >= 0,
        ;
    }
}

proof fn lemma_route_facts(codes: Seq<String>, flights: Seq<Flight>, n: int, k: int)
    requires
        0 <= n <= flights.len(),
        0 <= k < routes_upto(codes, flights, n).len(),
    ensures
        ({
            let r = routes_upto(codes, flights, n)[k];
            &&& 0 <= r.0 < n
            &&& lookup(codes, flights[r.0].departure@) == Some(r.1)
            &&& lookup(codes, flights[r.0].arrival@) == Some(r.2)
        }),
    decreases n,
{
    let rest = routes_upto(codes, flights, n - 1);
    if k < rest.len() {
        lemma_route_facts(codes, flights, n - 1, k);
    }
}

/// Every route the map draws leaves from and arrives at an airport the map marks.
pub proof fn law_routes_end_at_pins(
    codes: Seq<String>,
    flights: Seq<Flight>,
    pins: Seq<usize>,
    k: int,
)
    requires
        pins_exact(codes, flights, pins),
        0 <= k < routes_upto(codes, flights, flights.len() as int).len(),
    ensures
        pins.contains(routes_upto(codes, flights, flights.len() as int)[k].1 as usize),
        pins.contains(routes_upto(codes, flights, flights.len() as int)[k].2 as usize),
{
    let r = routes_upto(codes, flights, flights.len() as int)[k];
    lemma_route_facts(codes, flights, flights.len() as int, k);
    let f = flights[r.0];
    assert(used(flights, f.departure@));
    assert(used(flights, f.arrival@));
    assert(lookup(codes, f.departure@) == Some(r.1));
    assert(lookup(codes, f.arrival@) == Some(r.2));
}

/// A calculation asked without a current time is evaluated at the clock's reading taken when
/// it starts, and one asked with a current time at that time. So a flight that has departed
/// and not yet arrived at the reading is in progress at the evaluation instant.
pub proof fn law_evaluated_at_clock_reading(request: FlightPositionRequest, clock: i64)
    ensures
        request.current_time is None ==> evaluation_instant(request, clock) == clock,
        request.current_time matches Some(c) ==> evaluation_instant(request, clock) == c,
        request.current_time is None && chrono_range(clock as int) ==> request.evaluates_at(
            evaluation_instant(request, clock),
        ),
        request.current_time is None && request.departure_time < clock && clock
            < request.arrival_time ==> in_progress_spec(
            request.departure_time as int,
            request.arrival_time as int,
            evaluation_instant(request, clock) as int,
        ),
{
}

proof fn lemma_matching_found(labels: Seq<AirportLabel>, q: Seq<char>, n: int, i: int)
    requires
        0 <= i < n <= labels.len(),
        label_matches(labels[i], q),
    ensures
        matching_positions(labels, q, n).contains(i),
    decreases n,
{
    let rest = matching_positions(labels, q, n - 1);
    if i == n - 1 {
        assert(rest.push(n - 1)[rest.len() as int] == i);
    } else {
        lemma_matching_found(labels, q, n - 1, i);
        let k = choose|k: int| 0 <= k < rest.len() && rest[k] == i;
        if label_matches(labels[n - 1], q) {
            assert(rest.push(n - 1)[k] == i);
        }
    }
}

proof fn lemma_matching_sound(labels: Seq<AirportLabel>, q: Seq<char>, n: int, k: int)
    requires
        0 <= n <= labels.len(),
        0 <= k < matching_positions(labels, q, n).len(),
    ensures
        0 <= matching_positions(labels, q, n)[k] < n,
        label_matches(labels[matching_positions(labels, q, n)[k]], q),
    decreases n,
{
    let rest = matching_positions(labels, q, n - 1);
    if k < rest.len() {
        lemma_matching_sound(labels, q, n - 1, k);
    }
}

/// An airport whose upper-cased code or name contains the upper-cased query is among the
/// matches, and every match is such an airport.
pub proof fn law_airport_matches_by_code_or_name(labels: Seq<AirportLabel>, q: Seq<char>, i: int)
    requires
        0 <= i < labels.len(),
    ensures
        seq_contains(uppercase(labels[i].code@), q) ==> matching_positions(
            labels,
            q,
            labels.len() as int,
        ).contains(i),
        seq_contains(uppercase(labels[i].name@), q) ==> matching_positions(
            labels,
            q,
            labels.len() as int,
        ).contains(i),
        matching_positions(labels, q, labels.len() as int).contains(i) ==> (seq_contains(
            uppercase(labels[i].code@),
            q,
        ) || seq_contains(uppercase(labels[i].name@), q)),
{
    if seq_contains(uppercase(labels[i].code@), q) || seq_contains(uppercase(labels[i].name@), q) {
        lemma_matching_found(labels, q, labels.len() as int, i);
    }
    if matching_positions(labels, q, labels.len() as int).contains(i) {
        let all = matching_positions(labels, q, labels.len() as int);
        let k = choose|k: int| 0 <= k < all.len() && all[k] == i;
        lemma_matching_sound(labels, q, labels.len() as int, k);
    }
}

/// Asking for an airport's own code (upper-cased) finds that airport.
pub proof fn law_own_code_finds_airport(labels: Seq<AirportLabel>, i: int)
    requires
        0 <= i < labels.len(),
    ensures
        matching_positions(labels, uppercase(labels[i].code@), labels.len() as int).contains(i),
{
    let u = uppercase(labels[i].code@);
    assert(u.subrange(0, u.len() as int) =~= u);
    assert(occurs_at(u, u, 0));
    law_airport_matches_by_code_or_name(labels, u, i);
}

/// The flight listing keeps exactly the flights whose departure and arrival contain the
/// asked departure and arrival (compared in lower case) and whose UTC departure date is the
/// asked date, each filter applying only where it is given.
pub proof fn law_listing_filters(filter: ListFlightsToolRequest, f: Flight)
    ensures
        listing_keeps(filter, f) == ({
            &&& (filter.departure matches Some(d) ==> seq_contains(lowercase(f.departure@), lowercase(d@)))
            &&& (filter.arrival matches Some(a) ==> seq_contains(lowercase(f.arrival@), lowercase(a@)))
            &&& (filter.date matches Some(d) ==> formatted_utc(f.departure_time, "%Y-%m-%d"@) == Some(
                d@,
            ))
        }),
{
}

/// A pattern is looked up as an airport code exactly when it is 3 bytes long (an IATA code)
/// or 4 bytes long (an ICAO code).
pub proof fn law_iata_and_icao_patterns(pattern: Seq<char>)
    ensures
        byte_len(pattern) == 3 ==> code_shaped(pattern),
        byte_len(pattern) == 4 ==> code_shaped(pattern),
        byte_len(pattern) != 3 && byte_len(pattern) != 4 ==> !code_shaped(pattern),
{
}

/// Every tool the server offers is routed to its family.
pub proof fn law_offered_tools_routed()
    ensures
        tool_group("list_airports"@) == Some(ToolGroup::Airports),
        tool_group("get_airport"@) == Some(ToolGroup::Airports),
        tool_group("list_flights"@) == Some(ToolGroup::Flights),
        tool_group("get_flight"@) == Some(ToolGroup::Flights),
        tool_group("create_flight"@) == Some(ToolGroup::Flights),
        tool_group("search_flights_by_route"@) == Some(ToolGroup::Flights),
        tool_group("list_satellites"@) == Some(ToolGroup::Satellites),
        tool_group("create_satellite"@) == Some(ToolGroup::Satellites),
        tool_group("update_satellite_status"@) == Some(ToolGroup::Satellites),
        tool_group("calculate_position"@) == Some(ToolGroup::Satellites),
        tool_group("get_current_datetime"@) == Some(ToolGroup::DateTime),
        tool_group("get_aviation_times"@) == Some(ToolGroup::DateTime),
        tool_group("get_timezone_difference"@) == Some(ToolGroup::DateTime),
        tool_group("compare_timezones"@) == Some(ToolGroup::DateTime),
        tool_group("get_flights_by_airport"@) == Some(ToolGroup::Babel),
        tool_group("get_flight_position"@) == Some(ToolGroup::Babel),
        tool_group("search_flights_by_airport_pattern"@) == Some(ToolGroup::Babel),
        tool_group("generate_flight_map"@) == Some(ToolGroup::FlightMap),
{
    reveal_strlit("list_airports");
    reveal_strlit("get_airport");
    reveal_strlit("list_flights");
    reveal_strlit("get_flight");
    reveal_strlit("create_flight");
    reveal_strlit("search_flights_by_route");
    reveal_strlit("list_satellites");
    reveal_strlit("create_satellite");
    reveal_strlit("update_satellite_status");
    reveal_strlit("calculate_position");
    reveal_strlit("get_current_datetime");
    reveal_strlit("get_aviation_times");
    reveal_strlit("get_timezone_difference");
    reveal_strlit("compare_timezones");
    reveal_strlit("get_flights_by_airport");
    reveal_strlit("get_flight_position");
    reveal_strlit("search_flights_by_airport_pattern");
    reveal_strlit("generate_flight_map");
    assert("list_airports"@.len() == 13);
    assert("get_airport"@.len() == 11);
    assert("list_flights"@.len() == 12);
    assert("get_flight"@.len() == 10);
    assert("create_flight"@.len() == 13);
    assert("search_flights_by_route"@.len() == 23);
    assert("list_satellites"@.len() == 15);
    assert("create_satellite"@.len() == 16);
    assert("update_satellite_status"@.len() == 23);
    assert("calculate_position"@.len() == 18);
    assert("get_current_datetime"@.len() == 20);
    assert("get_aviation_times"@.len() == 18);
    assert("get_timezone_difference"@.len() == 23);
    assert("compare_timezones"@.len() == 17);
    assert("get_flights_by_airport"@.len() == 22);
    assert("get_flight_position"@.len() == 19);
    assert("search_flights_by_airport_pattern"@.len() == 33);
    assert("generate_flight_map"@.len() == 19);
    assert("create_flight"@[0] != "list_airports"@[0]);
    assert("update_satellite_status"@[0] != "search_flights_by_route"@[0]);
    assert("get_timezone_difference"@[0] != "search_flights_by_route"@[0]);
    assert("get_timezone_difference"@[0] != "update_satellite_status"@[0]);
    assert("get_aviation_times"@[0] != "calculate_position"@[0]);
    assert("generate_flight_map"@[2] != "get_flight_position"@[2]);
}

} // verus!
