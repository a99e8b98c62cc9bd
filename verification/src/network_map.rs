use vstd::prelude::*;

use crate::flights::Flight;
use crate::text::{concat2, owned, text_eq};

verus! {

broadcast use vstd::string::group_string_axioms;

/// What the flight map is asked for: an airport to focus on, and a title, each optional.
#[derive(Debug)]
pub struct FlightMapRequest {
    pub airport_code: Option<String>,
    pub title: Option<String>,
}

/// The map's title: the one asked for, else `Sky Tracer — <code>` for a focused map, else
/// `Sky Tracer Network`.
pub fn map_title(request: &FlightMapRequest) -> (r: String)
    ensures
        request.title matches Some(t) ==> r@ == t@,
        request.title is None ==> (request.airport_code matches Some(c) ==> r@ == "Sky Tracer — "@
            + c@),
        request.title is None ==> (request.airport_code is None ==> r@ == "Sky Tracer Network"@),
{
    match &request.title {
        Some(t) => t.clone(),
        None => match &request.airport_code {
            Some(c) => concat2("Sky Tracer — ", c.as_str()),
            None => owned("Sky Tracer Network"),
        },
    }
}

/// The position of the last airport among the first `n` whose code is `code`: the airport
/// a lookup by code finds when later airports replace earlier ones of the same code.
pub open spec fn last_index_upto(codes: Seq<String>, code: Seq<char>, n: int) -> Option<int>
    decreases n,
{
    if n <= 0 {
        None
    } else if codes[n - 1]@ == code {
        Some(n - 1)
    } else {
        last_index_upto(codes, code, n - 1)
    }
}

/// The airport a lookup by `code` finds among all of them.
pub open spec fn lookup(codes: Seq<String>, code: Seq<char>) -> Option<int> {
    last_index_upto(codes, code, codes.len() as int)
}

proof fn lemma_last_index(codes: Seq<String>, code: Seq<char>, n: int)
    requires
        0 <= n <= codes.len(),
    ensures
        last_index_upto(codes, code, n) matches Some(k) ==> 0 <= k < n && codes[k]@ == code,
        last_index_upto(codes, code, n) is None ==> forall|k: int|
            0 <= k < n ==> codes[k]@ != code,
    decreases n,
{
    if n > 0 {
        lemma_last_index(codes, code, n - 1);
    }
}

/// The airport a lookup by `code` finds, if any.
fn find_airport(codes: &Vec<String>, code: &str) -> (r: Option<usize>)
    ensures
        match r {
            Some(k) => lookup(codes@, code@) == Some(k as int),
            None => lookup(codes@, code@) is None,
        },
{
    let mut found: Option<usize> = None;
    let mut i: usize = 0;
    while i < codes.len()
        invariant
            i <= codes.len(),
            match found {
                Some(k) => last_index_upto(codes@, code@, i as int) == Some(k as int),
                None => last_index_upto(codes@, code@, i as int) is None,
            },
        decreases codes.len() - i,
    {
        if text_eq(codes[i].as_str(), code) {
            found = Some(i);
        }
        i = i + 1;
    }
    found
}

/// A flight's route as the map draws it: the flight, and the airports it leaves and reaches.
#[derive(Clone, Copy, Debug, PartialEq, Eq, Structural)]
pub struct RoutePlan {
    pub flight: usize,
    pub departure: usize,
    pub arrival: usize,
}

/// A route as (flight, departure airport, arrival airport) positions.
pub open spec fn route_view(r: RoutePlan) -> (int, int, int) {
    (r.flight as int, r.departure as int, r.arrival as int)
}

/// The routes drawn for the first `n` flights: one per flight whose two airports are both
/// known, in order.
pub open spec fn routes_upto(codes: Seq<String>, flights: Seq<Flight>, n: int) -> Seq<(int, int, int)>
    decreases n,
{
    if n <= 0 {
        Seq::empty()
    } else {
        let rest = routes_upto(codes, flights, n - 1);
        let f = flights[n - 1];
        match (lookup(codes, f.departure@), lookup(codes, f.arrival@)) {
            (Some(d), Some(a)) => rest.push((n - 1, d, a)),
            _ => rest,
        }
    }
}

/// The routes the map draws: one per flight whose departure and arrival airports are both
/// known, in the flights' order; a flight with an unknown airport is left out.
pub fn map_routes(codes: &Vec<String>, flights: &Vec<Flight>) -> (r: Vec<RoutePlan>)
    ensures
        r@.map_values(|p: RoutePlan| route_view(p)) == routes_upto(
            codes@,
            flights@,
            flights@.len() as int,
        ),
{
    let mut out: Vec<RoutePlan> = Vec::new();
    let mut i: usize = 0;
    while i < flights.len()
        invariant
            i <= flights.len(),
            out@.map_values(|p: RoutePlan| route_view(p)) == routes_upto(codes@, flights@, i as int),
        decreases flights.len() - i,
    {
        let d = find_airport(codes, flights[i].departure.as_str());
        let a = find_airport(codes, flights[i].arrival.as_str());
        let ghost before = out@;
        match (d, a) {
            (Some(d), Some(a)) => {
                out.push(RoutePlan { flight: i, departure: d, arrival: a });
                assert(out@.map_values(|p: RoutePlan| route_view(p)) =~= before.map_values(
                    |p: RoutePlan| route_view(p),
                ).push((i as int, d as int, a as int)));
            },
            _ => {},
        }
        i = i + 1;
    }
    out
}

/// Airport code `code` is an end of one of the first `n` flights.
pub open spec fn used_upto(flights: Seq<Flight>, code: Seq<char>, n: int) -> bool {
    exists|j: int| 0 <= j < n && (flights[j].departure@ == code || flights[j].arrival@ == code)
}

/// Airport code `code` is an end of some flight.
pub open spec fn used(flights: Seq<Flight>, code: Seq<char>) -> bool {
    used_upto(flights, code, flights.len() as int)
}

/// `pins` are exactly the airports the map marks: one for each code that ends some flight and
/// names a known airport (the one a lookup finds), each once.
pub open spec fn pins_exact(codes: Seq<String>, flights: Seq<Flight>, pins: Seq<usize>) -> bool {
    &&& pins.no_duplicates()
    &&& forall|k: int|
        0 <= k < pins.len() ==> (#[trigger] pins[k]) < codes.len() && lookup(codes, codes[pins[k] as int]@)
            == Some(pins[k] as int) && used(flights, codes[pins[k] as int]@)
    &&& forall|c: Seq<char>|
        #![trigger used(flights, c), lookup(codes, c)]
        used(flights, c) ==> (lookup(codes, c) matches Some(i) ==> pins.contains(i as usize))
}

fn add_pin(codes: &Vec<String>, pins: &mut Vec<usize>, code: &str)
    requires
        old(pins)@.no_duplicates(),
        forall|k: int|
            0 <= k < old(pins)@.len() ==> (#[trigger] old(pins)@[k]) < codes@.len() && lookup(
                codes@,
                codes@[old(pins)@[k] as int]@,
            ) == Some(old(pins)@[k] as int),
    ensures
        final(pins)@.no_duplicates(),
        forall|k: int|
            0 <= k < final(pins)@.len() ==> (#[trigger] final(pins)@[k]) < codes@.len() && lookup(
                codes@,
                codes@[final(pins)@[k] as int]@,
            ) == Some(final(pins)@[k] as int),
        forall|x: usize| old(pins)@.contains(x) ==> final(pins)@.contains(x),
        forall|x: usize|
            final(pins)@.contains(x) ==> old(pins)@.contains(x) || codes@[x as int]@ == code@,
        lookup(codes@, code@) matches Some(i) ==> final(pins)@.contains(i as usize),
{
    match find_airport(codes, code) {
        None => {},
        Some(i) => {
            proof {
                lemma_last_index(codes@, code@, codes@.len() as int);
            }
            let mut present = false;
            let mut k: usize = 0;
            while k < pins.len()
                invariant
                    k <= pins.len(),
                    present <==> exists|j: int| 0 <= j < k && pins@[j] == i,
                decreases pins.len() - k,
            {
                if pins[k] == i {
                    present = true;
                }
                k = k + 1;
            }
            if !present {
                let ghost before = pins@;
                pins.push(i);
                proof {
                    assert forall|a: int, b: int|
                        0 <= a < pins@.len() && 0 <= b < pins@.len() && a != b implies pins@[a]
                        != pins@[b] by {
                        if a < before.len() && b < before.len() {
                            assert(before[a] != before[b]);
                        }
                    }
                    assert forall|x: usize| before.contains(x) implies pins@.contains(x) by {
                        let j = choose|j: int| 0 <= j < before.len() && before[j] == x;
                        assert(pins@[j] == x);
                    }
                    assert forall|x: usize| pins@.contains(x) implies before.contains(x)
                        || codes@[x as int]@ == code@ by {
                        let j = choose|j: int| 0 <= j < pins@.len() && pins@[j] == x;
                        if j < before.len() {
                            assert(before[j] == x);
                        }
                    }
                    assert(pins@[before.len() as int] == i);
                }
            } else {
                proof {
                    let j = choose|j: int| 0 <= j < pins@.len() && pins@[j] == i;
                    assert(pins@.contains(i));
                }
            }
        },
    }
}

/// The airports the map marks: those that end at least one flight and are known, each once.
/// Their order is not part of the answer (the map draws them as a set).
pub fn map_pins(codes: &Vec<String>, flights: &Vec<Flight>) -> (r: Vec<usize>)
    ensures
        pins_exact(codes@, flights@, r@),
{
    let mut pins: Vec<usize> = Vec::new();
    let mut i: usize = 0;
    while i < flights.len()
        invariant
            i <= flights.len(),
            pins@.no_duplicates(),
            forall|k: int|
                0 <= k < pins@.len() ==> (#[trigger] pins@[k]) < codes@.len() && lookup(
                    codes@,
                    codes@[pins@[k] as int]@,
                ) == Some(pins@[k] as int) && used_upto(flights@, codes@[pins@[k] as int]@, i as int),
            forall|j: int|
                0 <= j < i ==> (lookup(codes@, (#[trigger] flights@[j]).departure@) matches Some(p)
                    ==> pins@.contains(p as usize)) && (lookup(codes@, flights@[j].arrival@) matches Some(
                    p,
                ) ==> pins@.contains(p as usize)),
        decreases flights.len() - i,
    {
        let ghost before = pins@;
        add_pin(codes, &mut pins, flights[i].departure.as_str());
        add_pin(codes, &mut pins, flights[i].arrival.as_str());
        proof {
            assert forall|k: int| 0 <= k < pins@.len() implies used_upto(
                flights@,
                codes@[(#[trigger] pins@[k]) as int]@,
                i + 1,
            ) by {
                let x = pins@[k];
                assert(pins@.contains(x));
                if before.contains(x) {
                    let m = choose|m: int| 0 <= m < before.len() && before[m] == x;
                    assert(used_upto(flights@, codes@[before[m] as int]@, i as int));
                    let j = choose|j: int|
                        0 <= j < i && (flights@[j].departure@ == codes@[x as int]@
                            || flights@[j].arrival@ == codes@[x as int]@);
                    assert(0 <= j < i + 1);
                } else {
                    assert(0 <= i < i + 1);
                }
            }
            assert forall|j: int| 0 <= j < i + 1 implies (lookup(
                codes@,
                (#[trigger] flights@[j]).departure@,
            ) matches Some(p) ==> pins@.contains(p as usize)) && (lookup(codes@, flights@[j].arrival@) matches Some(
                p,
            ) ==> pins@.contains(p as usize)) by {
                if j < i {
                }
            }
        }
        i = i + 1;
    }
    proof {
        assert forall|c: Seq<char>|
            #![trigger used(flights@, c), lookup(codes@, c)]
            used(flights@, c) implies (lookup(codes@, c) matches Some(p) ==> pins@.contains(
                p as usize,
            )) by {
            let j = choose|j: int|
                0 <= j < flights@.len() && (flights@[j].departure@ == c || flights@[j].arrival@ == c);
            assert(flights@[j] == flights@[j]);
        }
    }
    pins
}

} // verus!
