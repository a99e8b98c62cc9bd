use vstd::prelude::*;

use crate::satellite::Satellite;
use crate::satellite_service::SatelliteServiceError;

verus! {

/// A flight whose position is asked for. Times are Unix timestamps in seconds (UTC).
#[derive(Debug)]
pub struct FlightPositionRequest {
    pub departure_code: String,
    pub arrival_code: String,
    pub departure_time: i64,
    pub arrival_time: i64,
    /// The instant to compute the position at; the clock's reading when absent.
    pub current_time: Option<i64>,
}

/// How far a flight has got: the fraction `elapsed / total` of its scheduled duration.
/// Before departure it is `0 / 1`, after arrival `1 / 1`.
#[derive(Debug, PartialEq, Eq, Structural)]
pub struct Progress {
    pub elapsed: i128,
    pub total: i128,
}

/// The progress of a flight scheduled from `departure` to `arrival`, at instant `now`.
pub open spec fn progress_spec(departure: int, arrival: int, now: int) -> (int, int) {
    let total = arrival - departure;
    let elapsed = now - departure;
    if elapsed > total || elapsed < 0 {
        if elapsed < 0 {
            (0, 1)
        } else {
            (1, 1)
        }
    } else {
        (elapsed, total)
    }
}

/// A flight is in progress strictly after departure and strictly before arrival.
pub open spec fn in_progress_spec(departure: int, arrival: int, now: int) -> bool {
    0 < now - departure < arrival - departure
}

impl FlightPositionRequest {
    /// A request without an explicit current time.
    pub fn new(departure_code: String, arrival_code: String, departure_time: i64, arrival_time: i64) -> (r:
        Self)
        ensures
            r.departure_code@ == departure_code@,
            r.arrival_code@ == arrival_code@,
            r.departure_time == departure_time,
            r.arrival_time == arrival_time,
            r.current_time is None,
    {
        FlightPositionRequest {
            departure_code,
            arrival_code,
            departure_time,
            arrival_time,
            current_time: None,
        }
    }

    /// The same request, evaluated at `current_time`.
    pub fn with_current_time(self, current_time: i64) -> (r: Self)
        ensures
            r.departure_code == self.departure_code,
            r.arrival_code == self.arrival_code,
            r.departure_time == self.departure_time,
            r.arrival_time == self.arrival_time,
            r.current_time == Some(current_time),
    {
        FlightPositionRequest { current_time: Some(current_time), ..self }
    }

    /// The progress of the flight at instant `now`.
    pub fn progress_at(&self, now: i64) -> (p: Progress)
        ensures
            (p.elapsed as int, p.total as int) == progress_spec(
                self.departure_time as int,
                self.arrival_time as int,
                now as int,
            ),
    {
        let total: i128 = self.arrival_time as i128 - self.departure_time as i128;
        let elapsed: i128 = now as i128 - self.departure_time as i128;
        if elapsed > total || elapsed < 0 {
            if elapsed < 0 {
                Progress { elapsed: 0, total: 1 }
            } else {
                Progress { elapsed: 1, total: 1 }
            }
        } else {
            Progress { elapsed, total }
        }
    }

    /// The instant the request is evaluated at: its own current time, or else the clock's
    /// reading (which lies in chrono's range).
    pub fn evaluation_time(&self) -> (t: i64)
        ensures
            self.current_time matches Some(c) ==> t == c,
            self.current_time is None ==> crate::datetime::chrono_range(t as int),
    {
        match self.current_time {
            Some(t) => t,
            None => crate::datetime::clock_now(),
        }
    }

    /// `now` can be the request's evaluation time: its own current time, or else a clock
    /// reading, which lies in chrono's range.
    pub open spec fn evaluates_at(self, now: i64) -> bool {
        &&& (self.current_time matches Some(c) ==> now == c)
        &&& (self.current_time is None ==> crate::datetime::chrono_range(now as int))
    }

    /// The progress of the flight at the request's evaluation time.
    pub fn calculate_progress(&self) -> (p: Progress)
        ensures
            exists|now: i64|
                #[trigger] self.evaluates_at(now) && (p.elapsed as int, p.total as int)
                    == progress_spec(self.departure_time as int, self.arrival_time as int, now as int),
    {
        let now = self.evaluation_time();
        let p = self.progress_at(now);
        assert(self.evaluates_at(now));
        p
    }

    /// Whether the flight is in progress at instant `now`: its progress lies strictly
    /// between 0 and 1.
    pub fn is_in_progress_at(&self, now: i64) -> (r: bool)
        ensures
            r == in_progress_spec(self.departure_time as int, self.arrival_time as int, now as int),
    {
        let p = self.progress_at(now);
        p.elapsed > 0 && p.elapsed < p.total
    }

    /// Whether the flight is in progress at the request's evaluation time.
    pub fn is_in_progress(&self) -> (r: bool)
        ensures
            exists|now: i64|
                #[trigger] self.evaluates_at(now) && r == in_progress_spec(
                    self.departure_time as int,
                    self.arrival_time as int,
                    now as int,
                ),
    {
        let now = self.evaluation_time();
        let r = self.is_in_progress_at(now);
        assert(self.evaluates_at(now));
        r
    }

    /// The satellites that report a position for the flight at instant `now`: every one of
    /// `active` while the flight is in progress, none otherwise.
    pub fn reporting_satellites(&self, now: i64, active: &Vec<Satellite>) -> (r: Vec<u128>)
        ensures
            in_progress_spec(self.departure_time as int, self.arrival_time as int, now as int) ==> r@
                == active@.map_values(|s: Satellite| s.id),
            !in_progress_spec(self.departure_time as int, self.arrival_time as int, now as int) ==> r@.len()
                == 0,
    {
        let mut ids: Vec<u128> = Vec::new();
        if self.is_in_progress_at(now) {
            let mut i: usize = 0;
            while i < active.len()
                invariant
                    i <= active.len(),
                    ids@ == active@.take(i as int).map_values(|s: Satellite| s.id),
                decreases active.len() - i,
            {
                ids.push(active[i].id);
                i = i + 1;
                assert(active@.take(i as int) == active@.take(i - 1).push(active@[i - 1]));
            }
            assert(active@.take(active.len() as int) == active@);
        }
        ids
    }
}

/// The outcome of asking the airport service for `code`: the airport when it was found,
/// `AirportNotFound(code)` when the service answered without one, and `AirportFetchError`
/// with the transport error's text when the service could not be reached.
pub fn resolve_airport<A>(code: &str, fetched: Result<Option<A>, String>) -> (r: Result<A, SatelliteServiceError>)
    ensures
        fetched matches Ok(Some(a)) ==> r == Ok::<A, SatelliteServiceError>(a),
        fetched matches Ok(None) ==> (r matches Err(SatelliteServiceError::AirportNotFound(c)) && c@ == code@),
        fetched matches Err(e) ==> (r matches Err(SatelliteServiceError::AirportFetchError(m)) && m@ == e@),
{
    match fetched {
        Ok(Some(a)) => Ok(a),
        Ok(None) => Err(SatelliteServiceError::AirportNotFound(code.to_string())),
        Err(e) => Err(SatelliteServiceError::AirportFetchError(e)),
    }
}

/// The airport an airport search answered with: the first result of a successful answer
/// whose body could be read; nothing when the answer failed, could not be read, or was empty.
pub fn first_search_result<A>(success: bool, parsed: Option<Vec<A>>) -> (r: Option<A>)
    ensures
        !success ==> r is None,
        success && parsed is None ==> r is None,
        success ==> (parsed matches Some(v) ==> (v@.len() == 0 ==> r is None)),
        success ==> (parsed matches Some(v) ==> (v@.len() > 0 ==> r == Some(v@[0]))),
{
    if !success {
        return None;
    }
    match parsed {
        Some(mut v) => {
            if v.len() == 0 {
                None
            } else {
                Some(v.remove(0))
            }
        },
        None => None,
    }
}

} // verus!
