use vstd::prelude::*;

use crate::flight_position::{
    in_progress_spec, progress_spec, resolve_airport, FlightPositionRequest, Progress,
};
use crate::satellite::{Satellite, SatelliteStatus, SatelliteView};
use crate::satellite_service::{lists_active, SatelliteService, SatelliteServiceError};

verus! {

/// What a completed position calculation determined: which satellites report a position,
/// how far the flight has got, and the two airports. The reported coordinates are the
/// airports' coordinates interpolated by `progress`.
#[derive(Debug)]
pub struct PositionPlan<A> {
    pub satellites: Vec<u128>,
    pub progress: Progress,
    pub departure_airport: A,
    pub arrival_airport: A,
}

/// Where a position calculation stands while it waits for the airport service.
#[derive(Debug)]
pub enum PositionStage<A> {
    AwaitingDeparture,
    AwaitingArrival(A),
}

/// A position calculation between two requests to the airport service.
#[derive(Debug)]
pub struct PositionJob<A> {
    pub request: FlightPositionRequest,
    pub now: i64,
    pub active: Vec<Satellite>,
    pub stage: PositionStage<A>,
}

/// What the caller is to do next.
#[derive(Debug)]
pub enum PositionAction<A> {
    /// Ask the airport service for the airport with this code and hand the answer to
    /// `PositionJob::on_airport`.
    FetchAirport(String),
    /// The calculation is over.
    Finished(Result<PositionPlan<A>, SatelliteServiceError>),
}

/// Some satellite of the registry is active.
pub open spec fn has_active(m: Map<u128, SatelliteView>) -> bool {
    exists|k: u128| #[trigger] m.contains_key(k) && m[k].status == SatelliteStatus::Active
}

/// The plan is the one for `request` at `now` with the given active satellites and airports.
pub open spec fn plan_for<A>(
    plan: PositionPlan<A>,
    request: FlightPositionRequest,
    now: i64,
    active: Seq<Satellite>,
    departure: A,
    arrival: A,
) -> bool {
    let dep = request.departure_time as int;
    let arr = request.arrival_time as int;
    &&& (plan.progress.elapsed as int, plan.progress.total as int) == progress_spec(dep, arr, now as int)
    &&& in_progress_spec(dep, arr, now as int) ==> plan.satellites@ == active.map_values(
        |s: Satellite| s.id,
    )
    &&& !in_progress_spec(dep, arr, now as int) ==> plan.satellites@.len() == 0
    &&& plan.departure_airport == departure
    &&& plan.arrival_airport == arrival
}

/// The instant a calculation of `request` started with clock reading `clock` is evaluated at:
/// the request's own current time, or else the reading.
pub open spec fn evaluation_instant(request: FlightPositionRequest, clock: i64) -> i64 {
    match request.current_time {
        Some(c) => c,
        None => clock,
    }
}

impl SatelliteService {
    /// Starts a position calculation with the clock reading `clock`: it fails with
    /// `NoActiveSatellites` when no satellite is active, and otherwise asks for the departure
    /// airport. The calculation is evaluated at the request's current time, or else at `clock`.
    pub fn start_position_calculation_at<A>(&self, request: FlightPositionRequest, clock: i64) -> (r: (
        Option<PositionJob<A>>,
        PositionAction<A>,
    ))
        ensures
            !has_active(self@) ==> r.0 is None && (r.1 matches PositionAction::Finished(
                Err(SatelliteServiceError::NoActiveSatellites),
            )),
            has_active(self@) ==> (r.0 matches Some(job) && {
                &&& job.request == request
                &&& job.now == evaluation_instant(request, clock)
                &&& (request.current_time is None ==> job.now == clock)
                &&& (request.current_time matches Some(c) ==> job.now == c)
                &&& lists_active(job.active@, self@)
                &&& job.stage is AwaitingDeparture
                &&& (r.1 matches PositionAction::FetchAirport(c) && c@ == request.departure_code@)
            }),
    {
        match self.tracking_satellites() {
            Err(e) => (None, PositionAction::Finished(Err(e))),
            Ok(active) => {
                let now = match request.current_time {
                    Some(c) => c,
                    None => clock,
                };
                let code = request.departure_code.clone();
                (
                    Some(PositionJob { request, now, active, stage: PositionStage::AwaitingDeparture }),
                    PositionAction::FetchAirport(code),
                )
            },
        }
    }

    /// Starts a position calculation at the clock's reading when the request carries no
    /// current time (see `start_position_calculation_at`).
    pub fn start_position_calculation<A>(&self, request: FlightPositionRequest) -> (r: (
        Option<PositionJob<A>>,
        PositionAction<A>,
    ))
        ensures
            !has_active(self@) ==> r.0 is None && (r.1 matches PositionAction::Finished(
                Err(SatelliteServiceError::NoActiveSatellites),
            )),
            has_active(self@) ==> (r.0 matches Some(job) && {
                &&& job.request == request
                &&& (request.current_time matches Some(c) ==> job.now == c)
                &&& request.evaluates_at(job.now)
                &&& lists_active(job.active@, self@)
                &&& job.stage is AwaitingDeparture
                &&& (r.1 matches PositionAction::FetchAirport(c) && c@ == request.departure_code@)
            }),
    {
        let clock = match request.current_time {
            Some(c) => c,
            None => crate::datetime::clock_now(),
        };
        self.start_position_calculation_at(request, clock)
    }
}

impl<A> PositionJob<A> {
    /// Takes the airport service's answer for the airport last asked for. A failed request
    /// ends the calculation with `AirportFetchError`, a missing airport with
    /// `AirportNotFound`; a found departure airport leads to asking for the arrival airport,
    /// a found arrival airport completes the plan.
    pub fn on_airport(self, fetched: Result<Option<A>, String>) -> (r: (
        Option<PositionJob<A>>,
        PositionAction<A>,
    ))
        ensures
            fetched matches Err(e) ==> r.0 is None && (r.1 matches PositionAction::Finished(
                Err(SatelliteServiceError::AirportFetchError(m)),
            ) && m@ == e@),
            (fetched matches Ok(None) && self.stage is AwaitingDeparture) ==> r.0 is None && (
            r.1 matches PositionAction::Finished(Err(SatelliteServiceError::AirportNotFound(c)))
                && c@ == self.request.departure_code@),
            (fetched matches Ok(None) && self.stage is AwaitingArrival) ==> r.0 is None && (
            r.1 matches PositionAction::Finished(Err(SatelliteServiceError::AirportNotFound(c)))
                && c@ == self.request.arrival_code@),
            fetched matches Ok(Some(a)) ==> (self.stage is AwaitingDeparture ==> (r.0 matches Some(
                job,
            ) && {
                &&& job.request == self.request
                &&& job.now == self.now
                &&& job.active == self.active
                &&& job.stage == PositionStage::AwaitingArrival(a)
                &&& (r.1 matches PositionAction::FetchAirport(c) && c@ == self.request.arrival_code@)
            })),
            fetched matches Ok(Some(b)) ==> (self.stage matches PositionStage::AwaitingArrival(d) ==> r.0
                is None && (r.1 matches PositionAction::Finished(Ok(plan)) && plan_for(
                plan,
                self.request,
                self.now,
                self.active@,
                d,
                b,
            ))),
    {
        match self.stage {
            PositionStage::AwaitingDeparture => {
                match resolve_airport(self.request.departure_code.as_str(), fetched) {
                    Err(e) => (None, PositionAction::Finished(Err(e))),
                    Ok(a) => {
                        let code = self.request.arrival_code.clone();
                        (
                            Some(
                                PositionJob {
                                    request: self.request,
                                    now: self.now,
                                    active: self.active,
                                    stage: PositionStage::AwaitingArrival(a),
                                },
                            ),
                            PositionAction::FetchAirport(code),
                        )
                    },
                }
            },
            PositionStage::AwaitingArrival(d) => {
                match resolve_airport(self.request.arrival_code.as_str(), fetched) {
                    Err(e) => (None, PositionAction::Finished(Err(e))),
                    Ok(b) => {
                        let satellites = self.request.reporting_satellites(self.now, &self.active);
                        let progress = self.request.progress_at(self.now);
                        (
                            None,
                            PositionAction::Finished(
                                Ok(
                                    PositionPlan {
                                        satellites,
                                        progress,
                                        departure_airport: d,
                                        arrival_airport: b,
                                    },
                                ),
                            ),
                        )
                    },
                }
            },
        }
    }
}

} // verus!
