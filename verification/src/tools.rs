use vstd::prelude::*;

use crate::beacon::{
    parse_status, parse_status_spec, status_name, status_to_string, CreateSatelliteForm,
};
use crate::datetime::{parse_rfc3339, rfc3339_reading, InvalidTime};
use crate::flight_position::FlightPositionRequest;
use crate::satellite::{uuid_text, uuid_to_string, Satellite, SatelliteStatus};
use crate::text::{concat2, concat3, owned};

verus! {

broadcast use vstd::string::group_string_axioms;

/// `name (ID: <uuid>) - Status: <status>`: how the satellite tools describe a satellite.
pub open spec fn satellite_summary(s: Satellite) -> Seq<char> {
    s.name@ + " (ID: "@ + uuid_text(s.id) + ") - Status: "@ + status_name(s.status)
}

/// The summaries of the satellites, one per line.
pub open spec fn summary_lines(v: Seq<Satellite>) -> Seq<char>
    decreases v.len(),
{
    if v.len() == 0 {
        Seq::empty()
    } else {
        summary_lines(v.drop_last()) + satellite_summary(v.last()) + "\n"@
    }
}

/// Describes one satellite.
pub fn describe_satellite(s: &Satellite) -> (r: String)
    ensures
        r@ == satellite_summary(*s),
{
    let id = uuid_to_string(s.id);
    let status = status_to_string(s.status);
    let mut r = concat3(s.name.as_str(), " (ID: ", id.as_str());
    r.append(") - Status: ");
    r.append(status.as_str());
    r
}

/// What the satellite listing tool answers: one line per satellite, or that there are none.
pub fn satellites_listing(sats: &Vec<Satellite>) -> (r: String)
    ensures
        sats@.len() == 0 ==> r@ == "No satellites found."@,
        sats@.len() > 0 ==> r@ == summary_lines(sats@),
{
    let mut r = String::new();
    let mut i: usize = 0;
    while i < sats.len()
        invariant
            i <= sats.len(),
            r@ == summary_lines(sats@.take(i as int)),
        decreases sats.len() - i,
    {
        proof {
            assert(sats@.take(i + 1).drop_last() =~= sats@.take(i as int));
        }
        let line = describe_satellite(&sats[i]);
        r.append(line.as_str());
        r.append("\n");
        i = i + 1;
    }
    assert(sats@.take(sats.len() as int) =~= sats@);
    if sats.len() == 0 {
        return owned("No satellites found.");
    }
    r
}

/// What the creation tool answers for a created satellite.
pub fn created_text(s: &Satellite) -> (r: String)
    ensures
        r@ == "Satellite created: "@ + satellite_summary(*s),
{
    let d = describe_satellite(s);
    concat2("Satellite created: ", d.as_str())
}

/// What the status tool answers for an updated satellite.
pub fn updated_text(s: &Satellite) -> (r: String)
    ensures
        r@ == "Satellite updated: "@ + satellite_summary(*s),
{
    let d = describe_satellite(s);
    concat2("Satellite updated: ", d.as_str())
}

/// The status the status tool is asked to set, or its refusal of an unknown name.
pub fn tool_status(text: &str) -> (r: Result<SatelliteStatus, String>)
    ensures
        parse_status_spec(text@) matches Some(s) ==> r == Ok::<SatelliteStatus, String>(s),
        parse_status_spec(text@) is None ==> (r matches Err(m) && m@
            == "Invalid status. Must be Active, Inactive, or Maintenance."@),
{
    match parse_status(text) {
        Some(s) => Ok(s),
        None => Err(owned("Invalid status. Must be Active, Inactive, or Maintenance.")),
    }
}

/// The arguments of the satellite-creation tool: the new satellite's name.
#[derive(Debug)]
pub struct CreateSatelliteToolRequest {
    pub name: String,
}

/// The creation tool asks the registry for a satellite of the given name.
impl From<CreateSatelliteToolRequest> for CreateSatelliteForm {
    fn from(request: CreateSatelliteToolRequest) -> (r: Self) {
        CreateSatelliteForm { name: request.name }
    }
}

impl vstd::std_specs::convert::FromSpecImpl<CreateSatelliteToolRequest> for CreateSatelliteForm {
    open spec fn obeys_from_spec() -> bool {
        true
    }

    open spec fn from_spec(request: CreateSatelliteToolRequest) -> Self {
        CreateSatelliteForm { name: request.name }
    }
}

/// The arguments of the position tool: the route, and RFC 3339 times.
#[derive(Debug)]
pub struct CalculatePositionToolRequest {
    pub departure: String,
    pub arrival: String,
    pub departure_time: String,
    pub arrival_time: String,
    pub current_time: Option<String>,
}

/// The refusal of a time argument `field` that chrono could not read, with its words `detail`.
pub open spec fn refuses(e: InvalidTime, field: Seq<char>, detail: Seq<char>) -> bool {
    e.message@ == "Invalid "@ + field && e.detail@ == detail
}

fn read_time(text: &str, field: &str) -> (r: Result<i64, InvalidTime>)
    ensures
        match rfc3339_reading(text@) {
            Ok(t) => r == Ok::<i64, InvalidTime>(t),
            Err(d) => r matches Err(e) && refuses(e, field@, d),
        },
{
    match parse_rfc3339(text) {
        Ok(t) => Ok(t),
        Err(d) => Err(InvalidTime { message: concat2("Invalid ", field), detail: d }),
    }
}

/// The position request the tool's arguments describe. The times are read in order
/// (departure, arrival, then the current time when given); the first that cannot be read is
/// refused.
pub fn position_tool_request(req: &CalculatePositionToolRequest) -> (r: Result<
    FlightPositionRequest,
    InvalidTime,
>)
    ensures
        match (rfc3339_reading(req.departure_time@), rfc3339_reading(req.arrival_time@)) {
            (Err(d), _) => r matches Err(e) && refuses(e, "departure_time"@, d),
            (Ok(_), Err(d)) => r matches Err(e) && refuses(e, "arrival_time"@, d),
            (Ok(dep), Ok(arr)) => match req.current_time {
                None => r matches Ok(p) && p.departure_code@ == req.departure@ && p.arrival_code@
                    == req.arrival@ && p.departure_time == dep && p.arrival_time == arr
                    && p.current_time is None,
                Some(c) => match rfc3339_reading(c@) {
                    Err(d) => r matches Err(e) && refuses(e, "current_time"@, d),
                    Ok(now) => r matches Ok(p) && p.departure_code@ == req.departure@
                        && p.arrival_code@ == req.arrival@ && p.departure_time == dep
                        && p.arrival_time == arr && p.current_time == Some(now),
                },
            },
        },
{
    let departure_time = match read_time(req.departure_time.as_str(), "departure_time") {
        Ok(t) => t,
        Err(e) => return Err(e),
    };
    let arrival_time = match read_time(req.arrival_time.as_str(), "arrival_time") {
        Ok(t) => t,
        Err(e) => return Err(e),
    };
    let current_time = match &req.current_time {
        None => None,
        Some(c) => match read_time(c.as_str(), "current_time") {
            Ok(t) => Some(t),
            Err(e) => return Err(e),
        },
    };
    Ok(FlightPositionRequest {
        departure_code: req.departure.clone(),
        arrival_code: req.arrival.clone(),
        departure_time,
        arrival_time,
        current_time,
    })
}

} // verus!
