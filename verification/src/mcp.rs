use vstd::prelude::*;

use crate::text::{chars_of, concat2, concat3, concat4, owned, string_of_chars, text_eq};

verus! {

broadcast use vstd::string::group_string_axioms;

/// The tool families of the MCP server; each call is handed to one of them.
#[derive(Clone, Copy, Debug, PartialEq, Eq, Structural)]
pub enum ToolGroup {
    Airports,
    Flights,
    Satellites,
    DateTime,
    Babel,
    FlightMap,
}

/// The family a tool name belongs to, if any.
pub open spec fn tool_group(name: Seq<char>) -> Option<ToolGroup> {
    if name == "list_airports"@ || name == "get_airport"@ {
        Some(ToolGroup::Airports)
    } else if name == "list_flights"@ || name == "get_flight"@ || name == "create_flight"@ || name
        == "search_flights_by_route"@ {
        Some(ToolGroup::Flights)
    } else if name == "list_satellites"@ || name == "create_satellite"@ || name
        == "update_satellite_status"@ || name == "calculate_position"@ {
        Some(ToolGroup::Satellites)
    } else if name == "get_current_datetime"@ || name == "get_aviation_times"@ || name
        == "get_timezone_difference"@ || name == "compare_timezones"@ {
        Some(ToolGroup::DateTime)
    } else if name == "get_flights_by_airport"@ || name == "get_flight_position"@ || name
        == "search_flights_by_airport_pattern"@ {
        Some(ToolGroup::Babel)
    } else if name == "generate_flight_map"@ {
        Some(ToolGroup::FlightMap)
    } else {
        None
    }
}

/// Routes a tool call by name to its family; an unknown name is refused with
/// `unknown tool: <name>`.
pub fn route_tool(name: &str) -> (r: Result<ToolGroup, String>)
    ensures
        tool_group(name@) matches Some(g) ==> r == Ok::<ToolGroup, String>(g),
        tool_group(name@) is None ==> (r matches Err(m) && m@ == "unknown tool: "@ + name@),
{
    if text_eq(name, "list_airports") || text_eq(name, "get_airport") {
        Ok(ToolGroup::Airports)
    } else if text_eq(name, "list_flights") || text_eq(name, "get_flight") || text_eq(
        name,
        "create_flight",
    ) || text_eq(name, "search_flights_by_route") {
        Ok(ToolGroup::Flights)
    } else if text_eq(name, "list_satellites") || text_eq(name, "create_satellite") || text_eq(
        name,
        "update_satellite_status",
    ) || text_eq(name, "calculate_position") {
        Ok(ToolGroup::Satellites)
    } else if text_eq(name, "get_current_datetime") || text_eq(name, "get_aviation_times")
        || text_eq(name, "get_timezone_difference") || text_eq(name, "compare_timezones") {
        Ok(ToolGroup::DateTime)
    } else if text_eq(name, "get_flights_by_airport") || text_eq(name, "get_flight_position")
        || text_eq(name, "search_flights_by_airport_pattern") {
        Ok(ToolGroup::Babel)
    } else if text_eq(name, "generate_flight_map") {
        Ok(ToolGroup::FlightMap)
    } else {
        Err(concat2("unknown tool: ", name))
    }
}

/// The scheme under which airports are exposed as resources.
pub open spec fn uri_prefix() -> Seq<char> {
    "airports://"@
}

/// The resource URI of the airport with the given code.
pub fn airport_uri(code: &str) -> (r: String)
    ensures
        r@ == uri_prefix() + code@,
{
    concat2("airports://", code)
}

/// The airport code a resource URI names: what follows the scheme, when that is not empty.
pub open spec fn uri_code(uri: Seq<char>) -> Option<Seq<char>> {
    let p = uri_prefix();
    if uri.len() > p.len() && uri.subrange(0, p.len() as int) == p {
        Some(uri.subrange(p.len() as int, uri.len() as int))
    } else {
        None
    }
}

/// Reads the airport code out of a resource URI (`airports://<code>`); nothing for any
/// other URI or an empty code.
pub fn parse_code(uri: &str) -> (r: Option<String>)
    ensures
        match r {
            Some(c) => uri_code(uri@) == Some(c@),
            None => uri_code(uri@) is None,
        },
{
    let u = chars_of(uri);
    let p = chars_of("airports://");
    proof {
        reveal_strlit("airports://");
    }
    if u.len() <= p.len() {
        return None;
    }
    let mut i: usize = 0;
    while i < p.len()
        invariant
            u@ == uri@,
            p@ == uri_prefix(),
            p.len() < u.len(),
            i <= p.len(),
            forall|j: int| 0 <= j < i ==> u@[j] == p@[j],
        decreases p.len() - i,
    {
        if u[i] != p[i] {
            assert(u@.subrange(0, p.len() as int)[i as int] != p@[i as int]);
            return None;
        }
        i = i + 1;
    }
    assert(u@.subrange(0, p.len() as int) =~= p@);
    let mut rest: Vec<char> = Vec::new();
    let mut k: usize = p.len();
    while k < u.len()
        invariant
            u@ == uri@,
            p.len() <= k <= u.len(),
            rest@ == u@.subrange(p.len() as int, k as int),
        decreases u.len() - k,
    {
        rest.push(u[k]);
        k = k + 1;
        assert(u@.subrange(p.len() as int, k as int) == u@.subrange(p.len() as int, k - 1).push(
            u@[k - 1],
        ));
    }
    Some(string_of_chars(&rest))
}

/// The message with which reading a resource under an unknown URI is refused.
pub fn invalid_uri_message(uri: &str) -> (r: String)
    ensures
        r@ == "Invalid URI '"@ + uri@ + "'. Expected format: airports://{IATA_CODE}"@,
{
    concat3("Invalid URI '", uri, "'. Expected format: airports://{IATA_CODE}")
}

/// A resource as the MCP server lists it.
#[derive(Debug)]
pub struct ResourceEntry {
    pub uri: String,
    pub name: String,
    pub title: String,
    pub description: String,
    pub mime_type: String,
}

/// The airports listed as resources, as (code, name) pairs.
pub open spec fn featured() -> Seq<(Seq<char>, Seq<char>)> {
    seq![
        ("FRA"@, "Frankfurt Airport"@),
        ("LHR"@, "London Heathrow"@),
        ("CDG"@, "Paris Charles de Gaulle"@),
        ("JFK"@, "John F. Kennedy International"@),
        ("DXB"@, "Dubai International"@),
        ("SIN"@, "Singapore Changi"@),
        ("AMS"@, "Amsterdam Schiphol"@),
        ("HND"@, "Tokyo Haneda"@),
    ]
}

/// The resource listed for the airport `code` named `name`.
pub open spec fn entry_for(e: ResourceEntry, code: Seq<char>, name: Seq<char>) -> bool {
    &&& e.uri@ == uri_prefix() + code
    &&& e.name@ == name
    &&& e.title@ == name + " ("@ + code + ")"@
    &&& e.description@ == "Live data for "@ + name + " airport (IATA: "@ + code + ")"@
    &&& e.mime_type@ == "application/json"@
}

/// The resource listed for one airport.
pub fn resource_entry(code: &str, name: &str) -> (r: ResourceEntry)
    ensures
        entry_for(r, code@, name@),
{
    ResourceEntry {
        uri: airport_uri(code),
        name: owned(name),
        title: concat4(name, " (", code, ")"),
        description: {
            let mut d = concat3("Live data for ", name, " airport (IATA: ");
            d.append(code);
            d.append(")");
            d
        },
        mime_type: owned("application/json"),
    }
}

/// The airports listed as resources, in their order.
pub fn list_resources() -> (r: Vec<ResourceEntry>)
    ensures
        r@.len() == featured().len(),
        forall|i: int| 0 <= i < r@.len() ==> entry_for(#[trigger] r@[i], featured()[i].0, featured()[i].1),
{
    let mut r: Vec<ResourceEntry> = Vec::new();
    r.push(resource_entry("FRA", "Frankfurt Airport"));
    r.push(resource_entry("LHR", "London Heathrow"));
    r.push(resource_entry("CDG", "Paris Charles de Gaulle"));
    r.push(resource_entry("JFK", "John F. Kennedy International"));
    r.push(resource_entry("DXB", "Dubai International"));
    r.push(resource_entry("SIN", "Singapore Changi"));
    r.push(resource_entry("AMS", "Amsterdam Schiphol"));
    r.push(resource_entry("HND", "Tokyo Haneda"));
    r
}

/// The resource template under which any airport can be read.
pub fn list_resource_templates() -> (r: ResourceEntry)
    ensures
        r.uri@ == uri_prefix() + "{code}"@,
        r.name@ == "Airport by IATA code"@,
        r.title@ == "Airport resource"@,
        r.description@ == "Fetch live airport data by IATA code. Example: airports://FRA"@,
        r.mime_type@ == "application/json"@,
{
    ResourceEntry {
        uri: airport_uri("{code}"),
        name: owned("Airport by IATA code"),
        title: owned("Airport resource"),
        description: owned("Fetch live airport data by IATA code. Example: airports://FRA"),
        mime_type: owned("application/json"),
    }
}

} // verus!
