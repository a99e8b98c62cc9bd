use vstd::prelude::*;

use crate::flights::Flight;
use crate::text::{concat2, concat3, join_texts, joined, owned, to_upper, uppercase};

verus! {

broadcast use vstd::string::group_string_axioms;

/// The arguments of the airport-briefing prompt.
#[derive(Debug)]
pub struct AirportBriefingParams {
    /// IATA airport code (e.g. FRA, LHR, JFK).
    pub airport_code: String,
}

/// The arguments of the route-analysis prompt.
#[derive(Debug)]
pub struct FlightRouteParams {
    /// Departure airport IATA code.
    pub departure: String,
    /// Arrival airport IATA code.
    pub arrival: String,
    /// Optional date of the flight (YYYY-MM-DD).
    pub date: Option<String>,
}

/// The arguments of the delay-investigation prompt.
#[derive(Debug)]
pub struct DelayInvestigationParams {
    /// IATA airport code to investigate delays for.
    pub airport_code: String,
}

/// The messages of a prompt: the user's request, the assistant's opening, and the prompt's
/// description, if it has one.
#[derive(Debug)]
pub struct PromptText {
    pub user: String,
    pub assistant: String,
    pub description: Option<String>,
}

/// The user's request of the airport briefing, around the airport data `context`.
pub open spec fn briefing_request(context: Seq<char>) -> Seq<char> {
    "Please provide a detailed aviation briefing for the following airport.\n\n**Airport data:**\n```\n"@
        + context
        + "\n```\n\nFormat your response in Markdown with the following sections:\n## ✈️ Airport Overview\n## 🌍 Geographic Context\n## 🌤️ Typical Weather\n## 🛫 Major Airlines & Routes\n## 🏢 Terminals & Capacity\n## ⚙️ Operational Notes\n\nUse bullet points, bold key facts, and a summary table where helpful."@
}

/// The airport-briefing prompt for the requested airport. `facts` are the airport's data as
/// found by the airport service; without them the briefing names only the code.
pub fn airport_briefing(params: &AirportBriefingParams, facts: Option<String>) -> (r: PromptText)
    ensures
        facts matches Some(f) ==> r.user@ == briefing_request(f@),
        facts is None ==> r.user@ == briefing_request("Airport code: "@ + params.airport_code@),
        r.assistant@ == "I'll provide a comprehensive Markdown briefing for **"@ + uppercase(
            params.airport_code@,
        ) + "** airport."@,
        r.description matches Some(d) && d@ == "Airport briefing for "@ + uppercase(
            params.airport_code@,
        ),
{
    let airport_code = params.airport_code.as_str();
    let context = match facts {
        Some(f) => f,
        None => concat2("Airport code: ", airport_code),
    };
    let upper = to_upper(airport_code);
    let user = concat3(
        "Please provide a detailed aviation briefing for the following airport.\n\n**Airport data:**\n```\n",
        context.as_str(),
        "\n```\n\nFormat your response in Markdown with the following sections:\n## ✈️ Airport Overview\n## 🌍 Geographic Context\n## 🌤️ Typical Weather\n## 🛫 Major Airlines & Routes\n## 🏢 Terminals & Capacity\n## ⚙️ Operational Notes\n\nUse bullet points, bold key facts, and a summary table where helpful.",
    );
    let assistant = concat3(
        "I'll provide a comprehensive Markdown briefing for **",
        upper.as_str(),
        "** airport.",
    );
    PromptText { user, assistant, description: Some(concat2("Airport briefing for ", upper.as_str())) }
}

/// How the route analysis names an airport: `name (code)` when the airport service found it,
/// the code as given otherwise.
pub open spec fn airport_label(given: Seq<char>, found: Option<(String, String)>) -> Seq<char> {
    match found {
        Some(nc) => nc.0@ + " ("@ + nc.1@ + ")"@,
        None => given,
    }
}

fn label_airport(given: &str, found: Option<(String, String)>) -> (r: String)
    ensures
        r@ == airport_label(given@, found),
{
    match found {
        Some((name, code)) => {
            let mut r = concat3(name.as_str(), " (", code.as_str());
            r.append(")");
            r
        },
        None => owned(given),
    }
}

/// ` on <date>` when a date is given, nothing otherwise.
pub open spec fn date_hint(date: Option<String>) -> Seq<char> {
    match date {
        Some(d) => " on "@ + d@,
        None => Seq::empty(),
    }
}

/// The route-analysis prompt for the requested route. `departure_found` and `arrival_found`
/// are the (name, code) of each airport as found by the airport service.
pub fn flight_route_analysis(
    params: &FlightRouteParams,
    departure_found: Option<(String, String)>,
    arrival_found: Option<(String, String)>,
) -> (r: PromptText)
    ensures
        ({
            let departure = params.departure;
            let arrival = params.arrival;
            let date = params.date;
            &&& r.user@ == "Analyse the flight route from **"@ + airport_label(departure@, departure_found)
            + "** to **"@ + airport_label(arrival@, arrival_found) + "**"@ + date_hint(date)
            + ".\n\nFormat your response in Markdown with the following sections:\n## 🗺️ Route Summary\nInclude a one-line summary with origin → destination and estimated distance.\n## ⏱️ Flight Duration & Distance\n## ✈️ Typical Aircraft Types\n## 🏢 Major Carriers\nUse a Markdown table: | Airline | Code | Frequency |\n## 🕐 Time Zone Changes\n## 🌐 Overflight Countries\n## ⚠️ Operational & Regulatory Notes\n\nUse bold for key figures (e.g. **~9h 30m**, **8,500 km**)."@
            &&& r.assistant@ == "I'll analyse the **"@ + uppercase(departure@) + "** → **"@
                + uppercase(arrival@) + "** route"@ + date_hint(date) + " in Markdown."@
            &&& r.description matches Some(d) && d@ == "Route analysis: "@ + uppercase(departure@)
                + " → "@ + uppercase(arrival@)
        }),
{
    let departure = params.departure.as_str();
    let arrival = params.arrival.as_str();
    let date = &params.date;
    let hint = match date {
        Some(d) => concat2(" on ", d.as_str()),
        None => String::new(),
    };
    let dep_info = label_airport(departure, departure_found);
    let arr_info = label_airport(arrival, arrival_found);
    let mut user = concat3("Analyse the flight route from **", dep_info.as_str(), "** to **");
    user.append(arr_info.as_str());
    user.append("**");
    user.append(hint.as_str());
    user.append(
        ".\n\nFormat your response in Markdown with the following sections:\n## 🗺️ Route Summary\nInclude a one-line summary with origin → destination and estimated distance.\n## ⏱️ Flight Duration & Distance\n## ✈️ Typical Aircraft Types\n## 🏢 Major Carriers\nUse a Markdown table: | Airline | Code | Frequency |\n## 🕐 Time Zone Changes\n## 🌐 Overflight Countries\n## ⚠️ Operational & Regulatory Notes\n\nUse bold for key figures (e.g. **~9h 30m**, **8,500 km**).",
    );
    let dep_upper = to_upper(departure);
    let arr_upper = to_upper(arrival);
    let mut assistant = concat3("I'll analyse the **", dep_upper.as_str(), "** → **");
    assistant.append(arr_upper.as_str());
    assistant.append("** route");
    assistant.append(hint.as_str());
    assistant.append(" in Markdown.");
    let description = concat3("Route analysis: ", dep_upper.as_str(), " → ");
    let mut description = description;
    description.append(arr_upper.as_str());
    PromptText { user, assistant, description: Some(description) }
}

/// `  - number (departure → arrival)`: how the delay prompt lists a flight.
pub open spec fn flight_bullet(f: Flight) -> Seq<char> {
    "  - "@ + f.flight_number@ + " ("@ + f.departure@ + " → "@ + f.arrival@ + ")"@
}

/// The flight data the delay prompt shows: the first five flights at the airport, or just
/// the airport when no flights are known.
pub open spec fn delay_context(upper: Seq<char>, flights: Option<Seq<Flight>>) -> Seq<char> {
    match flights {
        Some(v) => if v.len() > 0 {
            "Active flights at "@ + upper + ":\n"@ + joined(
                (if v.len() > 5 { v.take(5) } else { v }).map_values(|f: Flight| flight_bullet(f)),
                "\n"@,
            )
        } else {
            "Airport: "@ + upper
        },
        None => "Airport: "@ + upper,
    }
}

/// The delay-investigation prompt for the requested airport; `flights` are the flights the
/// aggregation service knows at the airport, when it could be asked.
pub fn delay_investigation(params: &DelayInvestigationParams, flights: Option<Vec<Flight>>) -> (r:
    PromptText)
    ensures
        r.user@ == "Investigate flight delays at **"@ + uppercase(params.airport_code@)
            + "** airport.\n\n**Current flight data:**\n```\n"@ + delay_context(
            uppercase(params.airport_code@),
            match flights {
                Some(v) => Some(v@),
                None => None,
            },
        )
            + "\n```\n\nFormat your response in Markdown:\n## 🚦 Delay Status\nStart with a severity indicator: 🟢 Minor / 🟡 Moderate / 🔴 Severe\n## 🔍 Root Cause Analysis\nUse a numbered list for likely causes in order of probability.\n## 🔗 Knock-on Effects\n## 💡 Passenger Recommendations\nUse a checklist: `- [ ] item`\n## 📊 Affected Flights\nIf flight data is available, list them in a table: | Flight | Route | Status |"@,
        r.assistant@ == "I'll investigate delays at **"@ + uppercase(params.airport_code@)
            + "** and present a structured Markdown report."@,
        r.description matches Some(d) && d@ == "Delay investigation for "@ + uppercase(params.airport_code@),
{
    let airport_code = params.airport_code.as_str();
    let upper = to_upper(airport_code);
    let context = match &flights {
        Some(v) => if v.len() > 0 {
            let shown: usize = if v.len() > 5 { 5 } else { v.len() };
            let ghost picked = if v@.len() > 5 { v@.take(5) } else { v@ };
            let mut lines: Vec<String> = Vec::new();
            let mut i: usize = 0;
            while i < shown
                invariant
                    shown <= v@.len(),
                    picked == (if v@.len() > 5 { v@.take(5) } else { v@ }),
                    shown == picked.len(),
                    i <= shown,
                    lines@.map_values(|s: String| s@) == picked.take(i as int).map_values(
                        |f: Flight| flight_bullet(f),
                    ),
                decreases shown - i,
            {
                let f = &v[i];
                let mut line = concat3("  - ", f.flight_number.as_str(), " (");
                line.append(f.departure.as_str());
                line.append(" → ");
                line.append(f.arrival.as_str());
                line.append(")");
                let ghost before = lines@;
                lines.push(line);
                proof {
                    assert(picked[i as int] == v@[i as int]);
                    assert(picked.take(i + 1) =~= picked.take(i as int).push(picked[i as int]));
                    assert(lines@.map_values(|s: String| s@) =~= before.map_values(|s: String| s@).push(
                        flight_bullet(v@[i as int]),
                    ));
                }
                i = i + 1;
            }
            assert(picked.take(shown as int) =~= picked);
            let list = join_texts(&lines, "\n");
            let mut c = concat3("Active flights at ", upper.as_str(), ":\n");
            c.append(list.as_str());
            c
        } else {
            concat2("Airport: ", upper.as_str())
        },
        None => concat2("Airport: ", upper.as_str()),
    };
    let mut user = concat3(
        "Investigate flight delays at **",
        upper.as_str(),
        "** airport.\n\n**Current flight data:**\n```\n",
    );
    user.append(context.as_str());
    user.append(
        "\n```\n\nFormat your response in Markdown:\n## 🚦 Delay Status\nStart with a severity indicator: 🟢 Minor / 🟡 Moderate / 🔴 Severe\n## 🔍 Root Cause Analysis\nUse a numbered list for likely causes in order of probability.\n## 🔗 Knock-on Effects\n## 💡 Passenger Recommendations\nUse a checklist: `- [ ] item`\n## 📊 Affected Flights\nIf flight data is available, list them in a table: | Flight | Route | Status |",
    );
    let assistant = concat3(
        "I'll investigate delays at **",
        upper.as_str(),
        "** and present a structured Markdown report.",
    );
    PromptText {
        user,
        assistant,
        description: Some(concat2("Delay investigation for ", upper.as_str())),
    }
}

/// The overview prompt of the whole network; it takes no arguments and has no description.
pub fn aviation_network_overview() -> (r: PromptText)
    ensures
        r.user@
            == "You have access to the **Sky Tracer** aviation network via MCP.\n\nFormat your response in Markdown:\n\n## 🛫 Sky Tracer — Capability Overview\n### 🔧 Tools\nList all available tools grouped by category in a table: | Tool | Description |\n### 📦 Resources\nExplain the `airports://{code}` URI scheme with an example.\n### 💬 Prompts\nList all prompts with their required arguments.\n### 💡 Suggested Queries\nProvide exactly **3** example questions a user might ask, formatted as a numbered list.\nEach suggestion should use a different capability (tool, resource, prompt)."@,
        r.assistant@
            == "Here's a Markdown overview of everything I can do with the Sky Tracer aviation network:"@,
        r.description is None,
{
    PromptText {
        user: owned(
            "You have access to the **Sky Tracer** aviation network via MCP.\n\nFormat your response in Markdown:\n\n## 🛫 Sky Tracer — Capability Overview\n### 🔧 Tools\nList all available tools grouped by category in a table: | Tool | Description |\n### 📦 Resources\nExplain the `airports://{code}` URI scheme with an example.\n### 💬 Prompts\nList all prompts with their required arguments.\n### 💡 Suggested Queries\nProvide exactly **3** example questions a user might ask, formatted as a numbered list.\nEach suggestion should use a different capability (tool, resource, prompt).",
        ),
        assistant: owned(
            "Here's a Markdown overview of everything I can do with the Sky Tracer aviation network:",
        ),
        description: None,
    }
}

} // verus!
