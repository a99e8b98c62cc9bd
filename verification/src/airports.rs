use vstd::prelude::*;

use crate::text::{
    concat2, concat3, eq_ascii_nocase, eq_ignore_ascii_case, join_texts, joined, owned,
    seq_contains, text_contains, to_upper, trim_text, trimmed, uppercase,
};

verus! {

broadcast use vstd::string::group_string_axioms;

/// Why a request to the airport service failed.
#[derive(Debug)]
pub enum AirportServiceError {
    /// The service could not be reached, answered with an error status, or sent a body that
    /// could not be read; holds the transport error's text.
    Network(String),
    NotFound(String),
    ParseError(String),
}

/// The text of an airport-service error, as its `Display` reads.
pub open spec fn airport_error_text(e: AirportServiceError) -> Seq<char> {
    match e {
        AirportServiceError::Network(m) => "Network error: "@ + m@,
        AirportServiceError::NotFound(m) => "Airport not found: "@ + m@,
        AirportServiceError::ParseError(m) => "Parse error: "@ + m@,
    }
}

impl AirportServiceError {
    /// The text of the error.
    pub fn message(&self) -> (r: String)
        ensures
            r@ == airport_error_text(*self),
    {
        match self {
            AirportServiceError::Network(m) => concat2("Network error: ", m.as_str()),
            AirportServiceError::NotFound(m) => concat2("Airport not found: ", m.as_str()),
            AirportServiceError::ParseError(m) => concat2("Parse error: ", m.as_str()),
        }
    }

    /// The HTTP status with which the airport lookup by code answers this error.
    pub fn http_status(&self) -> (r: u16)
        ensures
            self is NotFound ==> r == 404,
            !(self is NotFound) ==> r == 500,
    {
        match self {
            AirportServiceError::NotFound(_) => 404,
            _ => 500,
        }
    }
}

/// The airports the airport service's listing answer holds: the parsed list of a
/// successful answer, the transport's error otherwise (a body that cannot be read counts as
/// a transport error, as reqwest reports it).
pub fn airports_outcome<A>(success: bool, parsed: Result<Vec<A>, String>, status_error: &str) -> (r: Result<
    Vec<A>,
    AirportServiceError,
>)
    ensures
        success ==> (parsed matches Ok(v) ==> r == Ok::<Vec<A>, AirportServiceError>(v)),
        success ==> (parsed matches Err(e) ==> (r matches Err(AirportServiceError::Network(m)) && m@
            == e@)),
        !success ==> (r matches Err(AirportServiceError::Network(m)) && m@ == status_error@),
{
    if success {
        match parsed {
            Ok(v) => Ok(v),
            Err(e) => Err(AirportServiceError::Network(e)),
        }
    } else {
        Err(AirportServiceError::Network(owned(status_error)))
    }
}

/// The airport asked for by its code (IATA or ICAO).
#[derive(Debug)]
pub struct GetAirportRequest {
    pub code: String,
}

/// The airport the airport service's search answer for the requested code holds: the first
/// result of a successful answer, `NotFound` when it has none, the transport's error otherwise.
pub fn airport_by_code_outcome<A>(
    request: &GetAirportRequest,
    success: bool,
    parsed: Result<Vec<A>, String>,
    status_error: &str,
) -> (r: Result<A, AirportServiceError>)
    ensures
        success ==> (parsed matches Ok(v) ==> (v@.len() > 0 ==> r == Ok::<A, AirportServiceError>(
            v@[0],
        ))),
        success ==> (parsed matches Ok(v) ==> (v@.len() == 0 ==> (r matches Err(
            AirportServiceError::NotFound(m),
        ) && m@ == "Airport with code "@ + request.code@ + " not found"@))),
        success ==> (parsed matches Err(e) ==> (r matches Err(AirportServiceError::Network(m)) && m@
            == e@)),
        !success ==> (r matches Err(AirportServiceError::Network(m)) && m@ == status_error@),
{
    let code = request.code.as_str();
    match airports_outcome(success, parsed, status_error) {
        Ok(mut v) => {
            if v.len() == 0 {
                Err(AirportServiceError::NotFound(concat3("Airport with code ", code, " not found")))
            } else {
                Ok(v.remove(0))
            }
        },
        Err(e) => Err(e),
    }
}

/// What the airport lookup compares a query against: an airport's code and name.
#[derive(Debug)]
pub struct AirportLabel {
    pub code: String,
    pub name: String,
}

/// An airport matches an (upper-case) query when the query occurs in its upper-cased code or name.
pub open spec fn label_matches(l: AirportLabel, query_upper: Seq<char>) -> bool {
    seq_contains(uppercase(l.code@), query_upper) || seq_contains(uppercase(l.name@), query_upper)
}

/// The positions of the airports among the first `n` that match, in order.
pub open spec fn matching_positions(labels: Seq<AirportLabel>, query_upper: Seq<char>, n: int) -> Seq<int>
    decreases n,
{
    if n <= 0 {
        Seq::empty()
    } else {
        let rest = matching_positions(labels, query_upper, n - 1);
        if label_matches(labels[n - 1], query_upper) {
            rest.push(n - 1)
        } else {
            rest
        }
    }
}

/// The most matches the lookup offers.
pub open spec fn match_limit() -> int {
    12
}

proof fn lemma_positions_bounded(labels: Seq<AirportLabel>, q: Seq<char>, n: int)
    requires
        0 <= n,
    ensures
        matching_positions(labels, q, n).len() <= n,
        forall|j: int|
            0 <= j < matching_positions(labels, q, n).len() ==> 0 <= #[trigger] matching_positions(
                labels,
                q,
                n,
            )[j] < n,
    decreases n,
{
    if n > 0 {
        lemma_positions_bounded(labels, q, n - 1);
    }
}

/// The positions of the first (at most 12) airports that match the upper-case query, in order.
pub fn match_airports(query_upper: &str, labels: &Vec<AirportLabel>) -> (r: Vec<usize>)
    ensures
        r@.map_values(|i: usize| i as int) == ({
            let all = matching_positions(labels@, query_upper@, labels@.len() as int);
            if all.len() <= match_limit() {
                all
            } else {
                all.take(match_limit())
            }
        }),
{
    let mut out: Vec<usize> = Vec::new();
    let mut i: usize = 0;
    while i < labels.len() && out.len() < 12
        invariant
            i <= labels.len(),
            out@.len() <= 12,
            out@.map_values(|k: usize| k as int) == matching_positions(labels@, query_upper@, i as int),
        decreases labels.len() - i,
    {
        let code = to_upper(labels[i].code.as_str());
        let name = to_upper(labels[i].name.as_str());
        if text_contains(code.as_str(), query_upper) || text_contains(name.as_str(), query_upper) {
            out.push(i);
            assert(out@.map_values(|k: usize| k as int) =~= matching_positions(
                labels@,
                query_upper@,
                i as int,
            ).push(i as int));
        }
        i = i + 1;
    }
    proof {
        let all = matching_positions(labels@, query_upper@, labels@.len() as int);
        lemma_prefix_positions(labels@, query_upper@, i as int, labels@.len() as int);
        if i < labels@.len() {
            assert(out@.len() == 12);
            assert(all.take(12) =~= matching_positions(labels@, query_upper@, i as int));
        }
    }
    out
}

proof fn lemma_prefix_positions(labels: Seq<AirportLabel>, q: Seq<char>, m: int, n: int)
    requires
        0 <= m <= n,
    ensures
        matching_positions(labels, q, m).len() <= matching_positions(labels, q, n).len(),
        matching_positions(labels, q, n).take(matching_positions(labels, q, m).len() as int)
            == matching_positions(labels, q, m),
    decreases n - m,
{
    if m < n {
        lemma_prefix_positions(labels, q, m, n - 1);
        let a = matching_positions(labels, q, m);
        let b = matching_positions(labels, q, n - 1);
        let c = matching_positions(labels, q, n);
        if label_matches(labels[n - 1], q) {
            assert(c.take(a.len() as int) =~= b.take(a.len() as int));
        } else {
        }
    } else {
        let a = matching_positions(labels, q, m);
        assert(a.take(a.len() as int) =~= a);
    }
}

/// `name (code)` for each offered airport.
pub open spec fn option_lines(labels: Seq<AirportLabel>, picks: Seq<usize>) -> Seq<Seq<char>> {
    picks.map_values(|i: usize| labels[i as int].name@ + " ("@ + labels[i as int].code@ + ")"@)
}

/// The code of each offered airport.
pub open spec fn option_codes(labels: Seq<AirportLabel>, picks: Seq<usize>) -> Seq<Seq<char>> {
    picks.map_values(|i: usize| labels[i as int].code@)
}

fn collect_lines(labels: &Vec<AirportLabel>, picks: &Vec<usize>, with_names: bool) -> (r: Vec<String>)
    requires
        forall|j: int| 0 <= j < picks@.len() ==> #[trigger] picks@[j] < labels@.len(),
    ensures
        with_names ==> r@.map_values(|s: String| s@) == option_lines(labels@, picks@),
        !with_names ==> r@.map_values(|s: String| s@) == option_codes(labels@, picks@),
{
    let mut out: Vec<String> = Vec::new();
    let mut j: usize = 0;
    while j < picks.len()
        invariant
            forall|k: int| 0 <= k < picks@.len() ==> #[trigger] picks@[k] < labels@.len(),
            j <= picks.len(),
            with_names ==> out@.map_values(|s: String| s@) == option_lines(labels@, picks@.take(j as int)),
            !with_names ==> out@.map_values(|s: String| s@) == option_codes(labels@, picks@.take(j as int)),
        decreases picks.len() - j,
    {
        let l = &labels[picks[j]];
        let ghost before = out@;
        if with_names {
            out.push(crate::text::concat4(l.name.as_str(), " (", l.code.as_str(), ")"));
        } else {
            out.push(owned(l.code.as_str()));
        }
        proof {
            assert(picks@.take(j + 1) =~= picks@.take(j as int).push(picks@[j as int]));
            assert(out@ == before.push(out@.last()));
            assert(out@.map_values(|s: String| s@) =~= before.map_values(|s: String| s@).push(
                out@.last()@,
            ));
            assert(option_lines(labels@, picks@.take(j + 1)) =~= option_lines(labels@, picks@.take(j as int)).push(
                labels@[picks@[j as int] as int].name@ + " ("@ + labels@[picks@[j as int] as int].code@ + ")"@,
            ));
            assert(option_codes(labels@, picks@.take(j + 1)) =~= option_codes(labels@, picks@.take(j as int)).push(
                labels@[picks@[j as int] as int].code@,
            ));
        }
        j = j + 1;
    }
    assert(picks@.take(picks.len() as int) =~= picks@);
    out
}

/// The question put to the user when several airports match `query`.
pub fn choice_prompt(query: &str, labels: &Vec<AirportLabel>, picks: &Vec<usize>) -> (r: String)
    requires
        forall|j: int| 0 <= j < picks@.len() ==> #[trigger] picks@[j] < labels@.len(),
    ensures
        r@ == "Multiple airports match '"@ + query@ + "'. Choose one airport_code from:\n- "@ + joined(
            option_lines(labels@, picks@),
            "\n- "@,
        ),
{
    let lines = collect_lines(labels, picks, true);
    let list = join_texts(&lines, "\n- ");
    let mut r = concat3("Multiple airports match '", query, "'. Choose one airport_code from:\n- ");
    r.append(list.as_str());
    r
}

/// The answer when several airports match `query` but the client cannot be asked to choose.
pub fn choice_fallback(query: &str, labels: &Vec<AirportLabel>, picks: &Vec<usize>) -> (r: String)
    requires
        forall|j: int| 0 <= j < picks@.len() ==> #[trigger] picks@[j] < labels@.len(),
    ensures
        r@ == "Multiple matches for '"@ + query@
            + "'. Client does not support elicitation.\nCall get_airport with one of:\n- "@ + joined(
            option_codes(labels@, picks@),
            "\n- "@,
        ),
{
    let codes = collect_lines(labels, picks, false);
    let list = join_texts(&codes, "\n- ");
    let mut r = concat3(
        "Multiple matches for '",
        query,
        "'. Client does not support elicitation.\nCall get_airport with one of:\n- ",
    );
    r.append(list.as_str());
    r
}

/// The code the user chose, as compared: trimmed and upper-cased.
pub fn normalize_choice(selection: &str) -> (r: String)
    ensures
        r@ == uppercase(trimmed(selection@)),
{
    let t = trim_text(selection);
    to_upper(t.as_str())
}

/// The airport code the user picked from the offered ones.
#[derive(Debug)]
pub struct SelectedAirportCode {
    pub airport_code: String,
}

/// The offered airport whose code equals the chosen one, trimmed and upper-cased (ASCII case
/// ignored): the first such, or the refusal naming the offered codes.
pub fn select_airport(selection: &SelectedAirportCode, labels: &Vec<AirportLabel>, picks: &Vec<usize>) -> (r: Result<
    usize,
    String,
>)
    requires
        forall|j: int| 0 <= j < picks@.len() ==> #[trigger] picks@[j] < labels@.len(),
    ensures
        ({
            let chosen = uppercase(trimmed(selection.airport_code@));
            match r {
                Ok(i) => exists|j: int|
                    0 <= j < picks@.len() && picks@[j] == i && eq_ascii_nocase(
                        labels@[i as int].code@,
                        chosen,
                    ) && forall|k: int|
                        0 <= k < j ==> !eq_ascii_nocase(labels@[picks@[k] as int].code@, chosen),
                Err(m) => (forall|j: int|
                    0 <= j < picks@.len() ==> !eq_ascii_nocase(
                        labels@[picks@[j] as int].code@,
                        chosen,
                    )) && m@ == "Invalid airport_code '"@ + chosen + "'. Choose one of: "@
                    + joined(option_codes(labels@, picks@), ", "@),
            }
        }),
{
    let normalized = normalize_choice(selection.airport_code.as_str());
    let chosen = normalized.as_str();
    let mut j: usize = 0;
    while j < picks.len()
        invariant
            forall|k: int| 0 <= k < picks@.len() ==> #[trigger] picks@[k] < labels@.len(),
            chosen@ == uppercase(trimmed(selection.airport_code@)),
            j <= picks.len(),
            forall|k: int| 0 <= k < j ==> !eq_ascii_nocase(labels@[picks@[k] as int].code@, chosen@),
        decreases picks.len() - j,
    {
        let i = picks[j];
        if eq_ignore_ascii_case(labels[i].code.as_str(), chosen) {
            return Ok(i);
        }
        j = j + 1;
    }
    let codes = collect_lines(labels, picks, false);
    let list = join_texts(&codes, ", ");
    let mut m = concat3("Invalid airport_code '", chosen, "'. Choose one of: ");
    m.append(list.as_str());
    Err(m)
}

/// How an airport query resolves before the user is asked anything.
#[derive(Debug)]
pub enum QueryResolution {
    /// The query is blank; the answer is the given text.
    Blank(String),
    /// Nothing matches; the answer is the given text.
    NoMatch(String),
    /// Exactly one airport matches: its position.
    Single(usize),
    /// Several airports match: their positions, and the question to put to the user.
    Several(Vec<usize>, String),
}

/// An airport query: a code or a fragment of a name (e.g. FRA, Frank).
#[derive(Debug)]
pub struct ResolveAirportRequest {
    pub query: String,
}

/// The answer to a blank airport query, given before any airport is fetched: a query that
/// is blank once trimmed is refused; any other gets no answer here.
pub fn blank_query_answer(request: &ResolveAirportRequest) -> (r: Option<String>)
    ensures
        trimmed(request.query@).len() == 0 ==> (r matches Some(t) && t@
            == "Please provide a non-empty airport query."@),
        trimmed(request.query@).len() > 0 ==> r is None,
{
    let q = trim_text(request.query.as_str());
    if q.as_str().is_empty() {
        Some(owned("Please provide a non-empty airport query."))
    } else {
        None
    }
}

/// Resolves an airport query against the known airports: a blank query is refused, and the
/// trimmed query is matched in upper case against codes and names.
pub fn resolve_airport_query(request: &ResolveAirportRequest, labels: &Vec<AirportLabel>) -> (r:
    QueryResolution)
    ensures
        trimmed(request.query@).len() == 0 ==> (r matches QueryResolution::Blank(t) && t@
            == "Please provide a non-empty airport query."@),
        trimmed(request.query@).len() > 0 ==> ({
            let all = matching_positions(labels@, uppercase(trimmed(request.query@)), labels@.len() as int);
            let offered = if all.len() <= match_limit() {
                all
            } else {
                all.take(match_limit())
            };
            &&& offered.len() == 0 ==> (r matches QueryResolution::NoMatch(t) && t@
                == "No airports found matching '"@ + trimmed(request.query@) + "'."@)
            &&& offered.len() == 1 ==> (r matches QueryResolution::Single(i) && i == offered[0])
            &&& offered.len() > 1 ==> (r matches QueryResolution::Several(picks, t) && picks@.map_values(
                |i: usize| i as int,
            ) == offered && t@ == "Multiple airports match '"@ + trimmed(request.query@)
                + "'. Choose one airport_code from:\n- "@ + joined(
                option_lines(labels@, picks@),
                "\n- "@,
            ))
        }),
{
    let q = trim_text(request.query.as_str());
    if q.as_str().is_empty() {
        return QueryResolution::Blank(owned("Please provide a non-empty airport query."));
    }
    let upper = to_upper(q.as_str());
    let picks = match_airports(upper.as_str(), labels);
    proof {
        lemma_positions_bounded(labels@, upper@, labels@.len() as int);
        let all = matching_positions(labels@, upper@, labels@.len() as int);
        let offered = if all.len() <= 12 { all } else { all.take(12) };
        assert(picks@.map_values(|i: usize| i as int).len() == picks@.len());
        assert(picks@.len() == offered.len());
        assert forall|j: int| 0 <= j < picks@.len() implies #[trigger] picks@[j] < labels@.len() by {
            assert(picks@.map_values(|i: usize| i as int)[j] == picks@[j] as int);
            assert(offered[j] == all[j]);
        }
    }
    if picks.len() == 0 {
        QueryResolution::NoMatch(concat3("No airports found matching '", q.as_str(), "'."))
    } else if picks.len() == 1 {
        let i = picks[0];
        proof {
            assert(picks@.map_values(|k: usize| k as int)[0] == picks@[0] as int);
        }
        QueryResolution::Single(i)
    } else {
        let prompt = choice_prompt(q.as_str(), labels, &picks);
        QueryResolution::Several(picks, prompt)
    }
}

/// How the user answered the question which airport they meant.
#[derive(Debug)]
pub enum ElicitationOutcome {
    /// The user picked a code.
    Selected(SelectedAirportCode),
    /// The user answered without picking one.
    NoSelection,
    /// The client cannot ask the user.
    NotSupported,
    /// The user declined or cancelled.
    Declined,
    /// Asking failed; holds the failure's text.
    Failed(String),
}

/// What the airport resolution settles on once the user was asked.
#[derive(Debug)]
pub enum AirportChoice {
    /// The offered airport at this position.
    Chosen(usize),
    /// A text answer instead of an airport.
    Answer(String),
}

/// Why settling the airport choice failed.
#[derive(Debug)]
pub enum ChoiceFailure {
    /// The picked code is not among the offered ones; holds the refusal.
    InvalidAirportCode(String),
    /// Asking the user failed; holds the failure's text.
    SelectionFailed(String),
}

/// Settles which of the offered airports `picks` the query `request` meant, given how the
/// user answered: the chosen airport, a text for an answer without a choice (including the
/// list of codes when the client cannot ask), or the failure.
pub fn settle_airport_choice(
    request: &ResolveAirportRequest,
    labels: &Vec<AirportLabel>,
    picks: &Vec<usize>,
    outcome: ElicitationOutcome,
) -> (r: Result<AirportChoice, ChoiceFailure>)
    requires
        forall|j: int| 0 <= j < picks@.len() ==> #[trigger] picks@[j] < labels@.len(),
    ensures
        ({
            let query = trimmed(request.query@);
            match outcome {
                ElicitationOutcome::Selected(sel) => {
                    let chosen = uppercase(trimmed(sel.airport_code@));
                    &&& (exists|j: int|
                        0 <= j < picks@.len() && eq_ascii_nocase(
                            labels@[picks@[j] as int].code@,
                            chosen,
                        )) ==> (r matches Ok(AirportChoice::Chosen(i)) && exists|j: int|
                        0 <= j < picks@.len() && picks@[j] == i && eq_ascii_nocase(
                            labels@[i as int].code@,
                            chosen,
                        ) && forall|k: int|
                            0 <= k < j ==> !eq_ascii_nocase(
                                labels@[picks@[k] as int].code@,
                                chosen,
                            ))
                    &&& !(exists|j: int|
                        0 <= j < picks@.len() && eq_ascii_nocase(
                            labels@[picks@[j] as int].code@,
                            chosen,
                        )) ==> (r matches Err(ChoiceFailure::InvalidAirportCode(m)) && m@
                        == "Invalid airport_code '"@ + chosen + "'. Choose one of: "@ + joined(
                        option_codes(labels@, picks@),
                        ", "@,
                    ))
                },
                ElicitationOutcome::NoSelection => r matches Ok(AirportChoice::Answer(t)) && t@
                    == "No airport was selected."@,
                ElicitationOutcome::NotSupported => r matches Ok(AirportChoice::Answer(t)) && t@
                    == "Multiple matches for '"@ + query
                    + "'. Client does not support elicitation.\nCall get_airport with one of:\n- "@
                    + joined(option_codes(labels@, picks@), "\n- "@),
                ElicitationOutcome::Declined => r matches Ok(AirportChoice::Answer(t)) && t@
                    == "Airport selection cancelled."@,
                ElicitationOutcome::Failed(e) => r matches Err(ChoiceFailure::SelectionFailed(m))
                    && m@ == e@,
            }
        }),
{
    match outcome {
        ElicitationOutcome::Selected(sel) => match select_airport(&sel, labels, picks) {
            Ok(i) => Ok(AirportChoice::Chosen(i)),
            Err(m) => Err(ChoiceFailure::InvalidAirportCode(m)),
        },
        ElicitationOutcome::NoSelection => Ok(AirportChoice::Answer(owned("No airport was selected."))),
        ElicitationOutcome::NotSupported => {
            let q = trim_text(request.query.as_str());
            Ok(AirportChoice::Answer(choice_fallback(q.as_str(), labels, picks)))
        },
        ElicitationOutcome::Declined => Ok(AirportChoice::Answer(owned("Airport selection cancelled."))),
        ElicitationOutcome::Failed(e) => Err(ChoiceFailure::SelectionFailed(e)),
    }
}

} // verus!
