use deutsche_bahn_delay_reasons::Grund as Db;
use vstd::prelude::*;

use crate::flights::{format_utc, formatted_utc, times_in_range, Flight};
use crate::text::{concat2, concat3, owned};

verus! {

broadcast use vstd::string::group_string_axioms;

/// A reason why a flight is late.
#[derive(Debug, PartialEq)]
pub enum Grund {
    FahrtFaelltAus,
    FaehrtHeuteNurBis(String),
    VerzoegerungenImBetriebsablauf,
    Gleiswechsel,
    FahrtFaelltAusMitErsatzfahrt(String),
    TechnischeStoerungenAmZug,
    VerspaetungEinesVorausfahrendenZuges,
    VerspaeteteBereitstellungDesZuges,
    Bauarbeiten,
    WitterungsbedingteStoerung,
    WeichenStoerung,
    AenderungImFahrtverlauf,
    Unwetter,
}

/// The English text shown for a delay reason.
pub open spec fn grund_text(g: Grund) -> Seq<char> {
    match g {
        Grund::FahrtFaelltAus => "Flight cancelled"@,
        Grund::FaehrtHeuteNurBis(s) => "Flight only goes to "@ + s@,
        Grund::VerzoegerungenImBetriebsablauf => "Operational delays"@,
        Grund::Gleiswechsel => "Gate change"@,
        Grund::FahrtFaelltAusMitErsatzfahrt(s) => "Flight cancelled, replacement flight "@ + s@,
        Grund::TechnischeStoerungenAmZug => "Technical difficulties with aircraft"@,
        Grund::VerspaetungEinesVorausfahrendenZuges => "Delay due to previous flight"@,
        Grund::VerspaeteteBereitstellungDesZuges => "Delayed aircraft preparation"@,
        Grund::Bauarbeiten => "Runway maintenance"@,
        Grund::WitterungsbedingteStoerung => "Weather-related delay"@,
        Grund::WeichenStoerung => "Ground equipment malfunction"@,
        Grund::AenderungImFahrtverlauf => "Flight path changes"@,
        Grund::Unwetter => "Severe weather conditions"@,
    }
}

impl Clone for Grund {
    fn clone(&self) -> (r: Self)
        ensures
            r == *self,
    {
        match self {
            Grund::FahrtFaelltAus => Grund::FahrtFaelltAus,
            Grund::FaehrtHeuteNurBis(s) => Grund::FaehrtHeuteNurBis(s.clone()),
            Grund::VerzoegerungenImBetriebsablauf => Grund::VerzoegerungenImBetriebsablauf,
            Grund::Gleiswechsel => Grund::Gleiswechsel,
            Grund::FahrtFaelltAusMitErsatzfahrt(s) => Grund::FahrtFaelltAusMitErsatzfahrt(s.clone()),
            Grund::TechnischeStoerungenAmZug => Grund::TechnischeStoerungenAmZug,
            Grund::VerspaetungEinesVorausfahrendenZuges => Grund::VerspaetungEinesVorausfahrendenZuges,
            Grund::VerspaeteteBereitstellungDesZuges => Grund::VerspaeteteBereitstellungDesZuges,
            Grund::Bauarbeiten => Grund::Bauarbeiten,
            Grund::WitterungsbedingteStoerung => Grund::WitterungsbedingteStoerung,
            Grund::WeichenStoerung => Grund::WeichenStoerung,
            Grund::AenderungImFahrtverlauf => Grund::AenderungImFahrtverlauf,
            Grund::Unwetter => Grund::Unwetter,
        }
    }
}

impl Grund {
    /// The English text shown for the delay reason.
    pub fn description(&self) -> (r: String)
        ensures
            r@ == grund_text(*self),
    {
        match self {
            Grund::FahrtFaelltAus => owned("Flight cancelled"),
            Grund::FaehrtHeuteNurBis(s) => concat2("Flight only goes to ", s.as_str()),
            Grund::VerzoegerungenImBetriebsablauf => owned("Operational delays"),
            Grund::Gleiswechsel => owned("Gate change"),
            Grund::FahrtFaelltAusMitErsatzfahrt(s) => concat2(
                "Flight cancelled, replacement flight ",
                s.as_str(),
            ),
            Grund::TechnischeStoerungenAmZug => owned("Technical difficulties with aircraft"),
            Grund::VerspaetungEinesVorausfahrendenZuges => owned("Delay due to previous flight"),
            Grund::VerspaeteteBereitstellungDesZuges => owned("Delayed aircraft preparation"),
            Grund::Bauarbeiten => owned("Runway maintenance"),
            Grund::WitterungsbedingteStoerung => owned("Weather-related delay"),
            Grund::WeichenStoerung => owned("Ground equipment malfunction"),
            Grund::AenderungImFahrtverlauf => owned("Flight path changes"),
            Grund::Unwetter => owned("Severe weather conditions"),
        }
    }
}

/// The delay reasons of deutsche_bahn_delay_reasons that have a counterpart of their own
/// among the flight reasons, with their fields; every other reason of that crate (its
/// operational delays among them) is `Other`.
#[derive(Debug)]
pub enum DbReason {
    FahrtFaelltAus,
    FaehrtHeuteNurBis(String),
    Gleiswechsel,
    FahrtFaelltAusMitErsatzfahrt(String),
    TechnischeStoerungenAmZug,
    VerspaetungEinesVorausfahrendenZuges,
    VerspaeteteBereitstellungDesZuges,
    Bauarbeiten,
    WitterungsbedingteStoerung,
    Weichenstoerung,
    AenderungImFahrtverlauf,
    Unwetter,
    Other,
}

/// The stations deutsche_bahn_delay_reasons draws the "only goes to" reason's stop from.
pub open spec fn db_station(s: Seq<char>) -> bool {
    ||| s == "Hamburg Hbf"@
    ||| s == "München Hbf"@
    ||| s == "Köln Hbf"@
    ||| s == "Frankfurt (Main) Hbf"@
    ||| s == "Berlin Ostbahnhof"@
    ||| s == "Hannover Hbf"@
    ||| s == "Bielefeld Hbf"@
    ||| s == "Freiburg (Breisgau) Hbf"@
    ||| s == "Osnabrück Hbf"@
    ||| s == "Wolfsburg"@
}

/// The services deutsche_bahn_delay_reasons draws the "cancelled with replacement" reason's
/// replacement from.
pub open spec fn db_replacement(s: Seq<char>) -> bool {
    ||| s == "ICE 2506"@
    ||| s == "IC 2036"@
    ||| s == "Bus SEV 1"@
    ||| s == "Bus SEV 2"@
    ||| s == "RE 10126"@
}

/// A railway reason a draw can give: a stop from the station list, a replacement from the
/// replacement list.
pub open spec fn drawable_reason(r: DbReason) -> bool {
    match r {
        DbReason::FaehrtHeuteNurBis(s) => db_station(s@),
        DbReason::FahrtFaelltAusMitErsatzfahrt(s) => db_replacement(s@),
        _ => true,
    }
}

/// A flight reason a random draw can give: its stop or replacement comes from the lists a
/// railway reason is drawn with.
pub open spec fn drawable(g: Grund) -> bool {
    match g {
        Grund::FaehrtHeuteNurBis(s) => db_station(s@),
        Grund::FahrtFaelltAusMitErsatzfahrt(s) => db_replacement(s@),
        _ => true,
    }
}

/// deutsche_bahn_delay_reasons' `get_grund`: a random reason, taken variant by variant to
/// `DbReason` (fields moved), and every reason `DbReason` does not list to `Other` (the
/// outside enum is `#[non_exhaustive]`). Which reason comes is random; the crate's sampler
/// fills the stop of "only goes to" from its station list and the replacement of "cancelled
/// with replacement" from its replacement list.
#[verifier::external_body]
fn random_reason() -> (r: DbReason)
    ensures
        drawable_reason(r),
{
    match deutsche_bahn_delay_reasons::get_grund() {
        Db::FahrtFaelltAus => DbReason::FahrtFaelltAus,
        Db::FaehrtHeuteNurBis(s) => DbReason::FaehrtHeuteNurBis(s),
        Db::Gleiswechsel => DbReason::Gleiswechsel,
        Db::FahrtFaelltAusMitErsatzfahrt(s) => DbReason::FahrtFaelltAusMitErsatzfahrt(s),
        Db::TechnischeStoerungenAmZug => DbReason::TechnischeStoerungenAmZug,
        Db::VerspaetungEinesVorausfahrendenZuges => DbReason::VerspaetungEinesVorausfahrendenZuges,
        Db::VerspaeteteBereitstellungDesZuges => DbReason::VerspaeteteBereitstellungDesZuges,
        Db::Bauarbeiten => DbReason::Bauarbeiten,
        Db::WitterungsbedingteStoerung => DbReason::WitterungsbedingteStoerung,
        Db::Weichenstoerung => DbReason::Weichenstoerung,
        Db::AenderungImFahrtverlauf => DbReason::AenderungImFahrtverlauf,
        Db::Unwetter => DbReason::Unwetter,
        _ => DbReason::Other,
    }
}

/// The flight delay reason for a railway delay reason: each listed reason becomes its
/// counterpart, and every other one becomes operational delays.
pub open spec fn grund_of(r: DbReason) -> Grund {
    match r {
        DbReason::FahrtFaelltAus => Grund::FahrtFaelltAus,
        DbReason::FaehrtHeuteNurBis(s) => Grund::FaehrtHeuteNurBis(s),
        DbReason::Gleiswechsel => Grund::Gleiswechsel,
        DbReason::FahrtFaelltAusMitErsatzfahrt(s) => Grund::FahrtFaelltAusMitErsatzfahrt(s),
        DbReason::TechnischeStoerungenAmZug => Grund::TechnischeStoerungenAmZug,
        DbReason::VerspaetungEinesVorausfahrendenZuges => Grund::VerspaetungEinesVorausfahrendenZuges,
        DbReason::VerspaeteteBereitstellungDesZuges => Grund::VerspaeteteBereitstellungDesZuges,
        DbReason::Bauarbeiten => Grund::Bauarbeiten,
        DbReason::WitterungsbedingteStoerung => Grund::WitterungsbedingteStoerung,
        DbReason::Weichenstoerung => Grund::WeichenStoerung,
        DbReason::AenderungImFahrtverlauf => Grund::AenderungImFahrtverlauf,
        DbReason::Unwetter => Grund::Unwetter,
        DbReason::Other => Grund::VerzoegerungenImBetriebsablauf,
    }
}

impl Grund {
    /// The flight delay reason for a railway delay reason.
    pub fn from_reason(r: DbReason) -> (g: Grund)
        ensures
            g == grund_of(r),
    {
        match r {
            DbReason::FahrtFaelltAus => Grund::FahrtFaelltAus,
            DbReason::FaehrtHeuteNurBis(s) => Grund::FaehrtHeuteNurBis(s),
                DbReason::Gleiswechsel => Grund::Gleiswechsel,
            DbReason::FahrtFaelltAusMitErsatzfahrt(s) => Grund::FahrtFaelltAusMitErsatzfahrt(s),
            DbReason::TechnischeStoerungenAmZug => Grund::TechnischeStoerungenAmZug,
            DbReason::VerspaetungEinesVorausfahrendenZuges => Grund::VerspaetungEinesVorausfahrendenZuges,
            DbReason::VerspaeteteBereitstellungDesZuges => Grund::VerspaeteteBereitstellungDesZuges,
            DbReason::Bauarbeiten => Grund::Bauarbeiten,
            DbReason::WitterungsbedingteStoerung => Grund::WitterungsbedingteStoerung,
            DbReason::Weichenstoerung => Grund::WeichenStoerung,
            DbReason::AenderungImFahrtverlauf => Grund::AenderungImFahrtverlauf,
            DbReason::Unwetter => Grund::Unwetter,
            DbReason::Other => Grund::VerzoegerungenImBetriebsablauf,
        }
    }
}

/// A random delay reason: a random railway reason from deutsche_bahn_delay_reasons, taken to
/// its flight counterpart. Which one comes is not promised; a stop or replacement it names
/// comes from the railway crate's lists.
pub fn get_random_grund() -> (g: Grund)
    ensures
        drawable(g),
{
    Grund::from_reason(random_reason())
}

/// A flight together with the reason it is late, if it is.
#[derive(Debug)]
pub struct FlightWithDelay {
    pub flight: Flight,
    pub grund: Option<Grund>,
}

impl FlightWithDelay {
    /// A flight late for the given reason.
    pub fn with_grund(flight: Flight, grund: Grund) -> (r: Self)
        ensures
            r.flight == flight,
            r.grund == Some(grund),
    {
        FlightWithDelay { flight, grund: Some(grund) }
    }

    /// A flight late for a random reason.
    pub fn from(flight: Flight) -> (r: Self)
        ensures
            r.flight == flight,
            r.grund matches Some(g) && drawable(g),
    {
        FlightWithDelay { flight, grund: Some(get_random_grund()) }
    }

    /// The status line shown for the flight: the delay reason, or that it is on time.
    pub fn status_message(&self) -> (r: String)
        ensures
            self.grund matches Some(g) ==> r@ == grund_text(g),
            self.grund is None ==> r@ == "On Time ✓"@,
    {
        match &self.grund {
            Some(g) => g.description(),
            None => owned("On Time ✓"),
        }
    }
}

/// Every flight of the listing with a delay reason: each is given a random one.
pub fn with_delays(flights: &Vec<Flight>) -> (r: Vec<FlightWithDelay>)
    ensures
        r@.len() == flights@.len(),
        forall|i: int|
            0 <= i < flights@.len() ==> (#[trigger] r@[i]).flight == flights@[i] && (r@[i].grund matches Some(
                g,
            ) && drawable(g)),
{
    let mut out: Vec<FlightWithDelay> = Vec::new();
    let mut i: usize = 0;
    while i < flights.len()
        invariant
            i <= flights.len(),
            out@.len() == i,
            forall|k: int|
                0 <= k < i ==> (#[trigger] out@[k]).flight == flights@[k] && (out@[k].grund matches Some(
                    g,
                ) && drawable(g)),
        decreases flights.len() - i,
    {
        out.push(FlightWithDelay::from(flights[i].clone()));
        i = i + 1;
    }
    out
}

/// How a flight's status is shown: a style class, an icon and the message.
#[derive(Debug)]
pub struct GrundBadge {
    pub class: String,
    pub icon: String,
    pub message: String,
}

/// The status badge for a delay reason: `delay` with a warning sign and the reason's text, or
/// `on-time` with a plane and `On Time ✓`.
pub fn grund_badge(grund: &Option<Grund>) -> (r: GrundBadge)
    ensures
        *grund matches Some(g) ==> r.class@ == "delay"@ && r.icon@ == "⚠️"@ && r.message@
            == grund_text(g),
        *grund is None ==> r.class@ == "on-time"@ && r.icon@ == "✈️"@ && r.message@
            == "On Time ✓"@,
{
    match grund {
        Some(g) => GrundBadge { class: owned("delay"), icon: owned("⚠️"), message: g.description() },
        None => GrundBadge {
            class: owned("on-time"),
            icon: owned("✈️"),
            message: owned("On Time ✓"),
        },
    }
}

/// How a listed flight is shown: its number, route, departure line, arrival line (when the
/// arrival is known) and status badge.
#[derive(Debug)]
pub struct FlightCard {
    pub flight_number: String,
    pub route: String,
    pub departure: String,
    pub arrival: Option<String>,
    pub badge: GrundBadge,
}

/// How the card writes an instant: `YYYY-MM-DD HH:MM`.
pub open spec fn card_time(ts: i64) -> Seq<char> {
    formatted_utc(ts, "%Y-%m-%d %H:%M"@).unwrap()
}

/// The card of a listed flight.
pub fn flight_card(item: &FlightWithDelay) -> (r: FlightCard)
    requires
        times_in_range(item.flight),
    ensures
        r.flight_number@ == item.flight.flight_number@,
        r.route@ == item.flight.departure@ + " → "@ + item.flight.arrival@,
        r.departure@ == "Departure: "@ + card_time(item.flight.departure_time),
        item.flight.arrival_time matches Some(t) ==> (r.arrival matches Some(a) && a@ == "Arrival: "@
            + card_time(t)),
        item.flight.arrival_time is None ==> r.arrival is None,
        item.grund matches Some(g) ==> r.badge.class@ == "delay"@ && r.badge.message@ == grund_text(g),
        item.grund is None ==> r.badge.class@ == "on-time"@ && r.badge.message@ == "On Time ✓"@,
{
    let f = &item.flight;
    let departure_time = format_utc(f.departure_time, "%Y-%m-%d %H:%M").unwrap();
    let arrival = match f.arrival_time {
        Some(t) => {
            let text = format_utc(t, "%Y-%m-%d %H:%M").unwrap();
            Some(concat2("Arrival: ", text.as_str()))
        },
        None => None,
    };
    FlightCard {
        flight_number: f.flight_number.clone(),
        route: concat3(f.departure.as_str(), " → ", f.arrival.as_str()),
        departure: concat2("Departure: ", departure_time.as_str()),
        arrival,
        badge: grund_badge(&item.grund),
    }
}

} // verus!
