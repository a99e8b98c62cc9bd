use sky_tracer_demo::config::Config;
use sky_tracer_demo::flights::Flight;
use sky_tracer_demo::grund::{
    flight_card, get_random_grund, grund_badge, with_delays, DbReason, FlightWithDelay, Grund,
};

fn flight(number: &str, arrival_time: Option<i64>) -> Flight {
    Flight {
        flight_number: number.to_string(),
        aircraft_number: "D-AIMA".to_string(),
        departure: "FRA".to_string(),
        arrival: "LIS".to_string(),
        departure_time: 1709296200,
        arrival_time,
    }
}

#[test]
fn config_points_at_the_flights_api() {
    assert_eq!(Config::flights_api_url(), "/api/flights");
    assert_eq!(Config::api_base_url(None), "");
    assert_eq!(Config::api_base_url(Some("https://flights.example".to_string())), "https://flights.example");
}

#[test]
fn reasons_are_described_in_english() {
    assert_eq!(Grund::FahrtFaelltAus.description(), "Flight cancelled");
    assert_eq!(Grund::FaehrtHeuteNurBis("Lisbon".to_string()).description(), "Flight only goes to Lisbon");
    assert_eq!(Grund::VerzoegerungenImBetriebsablauf.description(), "Operational delays");
    assert_eq!(Grund::Gleiswechsel.description(), "Gate change");
    assert_eq!(
        Grund::FahrtFaelltAusMitErsatzfahrt("LH9".to_string()).description(),
        "Flight cancelled, replacement flight LH9"
    );
    assert_eq!(Grund::TechnischeStoerungenAmZug.description(), "Technical difficulties with aircraft");
    assert_eq!(Grund::VerspaetungEinesVorausfahrendenZuges.description(), "Delay due to previous flight");
    assert_eq!(Grund::VerspaeteteBereitstellungDesZuges.description(), "Delayed aircraft preparation");
    assert_eq!(Grund::Bauarbeiten.description(), "Runway maintenance");
    assert_eq!(Grund::WitterungsbedingteStoerung.description(), "Weather-related delay");
    assert_eq!(Grund::WeichenStoerung.description(), "Ground equipment malfunction");
    assert_eq!(Grund::AenderungImFahrtverlauf.description(), "Flight path changes");
    assert_eq!(Grund::Unwetter.description(), "Severe weather conditions");
}

#[test]
fn random_reasons_are_reasons() {
    let stations = [
        "Hamburg Hbf", "München Hbf", "Köln Hbf", "Frankfurt (Main) Hbf", "Berlin Ostbahnhof",
        "Hannover Hbf", "Bielefeld Hbf", "Freiburg (Breisgau) Hbf", "Osnabrück Hbf", "Wolfsburg",
    ];
    let replacements = ["ICE 2506", "IC 2036", "Bus SEV 1", "Bus SEV 2", "RE 10126"];
    for _ in 0..500 {
        let g = get_random_grund();
        assert!(!g.description().is_empty());
        match &g {
            Grund::FaehrtHeuteNurBis(s) => assert!(stations.contains(&s.as_str())),
            Grund::FahrtFaelltAusMitErsatzfahrt(s) => assert!(replacements.contains(&s.as_str())),
            _ => {}
        }
    }
}

#[test]
fn flights_get_delay_reasons() {
    let f = flight("LH1", None);
    let d = FlightWithDelay::with_grund(f.clone(), Grund::Unwetter);
    assert_eq!(d.grund, Some(Grund::Unwetter));
    assert_eq!(d.status_message(), "Severe weather conditions");
    let d = FlightWithDelay::from(f.clone());
    assert!(d.grund.is_some());
    assert_eq!(d.flight.flight_number, "LH1");
    let on_time = FlightWithDelay { flight: f, grund: None };
    assert_eq!(on_time.status_message(), "On Time ✓");

    let flights = vec![flight("LH1", None), flight("LH2", Some(1709303400))];
    let delayed = with_delays(&flights);
    assert_eq!(delayed.len(), 2);
    assert_eq!(delayed[1].flight.flight_number, "LH2");
    assert!(delayed.iter().all(|d| d.grund.is_some()));
}

#[test]
fn cards_show_flights_and_their_status() {
    let badge = grund_badge(&Some(Grund::Gleiswechsel));
    assert_eq!(badge.class, "delay");
    assert_eq!(badge.icon, "⚠️");
    assert_eq!(badge.message, "Gate change");
    let badge = grund_badge(&None);
    assert_eq!(badge.class, "on-time");
    assert_eq!(badge.icon, "✈️");
    assert_eq!(badge.message, "On Time ✓");

    let card = flight_card(&FlightWithDelay { flight: flight("LH2", Some(1709303400)), grund: None });
    assert_eq!(card.flight_number, "LH2");
    assert_eq!(card.route, "FRA → LIS");
    assert_eq!(card.departure, "Departure: 2024-03-01 12:30");
    assert_eq!(card.arrival.as_deref(), Some("Arrival: 2024-03-01 14:30"));
    assert_eq!(card.badge.class, "on-time");
    let card = flight_card(&FlightWithDelay::with_grund(flight("LH3", None), Grund::Bauarbeiten));
    assert_eq!(card.arrival, None);
    assert_eq!(card.badge.message, "Runway maintenance");
}

#[test]
fn railway_reasons_become_flight_reasons() {
    assert_eq!(Grund::from_reason(DbReason::Weichenstoerung), Grund::WeichenStoerung);
    assert_eq!(Grund::from_reason(DbReason::Unwetter), Grund::Unwetter);
    assert_eq!(
        Grund::from_reason(DbReason::FaehrtHeuteNurBis("Köln".to_string())),
        Grund::FaehrtHeuteNurBis("Köln".to_string())
    );
    assert_eq!(
        Grund::from_reason(DbReason::FahrtFaelltAusMitErsatzfahrt("ICE 5".to_string())),
        Grund::FahrtFaelltAusMitErsatzfahrt("ICE 5".to_string())
    );
    assert_eq!(Grund::from_reason(DbReason::Other), Grund::VerzoegerungenImBetriebsablauf);
}
