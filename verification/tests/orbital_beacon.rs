use chrono::{Duration, Utc};
use sky_tracer_demo::beacon::{
    default_form_times, escape_html, flash_notice, get_service_base_url, parse_form_datetime,
    parse_status, position_error_response, position_form_times, position_page_message,
    status_class, status_form_action, status_update_error_response, CreateSatelliteForm,
    FlashMessage, UpdateStatusForm,
};
use sky_tracer_demo::flight_position::{first_search_result, resolve_airport, FlightPositionRequest};
use sky_tracer_demo::satellite::SatelliteStatus;
use sky_tracer_demo::satellite_service::{SatelliteService, SatelliteServiceError};
use sky_tracer_demo::tracking::{PositionAction, PositionJob};

fn progress_value(request: &FlightPositionRequest) -> f64 {
    let p = request.calculate_progress();
    p.elapsed as f64 / p.total as f64
}

#[test]
fn test_flight_position_request_creation() {
    let departure_time = Utc::now();
    let arrival_time = departure_time + Duration::hours(2);

    let request = FlightPositionRequest::new(
        "FRA".to_string(),
        "LIS".to_string(),
        departure_time.timestamp(),
        arrival_time.timestamp(),
    );

    assert_eq!(request.departure_code, "FRA");
    assert_eq!(request.arrival_code, "LIS");
    assert_eq!(request.departure_time, departure_time.timestamp());
    assert_eq!(request.arrival_time, arrival_time.timestamp());
    assert!(request.current_time.is_none());
}

#[test]
fn test_flight_position_request_with_current_time() {
    let departure_time = Utc::now();
    let arrival_time = departure_time + Duration::hours(2);
    let current_time = departure_time + Duration::hours(1);

    let request = FlightPositionRequest::new(
        "FRA".to_string(),
        "LIS".to_string(),
        departure_time.timestamp(),
        arrival_time.timestamp(),
    )
    .with_current_time(current_time.timestamp());

    assert_eq!(request.current_time, Some(current_time.timestamp()));
}

#[test]
fn test_calculate_progress() {
    let departure_time = Utc::now() - Duration::hours(1);
    let arrival_time = departure_time + Duration::hours(2);
    let current_time = departure_time + Duration::hours(1);

    let request = FlightPositionRequest::new(
        "FRA".to_string(),
        "LIS".to_string(),
        departure_time.timestamp(),
        arrival_time.timestamp(),
    )
    .with_current_time(current_time.timestamp());

    let progress = progress_value(&request);
    assert!((progress - 0.5).abs() < 0.01);
}

#[test]
fn test_is_in_progress() {
    let departure_time = Utc::now() - Duration::hours(1);
    let arrival_time = departure_time + Duration::hours(2);

    let current_time = departure_time + Duration::minutes(30);
    let request = FlightPositionRequest::new(
        "FRA".to_string(),
        "LIS".to_string(),
        departure_time.timestamp(),
        arrival_time.timestamp(),
    )
    .with_current_time(current_time.timestamp());

    assert!(request.is_in_progress());

    let current_time = departure_time - Duration::minutes(30);
    let request = request.with_current_time(current_time.timestamp());
    assert!(!request.is_in_progress());

    let current_time = arrival_time + Duration::minutes(30);
    let request = request.with_current_time(current_time.timestamp());
    assert!(!request.is_in_progress());
}

#[test]
fn test_create_satellite() {
    let mut service = SatelliteService::new("http://localhost:3000".to_string());
    let result = service.create_satellite("Test Satellite".to_string());

    assert!(result.is_ok());
    let satellite = result.unwrap();
    assert_eq!(satellite.name, "Test Satellite");
    assert_eq!(satellite.status, SatelliteStatus::Inactive);
}

#[test]
fn test_update_satellite_status() {
    let mut service = SatelliteService::new("http://localhost:3000".to_string());
    let satellite = service.create_satellite("Test Satellite".to_string()).unwrap();

    let result = service.update_satellite_status(satellite.id, SatelliteStatus::Active);

    assert!(result.is_ok());
    let updated_satellite = result.unwrap();
    assert_eq!(updated_satellite.status, SatelliteStatus::Active);
}

#[test]
fn test_update_nonexistent_satellite() {
    let mut service = SatelliteService::new("http://localhost:3000".to_string());
    let fake_id = uuid::Uuid::new_v4().as_u128();

    let result = service.update_satellite_status(fake_id, SatelliteStatus::Active);

    assert!(result.is_err());
    match result.unwrap_err() {
        SatelliteServiceError::InvalidSatelliteId(_) => {}
        _ => panic!("Expected InvalidSatelliteId error"),
    }
}

#[test]
fn test_list_satellites() {
    let mut service = SatelliteService::new("http://localhost:3000".to_string());

    let satellites = service.list_satellites();
    assert!(satellites.is_empty());

    service.create_satellite("Satellite 1".to_string()).unwrap();
    service.create_satellite("Satellite 2".to_string()).unwrap();

    let satellites = service.list_satellites();
    assert_eq!(satellites.len(), 2);
}

#[test]
fn test_flight_position_request_progress() {
    let departure_time = Utc::now() - Duration::hours(1);
    let arrival_time = departure_time + Duration::hours(2);
    let current_time = departure_time + Duration::hours(1);

    let request = FlightPositionRequest::new(
        "FRA".to_string(),
        "LIS".to_string(),
        departure_time.timestamp(),
        arrival_time.timestamp(),
    )
    .with_current_time(current_time.timestamp());

    assert!(request.is_in_progress());
    let progress = progress_value(&request);
    assert!((progress - 0.5).abs() < 0.01);
}

#[test]
fn progress_is_exact_fraction_and_clamped() {
    let request = FlightPositionRequest::new("FRA".to_string(), "LIS".to_string(), 1000, 4600);
    let p = request.progress_at(1900);
    assert_eq!((p.elapsed, p.total), (900, 3600));
    let before = request.progress_at(999);
    assert_eq!((before.elapsed, before.total), (0, 1));
    let after = request.progress_at(4601);
    assert_eq!((after.elapsed, after.total), (1, 1));
    let at_arrival = request.progress_at(4600);
    assert_eq!((at_arrival.elapsed, at_arrival.total), (3600, 3600));
    assert!(!request.is_in_progress_at(1000));
    assert!(request.is_in_progress_at(1001));
    assert!(request.is_in_progress_at(4599));
    assert!(!request.is_in_progress_at(4600));
}

#[test]
fn instantaneous_flight_has_empty_fraction() {
    let request = FlightPositionRequest::new("FRA".to_string(), "FRA".to_string(), 50, 50);
    let p = request.progress_at(50);
    assert_eq!((p.elapsed, p.total), (0, 0));
    assert!(!request.is_in_progress_at(50));
}

#[test]
fn read_after_create_and_update() {
    let mut service = SatelliteService::new("http://localhost:3000".to_string());
    let a = service.create_satellite("Alpha".to_string()).unwrap();
    let b = service.create_satellite("Beta".to_string()).unwrap();
    let got = service.get_satellite(a.id).unwrap();
    assert_eq!(got.name, "Alpha");
    assert_eq!(got.status, SatelliteStatus::Inactive);

    service.update_satellite_status(a.id, SatelliteStatus::Maintenance).unwrap();
    assert_eq!(service.get_satellite(a.id).unwrap().status, SatelliteStatus::Maintenance);
    assert_eq!(service.get_satellite(b.id).unwrap().status, SatelliteStatus::Inactive);
    assert_eq!(service.get_satellite(b.id).unwrap().name, "Beta");
    assert_eq!(service.airport_service_url(), "http://localhost:3000");
}

#[test]
fn update_of_unknown_satellite_changes_nothing() {
    let mut service = SatelliteService::new("http://airports".to_string());
    let a = service.create_satellite("Alpha".to_string()).unwrap();
    let unknown = a.id.wrapping_add(1);
    match service.update_satellite_status(unknown, SatelliteStatus::Active) {
        Err(SatelliteServiceError::InvalidSatelliteId(text)) => {
            assert_eq!(text, uuid::Uuid::from_u128(unknown).to_string());
        }
        _ => panic!("expected InvalidSatelliteId"),
    }
    assert!(service.update_status(unknown, SatelliteStatus::Active).is_none());
    assert_eq!(service.list_satellites().len(), 1);
    assert_eq!(service.get_satellite(a.id).unwrap().status, SatelliteStatus::Inactive);
    assert!(service.get_satellite(unknown).is_none());
}

#[test]
fn uuid_text_is_hyphenated_lower_case() {
    let text = status_form_action("", 0x0123456789abcdef0123456789abcdef);
    assert_eq!(text, "/update_status/01234567-89ab-cdef-0123-456789abcdef");
}

#[test]
fn active_satellites_are_the_tracking_ones() {
    let mut service = SatelliteService::new("http://airports".to_string());
    assert!(matches!(service.tracking_satellites(), Err(SatelliteServiceError::NoActiveSatellites)));
    let a = service.create_satellite("Alpha".to_string()).unwrap();
    let b = service.create_satellite("Beta".to_string()).unwrap();
    assert!(service.active_satellites().is_empty());
    service.update_satellite_status(b.id, SatelliteStatus::Active).unwrap();
    let active = service.tracking_satellites().unwrap();
    assert_eq!(active.len(), 1);
    assert_eq!(active[0].id, b.id);
    assert_ne!(active[0].id, a.id);
}

#[test]
fn position_job_runs_to_a_plan() {
    let mut service = SatelliteService::new("http://airports".to_string());
    let s = service.create_satellite("Alpha".to_string()).unwrap();
    service.update_satellite_status(s.id, SatelliteStatus::Active).unwrap();
    let request =
        FlightPositionRequest::new("FRA".to_string(), "LIS".to_string(), 0, 7200).with_current_time(3600);
    let (job, action) = service.start_position_calculation::<&str>(request);
    match action {
        PositionAction::FetchAirport(code) => assert_eq!(code, "FRA"),
        _ => panic!("expected a fetch"),
    }
    let job: PositionJob<&str> = job.unwrap();
    let (job, action) = job.on_airport(Ok(Some("Frankfurt")));
    match action {
        PositionAction::FetchAirport(code) => assert_eq!(code, "LIS"),
        _ => panic!("expected a fetch"),
    }
    let (job, action) = job.unwrap().on_airport(Ok(Some("Lisbon")));
    assert!(job.is_none());
    match action {
        PositionAction::Finished(Ok(plan)) => {
            assert_eq!(plan.satellites, vec![s.id]);
            assert_eq!((plan.progress.elapsed, plan.progress.total), (3600, 7200));
            assert_eq!(plan.departure_airport, "Frankfurt");
            assert_eq!(plan.arrival_airport, "Lisbon");
        }
        _ => panic!("expected a plan"),
    }
}

#[test]
fn position_job_reports_missing_airports_and_satellites() {
    let mut service = SatelliteService::new("http://airports".to_string());
    let request = FlightPositionRequest::new("FRA".to_string(), "LIS".to_string(), 0, 10);
    let (job, action) = service.start_position_calculation::<&str>(request);
    assert!(job.is_none());
    assert!(matches!(
        action,
        PositionAction::Finished(Err(SatelliteServiceError::NoActiveSatellites))
    ));

    let s = service.create_satellite("Alpha".to_string()).unwrap();
    service.update_satellite_status(s.id, SatelliteStatus::Active).unwrap();
    let request =
        FlightPositionRequest::new("FRA".to_string(), "LIS".to_string(), 0, 10).with_current_time(20);
    let (job, _) = service.start_position_calculation::<&str>(request);
    let (job, _) = job.unwrap().on_airport(Ok(Some("Frankfurt")));
    let (_, action) = job.unwrap().on_airport(Ok(None));
    match action {
        PositionAction::Finished(Err(SatelliteServiceError::AirportNotFound(code))) => {
            assert_eq!(code, "LIS")
        }
        _ => panic!("expected AirportNotFound"),
    }

    let request = FlightPositionRequest::new("FRA".to_string(), "LIS".to_string(), 0, 10).with_current_time(20);
    let (job, _) = service.start_position_calculation::<&str>(request);
    let (_, action) = job.unwrap().on_airport(Err("connection refused".to_string()));
    match action {
        PositionAction::Finished(Err(SatelliteServiceError::AirportFetchError(m))) => {
            assert_eq!(m, "connection refused")
        }
        _ => panic!("expected AirportFetchError"),
    }

    let request = FlightPositionRequest::new("FRA".to_string(), "LIS".to_string(), 0, 10).with_current_time(20);
    let (job, _) = service.start_position_calculation::<&str>(request);
    let (job, _) = job.unwrap().on_airport(Ok(Some("Frankfurt")));
    match job.unwrap().on_airport(Ok(Some("Lisbon"))).1 {
        PositionAction::Finished(Ok(plan)) => {
            assert!(plan.satellites.is_empty());
            assert_eq!((plan.progress.elapsed, plan.progress.total), (1, 1));
        }
        _ => panic!("expected a plan"),
    }
}

#[test]
fn airport_lookups_resolve() {
    assert_eq!(resolve_airport("FRA", Ok(Some(7))).ok(), Some(7));
    match resolve_airport::<u8>("FRA", Ok(None)) {
        Err(SatelliteServiceError::AirportNotFound(c)) => assert_eq!(c, "FRA"),
        _ => panic!(),
    }
    match resolve_airport::<u8>("FRA", Err("timeout".to_string())) {
        Err(SatelliteServiceError::AirportFetchError(m)) => assert_eq!(m, "timeout"),
        _ => panic!(),
    }
    assert_eq!(first_search_result(true, Some(vec![3, 4])), Some(3));
    assert_eq!(first_search_result::<u8>(true, Some(vec![])), None);
    assert_eq!(first_search_result(false, Some(vec![3])), None);
    assert_eq!(first_search_result::<u8>(true, None), None);
}

#[test]
fn error_messages() {
    assert_eq!(
        SatelliteServiceError::NoActiveSatellites.message(),
        "No active satellites available"
    );
    assert_eq!(
        SatelliteServiceError::AirportFetchError("x".to_string()).message(),
        "Failed to fetch airport data: x"
    );
    assert_eq!(
        SatelliteServiceError::AirportNotFound("LIS".to_string()).message(),
        "Airport not found: LIS"
    );
    assert_eq!(
        SatelliteServiceError::InvalidSatelliteId("abc".to_string()).message(),
        "Invalid satellite ID: abc"
    );
}

#[test]
fn service_base_url_defaults_to_root() {
    assert_eq!(get_service_base_url(""), "/");
    assert_eq!(get_service_base_url("/satellites"), "/satellites");
}

#[test]
fn status_names_parse() {
    assert_eq!(parse_status("Active"), Some(SatelliteStatus::Active));
    assert_eq!(parse_status("Inactive"), Some(SatelliteStatus::Inactive));
    assert_eq!(parse_status("Maintenance"), Some(SatelliteStatus::Maintenance));
    assert_eq!(parse_status("active"), None);
    assert_eq!(parse_status(""), None);
}

#[test]
fn launch_and_status_forms_redirect_with_messages() {
    let mut service = SatelliteService::new("http://airports".to_string());
    let location = service.handle_launch("/sat", CreateSatelliteForm { name: "Hubble".to_string() });
    assert_eq!(location, "/sat/launch?message=Satellite 'Hubble' launched successfully!");
    let s = service.list_satellites().pop().unwrap();
    assert_eq!(s.name, "Hubble");

    let location = service.handle_update_status("/sat", s.id, &UpdateStatusForm { status: "Active".to_string() });
    assert_eq!(
        location,
        "/sat/update_status?message=Satellite 'Hubble' status updated successfully!"
    );
    assert_eq!(service.get_satellite(s.id).unwrap().status, SatelliteStatus::Active);

    let location = service.handle_update_status("", s.id, &UpdateStatusForm { status: "Broken".to_string() });
    assert_eq!(location, "/update_status?message=Invalid status: Broken");
    assert_eq!(service.get_satellite(s.id).unwrap().status, SatelliteStatus::Active);

    let unknown = s.id.wrapping_add(1);
    let location = service.handle_update_status("", unknown, &UpdateStatusForm { status: "Inactive".to_string() });
    assert_eq!(
        location,
        format!(
            "/update_status?message=Satellite with ID '{}' not found!",
            uuid::Uuid::from_u128(unknown)
        )
    );
}

#[test]
fn api_error_responses() {
    let (code, text) = position_error_response(&SatelliteServiceError::NoActiveSatellites);
    assert_eq!((code, text.as_str()), (404, "No active satellites available for tracking"));
    let (code, text) = position_error_response(&SatelliteServiceError::AirportNotFound("LIS".to_string()));
    assert_eq!((code, text.as_str()), (404, "Airport not found: LIS"));
    let (code, text) =
        position_error_response(&SatelliteServiceError::AirportFetchError("down".to_string()));
    assert_eq!((code, text.as_str()), (500, "Failed to fetch airport data: down"));
    let (code, text) =
        position_error_response(&SatelliteServiceError::InvalidSatelliteId("x".to_string()));
    assert_eq!((code, text.as_str()), (500, "Failed to calculate position: Invalid satellite ID: x"));

    let (code, text) =
        status_update_error_response(1, &SatelliteServiceError::InvalidSatelliteId("x".to_string()));
    assert_eq!(code, 404);
    assert_eq!(text, "Satellite not found: 00000000-0000-0000-0000-000000000001");
    let (code, text) = status_update_error_response(1, &SatelliteServiceError::NoActiveSatellites);
    assert_eq!(code, 500);
    assert_eq!(text, "Failed to update satellite status: No active satellites available");
}

#[test]
fn position_page_messages() {
    assert_eq!(position_page_message(&Ok(2)), None);
    assert_eq!(
        position_page_message(&Ok(0)).unwrap(),
        "Flight is not currently in progress."
    );
    assert_eq!(
        position_page_message(&Err(SatelliteServiceError::NoActiveSatellites)).unwrap(),
        "No active satellites available for tracking."
    );
    assert_eq!(
        position_page_message(&Err(SatelliteServiceError::AirportNotFound("XXX".to_string()))).unwrap(),
        "Airport not found: XXX"
    );
    assert_eq!(
        position_page_message(&Err(SatelliteServiceError::AirportFetchError("e".to_string()))).unwrap(),
        "Failed to fetch airport data: e"
    );
}

#[test]
fn form_datetimes_are_read_as_utc() {
    assert_eq!(parse_form_datetime("1970-01-01T01:00"), Some(3600));
    assert_eq!(parse_form_datetime("2024-03-01T12:30"), Some(1709296200));
    assert_eq!(parse_form_datetime("2024-03-01T12:30:15"), None);
    assert_eq!(parse_form_datetime("yesterday"), None);
    assert_eq!(position_form_times("1970-01-01T00:01", "1970-01-01T00:02"), Ok((60, 120)));
    assert_eq!(
        position_form_times("1970-01-01T00:01", "soon"),
        Err("Invalid date/time format. Please use YYYY-MM-DDTHH:MM format.".to_string())
    );
}

#[test]
fn control_center_shows_status_and_form_targets() {
    assert_eq!(status_class(SatelliteStatus::Active), "status-active");
    assert_eq!(status_class(SatelliteStatus::Inactive), "status-inactive");
    assert_eq!(status_class(SatelliteStatus::Maintenance), "status-maintenance");
    assert_eq!(
        status_form_action("/satellites", 0x67e55044_10b1_426f_9247_bb680e5fe0c8),
        "/satellites/update_status/67e55044-10b1-426f-9247-bb680e5fe0c8"
    );
}

#[test]
fn position_form_starts_around_now() {
    let (departure, arrival) = default_form_times(1709296200);
    assert_eq!(departure, "2024-03-01T12:29");
    assert_eq!(arrival, "2024-03-01T12:34");
    assert_eq!(parse_form_datetime(&departure), Some(1709296140));
}

#[test]
fn progress_never_goes_back() {
    let request = FlightPositionRequest::new("FRA".to_string(), "LIS".to_string(), 1000, 4600);
    let mut last = (0i128, 1i128);
    for now in (0..6000).step_by(250) {
        let p = request.progress_at(now);
        assert!(last.0 * p.total <= p.elapsed * last.1, "at {now}");
        last = (p.elapsed, p.total);
    }
    assert_eq!(last, (1, 1));
    let backwards = FlightPositionRequest::new("FRA".to_string(), "LIS".to_string(), 100, 0);
    let before = backwards.progress_at(50);
    let after = backwards.progress_at(150);
    assert!(before.elapsed * after.total <= after.elapsed * before.total);
}

#[test]
fn setting_a_status_twice_is_setting_it_once() {
    let mut service = SatelliteService::new("http://airports".to_string());
    let s = service.create_satellite("Gamma".to_string()).unwrap();
    let once = service.update_satellite_status(s.id, SatelliteStatus::Maintenance).unwrap();
    let twice = service.update_satellite_status(s.id, SatelliteStatus::Maintenance).unwrap();
    assert_eq!(once.status, twice.status);
    assert_eq!(once.name, twice.name);
    assert_eq!(service.list_satellites().len(), 1);
}

#[test]
fn flash_messages_are_shown_escaped() {
    assert_eq!(escape_html("a<b> & c"), "a&lt;b&gt; &amp; c");
    let flash = FlashMessage { message: Some("Satellite '<Hubble>' launched successfully!".to_string()) };
    assert_eq!(
        flash_notice(&flash),
        "<div class=\"flash-message\">Satellite '&lt;Hubble&gt;' launched successfully!</div>"
    );
    assert_eq!(flash_notice(&FlashMessage { message: None }), "");
}

#[test]
fn uuids_are_written_in_hyphenated_groups() {
    assert_eq!(
        status_form_action("", 0x00000000_0000_0000_0000_00000000000f),
        "/update_status/00000000-0000-0000-0000-00000000000f"
    );
}
