use vstd::prelude::*;

use crate::datetime::{chrono_range, instant_text, write_instant};
use crate::satellite::{uuid_text, uuid_to_string, SatelliteStatus, SatelliteView};
use crate::satellite_service::{error_text, with_status, SatelliteService, SatelliteServiceError};
use crate::text::{concat2, concat3, owned, text_eq};

verus! {

broadcast use vstd::string::group_string_axioms;

/// The base URL of the service: the path prefix, or `/` when there is none.
pub fn get_service_base_url(path_prefix: &str) -> (r: String)
    ensures
        path_prefix@.len() == 0 ==> r@ == "/"@,
        path_prefix@.len() > 0 ==> r@ == path_prefix@,
{
    if path_prefix.is_empty() {
        owned("/")
    } else {
        owned(path_prefix)
    }
}

/// The name a status goes by in forms and messages.
pub open spec fn status_name(s: SatelliteStatus) -> Seq<char> {
    match s {
        SatelliteStatus::Active => "Active"@,
        SatelliteStatus::Inactive => "Inactive"@,
        SatelliteStatus::Maintenance => "Maintenance"@,
    }
}

/// The status a form value names, if any. Exactly the three names are accepted.
pub fn parse_status(text: &str) -> (r: Option<SatelliteStatus>)
    ensures
        r == parse_status_spec(text@),
        r matches Some(s) ==> status_name(s) == text@,
        r is None ==> text@ != "Active"@ && text@ != "Inactive"@ && text@ != "Maintenance"@,
{
    if text_eq(text, "Active") {
        Some(SatelliteStatus::Active)
    } else if text_eq(text, "Inactive") {
        Some(SatelliteStatus::Inactive)
    } else if text_eq(text, "Maintenance") {
        Some(SatelliteStatus::Maintenance)
    } else {
        None
    }
}

/// The name of a status.
pub fn status_to_string(s: SatelliteStatus) -> (r: String)
    ensures
        r@ == status_name(s),
{
    match s {
        SatelliteStatus::Active => owned("Active"),
        SatelliteStatus::Inactive => owned("Inactive"),
        SatelliteStatus::Maintenance => owned("Maintenance"),
    }
}

/// Where the launch page redirects after launching a satellite named `name`.
pub open spec fn launch_location(prefix: Seq<char>, name: Seq<char>) -> Seq<char> {
    prefix + "/launch?message="@ + ("Satellite '"@ + name + "' launched successfully!"@)
}

/// Where the status page redirects with `message`.
pub open spec fn status_location(prefix: Seq<char>, message: Seq<char>) -> Seq<char> {
    prefix + "/update_status?message="@ + message
}

/// The redirect target that reports `message` on the status page.
pub fn status_redirect(path_prefix: &str, message: &str) -> (r: String)
    ensures
        r@ == status_location(path_prefix@, message@),
{
    concat3(path_prefix, "/update_status?message=", message)
}

/// The launch form: the new satellite's name.
#[derive(Debug)]
pub struct CreateSatelliteForm {
    pub name: String,
}

/// The status form: the name of the new status.
#[derive(Debug)]
pub struct UpdateStatusForm {
    pub status: String,
}

impl SatelliteService {
    /// Handles the launch form: registers a satellite with the form's name and returns where to
    /// redirect, with a message naming it.
    pub fn handle_launch(&mut self, path_prefix: &str, form: CreateSatelliteForm) -> (r: String)
        ensures
            final(self).airport_url() == old(self).airport_url(),
            exists|id: u128|
                final(self)@ == old(self)@.insert(
                    id,
                    SatelliteView { id, name: form.name@, status: SatelliteStatus::Inactive },
                ),
            r@ == launch_location(path_prefix@, form.name@),
    {
        match self.create_satellite(form.name) {
            Ok(s) => {
                let message = concat3("Satellite '", s.name.as_str(), "' launched successfully!");
                concat3(path_prefix, "/launch?message=", message.as_str())
            },
            Err(e) => {
                let text = e.message();
                let message = concat2("Failed to launch satellite: ", text.as_str());
                concat3(path_prefix, "/launch?message=", message.as_str())
            },
        }
    }

    /// Handles the status form for satellite `id`: sets the status the form names and returns
    /// where to redirect, with a message on the outcome.
    pub fn handle_update_status(&mut self, path_prefix: &str, id: u128, form: &UpdateStatusForm) -> (r:
        String)
        ensures
            final(self).airport_url() == old(self).airport_url(),
            ({
                let p = path_prefix@;
                let status_text = form.status;
                match parse_status_spec(status_text@) {
                    None => final(self)@ == old(self)@ && r@ == status_location(
                        p,
                        "Invalid status: "@ + status_text@,
                    ),
                    Some(s) => if old(self)@.contains_key(id) {
                        &&& final(self)@ == with_status(old(self)@, id, s)
                        &&& r@ == status_location(
                            p,
                            "Satellite '"@ + old(self)@[id].name + "' status updated successfully!"@,
                        )
                    } else {
                        &&& final(self)@ == old(self)@
                        &&& r@ == status_location(
                            p,
                            "Satellite with ID '"@ + uuid_text(id) + "' not found!"@,
                        )
                    },
                }
            }),
    {
        let status_text = form.status.as_str();
        let status = match parse_status(status_text) {
            Some(s) => s,
            None => {
                let message = concat2("Invalid status: ", status_text);
                return status_redirect(path_prefix, message.as_str());
            },
        };
        match self.update_satellite_status(id, status) {
            Ok(s) => {
                let message = concat3("Satellite '", s.name.as_str(), "' status updated successfully!");
                status_redirect(path_prefix, message.as_str())
            },
            Err(SatelliteServiceError::InvalidSatelliteId(_)) => {
                let id_text = uuid_to_string(id);
                let message = concat3("Satellite with ID '", id_text.as_str(), "' not found!");
                status_redirect(path_prefix, message.as_str())
            },
            Err(e) => {
                let text = e.message();
                let message = concat2("Failed to update satellite status: ", text.as_str());
                status_redirect(path_prefix, message.as_str())
            },
        }
    }
}

/// The status a form value names, if any.
pub open spec fn parse_status_spec(text: Seq<char>) -> Option<SatelliteStatus> {
    if text == "Active"@ {
        Some(SatelliteStatus::Active)
    } else if text == "Inactive"@ {
        Some(SatelliteStatus::Inactive)
    } else if text == "Maintenance"@ {
        Some(SatelliteStatus::Maintenance)
    } else {
        None
    }
}

/// The HTTP status and error text with which the position API answers a failed calculation.
pub fn position_error_response(e: &SatelliteServiceError) -> (r: (u16, String))
    ensures
        e matches SatelliteServiceError::NoActiveSatellites ==> r.0 == 404 && r.1@
            == "No active satellites available for tracking"@,
        e matches SatelliteServiceError::AirportNotFound(c) ==> r.0 == 404 && r.1@ == "Airport not found: "@
            + c@,
        e matches SatelliteServiceError::AirportFetchError(m) ==> r.0 == 500 && r.1@
            == "Failed to fetch airport data: "@ + m@,
        e is InvalidSatelliteId ==> r.0 == 500 && r.1@ == "Failed to calculate position: "@ + error_text(
            *e,
        ),
{
    match e {
        SatelliteServiceError::NoActiveSatellites => (
            404,
            owned("No active satellites available for tracking"),
        ),
        SatelliteServiceError::AirportNotFound(c) => (404, concat2("Airport not found: ", c.as_str())),
        SatelliteServiceError::AirportFetchError(m) => (
            500,
            concat2("Failed to fetch airport data: ", m.as_str()),
        ),
        SatelliteServiceError::InvalidSatelliteId(_) => {
            let text = e.message();
            (500, concat2("Failed to calculate position: ", text.as_str()))
        },
    }
}

/// The HTTP status and error text with which the status API answers a failed update of
/// satellite `id`.
pub fn status_update_error_response(id: u128, e: &SatelliteServiceError) -> (r: (u16, String))
    ensures
        e is InvalidSatelliteId ==> r.0 == 404 && r.1@ == "Satellite not found: "@ + uuid_text(id),
        !(e is InvalidSatelliteId) ==> r.0 == 500 && r.1@ == "Failed to update satellite status: "@
            + error_text(*e),
{
    match e {
        SatelliteServiceError::InvalidSatelliteId(_) => {
            let id_text = uuid_to_string(id);
            (404, concat2("Satellite not found: ", id_text.as_str()))
        },
        _ => {
            let text = e.message();
            (500, concat2("Failed to update satellite status: ", text.as_str()))
        },
    }
}

/// The message the flight-position page shows for a finished calculation that produced
/// `positions` positions, or for a failed one; nothing when there is a position to show.
pub fn position_page_message(outcome: &Result<usize, SatelliteServiceError>) -> (r: Option<String>)
    ensures
        outcome matches Ok(n) ==> (n > 0 ==> r is None),
        outcome matches Ok(n) ==> (n == 0 ==> (r matches Some(m) && m@
            == "Flight is not currently in progress."@)),
        outcome matches Err(SatelliteServiceError::NoActiveSatellites) ==> (r matches Some(m) && m@
            == "No active satellites available for tracking."@),
        outcome matches Err(SatelliteServiceError::AirportNotFound(c)) ==> (r matches Some(m) && m@
            == "Airport not found: "@ + c@),
        outcome matches Err(SatelliteServiceError::AirportFetchError(f)) ==> (r matches Some(m) && m@
            == "Failed to fetch airport data: "@ + f@),
        outcome matches Err(SatelliteServiceError::InvalidSatelliteId(i)) ==> (r matches Some(m) && m@
            == "Failed to calculate position: "@ + ("Invalid satellite ID: "@ + i@)),
{
    match outcome {
        Ok(n) => if *n == 0 {
            Some(owned("Flight is not currently in progress."))
        } else {
            None
        },
        Err(SatelliteServiceError::NoActiveSatellites) => Some(
            owned("No active satellites available for tracking."),
        ),
        Err(SatelliteServiceError::AirportNotFound(c)) => Some(concat2("Airport not found: ", c.as_str())),
        Err(SatelliteServiceError::AirportFetchError(f)) => Some(
            concat2("Failed to fetch airport data: ", f.as_str()),
        ),
        Err(e) => {
            let text = e.message();
            Some(concat2("Failed to calculate position: ", text.as_str()))
        },
    }
}

/// The Unix timestamp chrono's `DateTime::parse_from_str` reads from `text` with format
/// `format`, if it reads one.
pub uninterp spec fn parsed_timestamp(text: Seq<char>, format: Seq<char>) -> Option<i64>;

/// chrono's `DateTime::parse_from_str`, taken as the Unix timestamp of the instant read;
/// the result is named by `parsed_timestamp`.
#[verifier::external_body]
pub(crate) fn parse_timestamp(text: &str, format: &str) -> (r: Option<i64>)
    ensures
        r == parsed_timestamp(text@, format@),
{
    match chrono::DateTime::parse_from_str(text, format) {
        Ok(dt) => Some(dt.timestamp()),
        Err(_) => None,
    }
}

/// The instant a `datetime-local` form value `YYYY-MM-DDTHH:MM[:SS]` names, read as UTC.
pub open spec fn form_datetime(text: Seq<char>) -> Option<i64> {
    match parsed_timestamp(text + ":00+00:00"@, "%Y-%m-%dT%H:%M:%S%:z"@) {
        Some(t) => Some(t),
        None => parsed_timestamp(text + "+00:00"@, "%Y-%m-%dT%H:%M%:z"@),
    }
}

/// Reads a `datetime-local` form value as a UTC instant.
pub fn parse_form_datetime(text: &str) -> (r: Option<i64>)
    ensures
        r == form_datetime(text@),
{
    let with_seconds = concat2(text, ":00+00:00");
    match parse_timestamp(with_seconds.as_str(), "%Y-%m-%dT%H:%M:%S%:z") {
        Some(t) => Some(t),
        None => {
            let without_seconds = concat2(text, "+00:00");
            parse_timestamp(without_seconds.as_str(), "%Y-%m-%dT%H:%M%:z")
        },
    }
}

/// The departure and arrival instants of the flight-position form, or the message shown
/// when either cannot be read.
pub fn position_form_times(departure_time: &str, arrival_time: &str) -> (r: Result<(i64, i64), String>)
    ensures
        form_datetime(departure_time@) matches Some(d) ==> (form_datetime(arrival_time@) matches Some(a)
            ==> r == Ok::<(i64, i64), String>((d, a))),
        (form_datetime(departure_time@) is None || form_datetime(arrival_time@) is None) ==> (r matches Err(
            m,
        ) && m@ == "Invalid date/time format. Please use YYYY-MM-DDTHH:MM format."@),
{
    let d = parse_form_datetime(departure_time);
    let a = parse_form_datetime(arrival_time);
    match (d, a) {
        (Some(d), Some(a)) => Ok((d, a)),
        _ => Err(owned("Invalid date/time format. Please use YYYY-MM-DDTHH:MM format.")),
    }
}

/// The style class of a satellite with status `s` in the control center.
pub open spec fn status_class_spec(s: SatelliteStatus) -> Seq<char> {
    match s {
        SatelliteStatus::Active => "status-active"@,
        SatelliteStatus::Inactive => "status-inactive"@,
        SatelliteStatus::Maintenance => "status-maintenance"@,
    }
}

/// The style class of a satellite with status `s`.
pub fn status_class(s: SatelliteStatus) -> (r: String)
    ensures
        r@ == status_class_spec(s),
{
    match s {
        SatelliteStatus::Active => owned("status-active"),
        SatelliteStatus::Inactive => owned("status-inactive"),
        SatelliteStatus::Maintenance => owned("status-maintenance"),
    }
}

/// Where the control center's status form for satellite `id` is sent.
pub fn status_form_action(path_prefix: &str, id: u128) -> (r: String)
    ensures
        r@ == path_prefix@ + "/update_status/"@ + uuid_text(id),
{
    let id_text = uuid_to_string(id);
    concat3(path_prefix, "/update_status/", id_text.as_str())
}

/// The times the flight-position form starts with: one minute before `now` and four minutes
/// after it, written as `YYYY-MM-DDTHH:MM` (UTC).
pub fn default_form_times(now: i64) -> (r: (String, String))
    requires
        chrono_range(now - 60),
        chrono_range(now + 240),
    ensures
        r.0@ == instant_text((now - 60) as i64, "UTC"@, false, "%Y-%m-%dT%H:%M"@).unwrap(),
        r.1@ == instant_text((now + 240) as i64, "UTC"@, false, "%Y-%m-%dT%H:%M"@).unwrap(),
{
    let departure = write_instant(now - 60, "UTC", false, "%Y-%m-%dT%H:%M").unwrap();
    let arrival = write_instant(now + 240, "UTC", false, "%Y-%m-%dT%H:%M").unwrap();
    (departure, arrival)
}

/// The message a page shows after a redirect, taken from its query (`?message=...`).
#[derive(Debug)]
pub struct FlashMessage {
    pub message: Option<String>,
}

/// A character as it stands in HTML text: `&`, `<` and `>` as entities, others as they are.
pub open spec fn escaped_char(c: char) -> Seq<char> {
    if c == '&' {
        "&amp;"@
    } else if c == '<' {
        "&lt;"@
    } else if c == '>' {
        "&gt;"@
    } else {
        seq![c]
    }
}

/// A text as it stands in HTML text.
pub open spec fn escaped(s: Seq<char>) -> Seq<char>
    decreases s.len(),
{
    if s.len() == 0 {
        Seq::empty()
    } else {
        escaped(s.drop_last()) + escaped_char(s.last())
    }
}

/// Writes a text for HTML text content.
pub fn escape_html(text: &str) -> (r: String)
    ensures
        r@ == escaped(text@),
{
    let chars = crate::text::chars_of(text);
    let mut r = String::new();
    let mut i: usize = 0;
    while i < chars.len()
        invariant
            chars@ == text@,
            i <= chars.len(),
            r@ == escaped(chars@.take(i as int)),
        decreases chars.len() - i,
    {
        let c = chars[i];
        proof {
            assert(chars@.take(i + 1).drop_last() =~= chars@.take(i as int));
            reveal_strlit("&amp;");
            reveal_strlit("&lt;");
            reveal_strlit("&gt;");
        }
        if c == '&' {
            r.append("&amp;");
        } else if c == '<' {
            r.append("&lt;");
        } else if c == '>' {
            r.append("&gt;");
        } else {
            crate::text::push_char(&mut r, c);
        }
        i = i + 1;
    }
    assert(chars@.take(chars.len() as int) =~= chars@);
    r
}

/// The notice a page shows for its flash message: the message, escaped, in a
/// `flash-message` box; nothing when there is no message.
pub fn flash_notice(flash: &FlashMessage) -> (r: String)
    ensures
        flash.message matches Some(m) ==> r@ == "<div class=\"flash-message\">"@ + escaped(m@)
            + "</div>"@,
        flash.message is None ==> r@.len() == 0,
{
    match &flash.message {
        Some(m) => {
            let text = escape_html(m.as_str());
            concat3("<div class=\"flash-message\">", text.as_str(), "</div>")
        },
        None => String::new(),
    }
}

} // verus!
