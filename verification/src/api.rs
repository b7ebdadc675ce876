//! The requests of the two calls that a session is used for: the profile and
//! one day's hourly usage.

use vstd::prelude::*;
use vstd::string::StringExecFns;
use chrono::{Datelike, NaiveDate};
use crate::auth::HoAuth;
use crate::http::{entries_view, entry, joined, Body, Entry, HourlyRequest, HttpRequest, Method};

verus! {

/// The date of a year, month and day as `YYYY-MM-DD`, where there is such a
/// date.
pub uninterp spec fn iso_date(year: i32, month: u32, day: u32) -> Option<Seq<char>>;

/// `NaiveDate::from_ymd_opt` of the calendar library, then the date's
/// `format` with year, month and day between hyphens: the text of the date,
/// or nothing where the calendar has no such date.
#[verifier::external_body]
fn format_date(year: i32, month: u32, day: u32) -> (r: Option<String>)
    ensures
        r is Some <==> iso_date(year, month, day) is Some,
        r matches Some(text) ==> Some(text@) == iso_date(year, month, day),
{
    NaiveDate::from_ymd_opt(year, month, day).map(|d| d.format("%Y-%m-%d").to_string())
}

/// The day before a year, month and day, where the calendar has both days.
pub uninterp spec fn day_before(year: i32, month: u32, day: u32) -> Option<(i32, u32, u32)>;

/// `NaiveDate::from_ymd_opt` of the calendar library, then the date's
/// `pred_opt`, read back as year, month and day: the day before, or nothing
/// where the calendar has no such date or none before it.
#[verifier::external_body]
fn previous_day(year: i32, month: u32, day: u32) -> (r: Option<(i32, u32, u32)>)
    ensures
        r == day_before(year, month, day),
{
    NaiveDate::from_ymd_opt(year, month, day).and_then(|d| d.pred_opt()).map(
        |d| (d.year(), d.month(), d.day()),
    )
}

/// The day that is asked for where no other can be found: the first of
/// January 2025.
pub open spec fn fallback_day() -> (i32, u32, u32) {
    (2025i32, 1u32, 1u32)
}

/// The day, or the fallback day where there is none.
pub open spec fn day_or_fallback(day: Option<(i32, u32, u32)>) -> (i32, u32, u32) {
    match day {
        Some(d) => d,
        None => fallback_day(),
    }
}

/// Takes the day, or the fallback day where there is none.
pub fn or_fallback_day(day: Option<(i32, u32, u32)>) -> (r: (i32, u32, u32))
    ensures
        r == day_or_fallback(day),
{
    match day {
        Some(d) => d,
        None => (2025, 1, 1),
    }
}

/// The day whose usage is asked for by default: the day before the given
/// one, or the fallback day where the calendar has none.
pub fn default_day(year: i32, month: u32, day: u32) -> (r: (i32, u32, u32))
    ensures
        r == day_or_fallback(day_before(year, month, day)),
{
    or_fallback_day(previous_day(year, month, day))
}

/// The headers that every call with a session carries: the identity
/// provider's two tokens.
pub open spec fn session_headers(auth: HoAuth) -> Seq<(Seq<char>, Seq<char>)> {
    seq![
        ("Accept"@, "application/json"@),
        ("x-id"@, auth.id_token@),
        ("x-access"@, auth.access_token@),
    ]
}

/// The request carries the session: its two tokens as headers, and the
/// vendor's token as the bearer.
pub open spec fn carries_session(request: HttpRequest, auth: HoAuth) -> bool {
    &&& entries_view(request.headers@) == session_headers(auth)
    &&& request.bearer matches Some(token)
    &&& token@ == auth.jwt_token@
}

/// The request asks for the profile.
pub open spec fn is_profile_request(request: HttpRequest, api_uri: Seq<char>, auth: HoAuth) -> bool {
    &&& request.method == Method::Get
    &&& request.url@ == api_uri + "/profile"@
    &&& carries_session(request, auth)
    &&& request.body is Empty
}

/// The request asks for the hourly usage of the day with this text.
pub open spec fn is_hourly_request(
    request: HttpRequest,
    api_uri: Seq<char>,
    auth: HoAuth,
    date: Seq<char>,
) -> bool {
    &&& request.method == Method::Post
    &&& request.url@ == api_uri + "/usage/consumption/hourly"@
    &&& carries_session(request, auth)
    &&& request.body matches Body::Hourly(body)
    &&& body.date@ == date
}

/// The headers that carry the session's two tokens.
fn session_header_entries(auth: &HoAuth) -> (headers: Vec<Entry>)
    ensures
        entries_view(headers@) == session_headers(*auth),
{
    let mut headers: Vec<Entry> = Vec::new();
    headers.push(entry("Accept", "application/json"));
    headers.push(entry("x-id", auth.id_token.as_str()));
    headers.push(entry("x-access", auth.access_token.as_str()));
    proof {
        assert(entries_view(headers@) =~= session_headers(*auth));
    }
    headers
}

/// Builds the request for the profile.
pub fn profile_request(api_uri: &str, auth: &HoAuth) -> (request: HttpRequest)
    ensures
        is_profile_request(request, api_uri@, *auth),
{
    HttpRequest {
        method: Method::Get,
        url: joined(api_uri, "/profile"),
        headers: session_header_entries(auth),
        bearer: Some(String::from_str(auth.jwt_token.as_str())),
        body: Body::Empty,
    }
}

/// Builds the request for the hourly usage of a day that is already written
/// as text.
pub fn hourly_request_for(api_uri: &str, auth: &HoAuth, date: String) -> (request: HttpRequest)
    ensures
        is_hourly_request(request, api_uri@, *auth, date@),
{
    HttpRequest {
        method: Method::Post,
        url: joined(api_uri, "/usage/consumption/hourly"),
        headers: session_header_entries(auth),
        bearer: Some(String::from_str(auth.jwt_token.as_str())),
        body: Body::Hourly(HourlyRequest { date }),
    }
}

/// Builds the request for the hourly usage of a day, where the calendar has
/// that day.
pub fn hourly_request(api_uri: &str, auth: &HoAuth, year: i32, month: u32, day: u32) -> (r: Option<
    HttpRequest,
>)
    ensures
        match iso_date(year, month, day) {
            Some(date) => r matches Some(request) && is_hourly_request(
                request,
                api_uri@,
                *auth,
                date,
            ),
            None => r is None,
        },
{
    match format_date(year, month, day) {
        Some(date) => Some(hourly_request_for(api_uri, auth, date)),
        None => None,
    }
}

} // verus!
