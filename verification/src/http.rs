//! Requests as plain values: what is to be sent, for a transport to send.

use vstd::prelude::*;
use vstd::string::StringExecFns;

verus! {

/// The request method.
#[derive(Debug, Clone, Copy, PartialEq, Eq, Structural)]
pub enum Method {
    Get,
    Post,
}

/// A name with its value: a header, or a member of a body's table.
#[derive(Debug)]
pub struct Entry {
    pub name: String,
    pub value: String,
}

/// The body of an "initiate authentication" request.
#[derive(Debug)]
pub struct InitiateAuthRequest {
    pub auth_flow: String,
    pub client_id: String,
    pub auth_parameters: Vec<Entry>,
    pub client_metadata: Vec<Entry>,
}

/// The body of a "respond to challenge" request.
#[derive(Debug)]
pub struct RespondToAuthChallengeRequest {
    pub challenge_name: String,
    pub client_id: String,
    pub challenge_responses: Vec<Entry>,
    pub client_metadata: Vec<Entry>,
}

/// The body of a request for one day's hourly usage.
#[derive(Debug)]
pub struct HourlyRequest {
    pub date: String,
}

/// What a request carries as its body.
#[derive(Debug)]
pub enum Body {
    Empty,
    InitiateAuth(InitiateAuthRequest),
    RespondToAuthChallenge(RespondToAuthChallengeRequest),
    Hourly(HourlyRequest),
}

/// One request.
#[derive(Debug)]
pub struct HttpRequest {
    pub method: Method,
    pub url: String,
    pub headers: Vec<Entry>,
    /// The token of the `Authorization: Bearer` header, if the request has one.
    pub bearer: Option<String>,
    pub body: Body,
}

impl View for Entry {
    type V = (Seq<char>, Seq<char>);

    open spec fn view(&self) -> (Seq<char>, Seq<char>) {
        (self.name@, self.value@)
    }
}

/// The entries as pairs of texts, in their order.
pub open spec fn entries_view(entries: Seq<Entry>) -> Seq<(Seq<char>, Seq<char>)> {
    entries.map_values(|e: Entry| e@)
}

/// A status in the range of success.
pub open spec fn spec_is_success(status: u16) -> bool {
    200 <= status < 300
}

/// Tells whether a status is in the range of success.
#[verifier::when_used_as_spec(spec_is_success)]
pub fn is_success(status: u16) -> (r: bool)
    ensures
        r == spec_is_success(status),
{
    200 <= status && status < 300
}

/// Makes an entry of a name and a value.
pub fn entry(name: &str, value: &str) -> (e: Entry)
    ensures
        e@ == (name@, value@),
{
    Entry { name: String::from_str(name), value: String::from_str(value) }
}

/// Joins two texts.
pub fn joined(head: &str, tail: &str) -> (r: String)
    ensures
        r@ == head@ + tail@,
{
    String::from_str(head).concat(tail)
}

} // verus!
