//! Talking to the data source: where to ask, and what to make of a reply.
use crate::date::{iso_date_text, Date};
use crate::text::text_view;
use crate::types::LiveScoresResponse;
use vstd::prelude::*;
use vstd::string::StringExecFns;

verus! {

/// The address of live scores.
pub const LIVE_SCORE_URL: &'static str =
    "https://optaplayerstats.statsperform.com/api/en_GB/soccer/livescores/";

/// The address under which the fixtures of a date are found.
pub const MATCHES_URL: &'static str =
    "https://optaplayerstats.statsperform.com/api/en_GB/soccer/matches/";

/// The status code of a reply that carries data.
pub const STATUS_OK: u16 = 200;

/// The status code of a reply that turns the request away as one too many.
pub const STATUS_TOO_MANY_REQUESTS: u16 = 429;

/// Why a fetch brought no snapshot.
#[derive(Debug, Clone, PartialEq, Eq)]
pub enum GegenDataError {
    /// The request did not get through. `source` is the reason in words.
    Reqwest { source: String, url: String },
    /// The data source turned the request away as one too many.
    TooManyRequests { url: String },
    /// The data source answered with another status than success.
    Non200 { status_code: u16, url: String, body: String },
    /// The reply was not in the expected form. `source` is the reason in
    /// words.
    Serialisation { source: String, url: String },
}

/// What to do with the body of a reply.
#[derive(Debug, Clone, Copy, PartialEq, Eq, Structural)]
pub enum BodyUse {
    /// Decode it as a snapshot.
    Decode,
    /// Leave it unread.
    Discard,
    /// Keep its text for the error.
    Keep,
}

/// The body of a reply, as far as it was read.
#[derive(Debug, Clone, PartialEq, Eq)]
pub enum Body {
    /// It was decoded as a snapshot.
    Decoded(LiveScoresResponse),
    /// It could not be decoded; holds the reason in words.
    Undecodable(String),
    /// Its text, empty where it could not be read.
    Text(String),
    /// It was not read.
    Unread,
}

/// The address of the fixtures of a date, given the date as text.
pub open spec fn matches_url_text(date: Seq<char>) -> Seq<char> {
    MATCHES_URL@ + date
}

/// Writes the address of the fixtures of a date.
pub fn matches_url(date: &str) -> (url: String)
    ensures
        url@ == matches_url_text(date@),
{
    let mut url = String::from_str(MATCHES_URL);
    url.append(date);
    url
}

/// The address of the fixtures of `date`, where the calendar has the date.
pub open spec fn matches_url_of(date: Date) -> Option<Seq<char>> {
    match iso_date_text(date.days as int) {
        Some(text) => Some(matches_url_text(text)),
        None => None,
    }
}

/// Writes the address of the fixtures of `date`, where the calendar has the
/// date.
pub fn matches_url_for(date: Date) -> (url: Option<String>)
    ensures
        text_view(url) == matches_url_of(date),
{
    match date.iso_text() {
        Some(text) => Some(matches_url(text.as_str())),
        None => None,
    }
}

/// What is done with the body of a reply with the status `status`.
pub open spec fn body_use_of(status: u16) -> BodyUse {
    if status == STATUS_OK {
        BodyUse::Decode
    } else if status == STATUS_TOO_MANY_REQUESTS {
        BodyUse::Discard
    } else {
        BodyUse::Keep
    }
}

/// Decides what to do with the body of a reply.
pub fn plan_body(status: u16) -> (body_use: BodyUse)
    ensures
        body_use == body_use_of(status),
{
    if status == STATUS_OK {
        BodyUse::Decode
    } else if status == STATUS_TOO_MANY_REQUESTS {
        BodyUse::Discard
    } else {
        BodyUse::Keep
    }
}

/// Whether a reply with `status` and `body` brings a snapshot: it does where
/// the status is success and the body was decoded.
pub open spec fn brings_snapshot(status: u16, body: Body) -> bool {
    status == STATUS_OK && body is Decoded
}

/// Makes of a reply the snapshot or the error. A successful status with a
/// decoded body gives the snapshot; with any other body the reply counts as
/// not decodable. The status 429 gives `TooManyRequests`, every other status
/// `Non200` with the status and the text of the body.
pub fn interpret_reply(url: String, status: u16, body: Body) -> (outcome: Result<
    LiveScoresResponse,
    GegenDataError,
>)
    ensures
        outcome is Ok <==> brings_snapshot(status, body),
        outcome matches Ok(snapshot) ==> body == Body::Decoded(snapshot),
        outcome matches Err(error) ==> {
            if status == STATUS_OK {
                &&& error matches GegenDataError::Serialisation { source, url: at }
                &&& at == url
                &&& body matches Body::Undecodable(reason) ==> source == reason
                &&& body !is Undecodable ==> source@ == Seq::<char>::empty()
            } else if status == STATUS_TOO_MANY_REQUESTS {
                error == (GegenDataError::TooManyRequests { url })
            } else {
                &&& error matches GegenDataError::Non200 { status_code, url: at, body: text }
                &&& status_code == status
                &&& at == url
                &&& body matches Body::Text(kept) ==> text == kept
                &&& body !is Text ==> text@ == Seq::<char>::empty()
            }
        },
{
    if status == STATUS_OK {
        match body {
            Body::Decoded(snapshot) => Ok(snapshot),
            Body::Undecodable(reason) => Err(GegenDataError::Serialisation { source: reason, url }),
            _ => Err(GegenDataError::Serialisation { source: String::new(), url }),
        }
    } else if status == STATUS_TOO_MANY_REQUESTS {
        Err(GegenDataError::TooManyRequests { url })
    } else {
        match body {
            Body::Text(text) => Err(GegenDataError::Non200 { status_code: status, url, body: text }),
            _ => Err(GegenDataError::Non200 { status_code: status, url, body: String::new() }),
        }
    }
}

/// The error of a request that did not get through.
pub fn transport_failure(url: String, reason: String) -> (error: GegenDataError)
    ensures
        error == (GegenDataError::Reqwest { source: reason, url }),
{
    GegenDataError::Reqwest { source: reason, url }
}

} // verus!
