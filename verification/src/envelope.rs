//! The uniform response envelope and the failure taxonomy.
//!
//! Every response is expected to be a flat JSON object in which `status` is
//! the one reserved key, holding `"ok"` or `"error"`, and every other key
//! belongs to an open payload.  Decoding takes the `status` member out and
//! keeps the remainder as the payload, with an empty remainder standing for
//! the null payload; a missing or unrecognized status is a decode failure,
//! never a domain failure.

use vstd::prelude::*;
use vstd::string::*;

use crate::json::json_field_of;
use crate::json::json_model;
use crate::json::json_parse_of;
use crate::json::json_rest_of;
use crate::json::json_str_of;
use crate::json::null_value;
use crate::json::parse_json;
use crate::json::render_json;
use crate::json::take_field;
use crate::json::value_as_str;
use crate::json::value_is_empty_object;
use crate::json::value_is_null;
use crate::wire::Status;
use crate::wire::status_word;

verus! {

/// A decoded response envelope: the status, and the open payload formed by
/// every other top-level member of the response object.
#[derive(Debug)]
pub struct ApiResponse {
    pub status: Status,
    pub data: serde_json::Value,
}

/// Everything an operation can fail with, in three tiers: building the
/// request (`InvalidTokenFormat`, `Url`), decoding the response (`Json`,
/// `Envelope`), and a well-formed answer that reports an error (`Api`).
#[derive(Debug)]
pub enum BasketError {
    /// A token-addressed operation was given a token that is not
    /// identifier-formatted, so no request was sent.
    InvalidTokenFormat,
    /// The base URL and the operation's path do not join into a URL.
    Url(url::ParseError),
    /// The response body is not valid JSON.
    Json(serde_json::Error),
    /// The body is JSON but no envelope: its `status` member is missing, is
    /// not a string, or holds an unrecognized word (carried here).
    Envelope(Option<String>),
    /// The service answered an envelope with error status; the whole
    /// envelope is carried for the caller.
    Api(ApiResponse),
}

/// The string under the `status` key of a document, if there is one.
pub open spec fn doc_status(doc: Seq<char>) -> Option<Seq<char>> {
    match json_field_of(doc, "status"@) {
        Some(f) => json_str_of(f),
        None => None,
    }
}

/// The status a document's `status` member spells, if it spells one.
pub open spec fn envelope_status(doc: Seq<char>) -> Option<Status> {
    match doc_status(doc) {
        Some(w) => if w == "ok"@ {
            Some(Status::Okay)
        } else if w == "error"@ {
            Some(Status::Error)
        } else {
            None
        },
        None => None,
    }
}

/// The payload a response document carries: every member but `status`,
/// with an empty remainder standing for the null payload.
pub open spec fn doc_payload(doc: Seq<char>) -> Seq<char> {
    if json_rest_of(doc, "status"@) == "{}"@ {
        "null"@
    } else {
        json_rest_of(doc, "status"@)
    }
}

/// The textual rendering of an envelope: the compact JSON of its payload,
/// or the bare status word when the payload is null.
pub open spec fn envelope_render(env: ApiResponse) -> Seq<char> {
    if json_model(env.data) == "null"@ {
        status_word(env.status)
    } else {
        json_model(env.data)
    }
}

impl ApiResponse {
    /// Assembles an envelope from the extracted status string and the
    /// remaining payload.  Exactly the words `"ok"` and `"error"` make an
    /// envelope; any other extraction is the decode failure
    /// `BasketError::Envelope`, carrying what was found.
    pub fn from_parts(status_text: Option<String>, data: serde_json::Value) -> (r: Result<
        ApiResponse,
        BasketError,
    >)
        ensures
            match status_text {
                Some(s) => if s@ == "ok"@ {
                    r matches Ok(env) && env.status == Status::Okay && env.data == data
                } else if s@ == "error"@ {
                    r matches Ok(env) && env.status == Status::Error && env.data == data
                } else {
                    r matches Err(e) && e matches BasketError::Envelope(w) && w == Some(s)
                },
                None => r matches Err(e) && e matches BasketError::Envelope(w) && w is None,
            },
    {
        match status_text {
            Some(s) => {
                let ok_word = String::from_str("ok");
                let error_word = String::from_str("error");
                if s == ok_word {
                    Ok(ApiResponse { status: Status::Okay, data })
                } else if s == error_word {
                    Ok(ApiResponse { status: Status::Error, data })
                } else {
                    Err(BasketError::Envelope(Some(s)))
                }
            },
            None => Err(BasketError::Envelope(None)),
        }
    }

    /// Decodes a response body.  A body that is not JSON is the decode
    /// failure `Json`; a JSON body whose `status` member spells no status is
    /// the decode failure `Envelope`; otherwise the envelope's status is
    /// exactly what the body spells, and its payload is the rest of the
    /// body's members.  An envelope with no members besides `status` has the
    /// null payload, so it renders as its bare status word.
    pub fn parse(body: &str) -> (r: Result<ApiResponse, BasketError>)
        ensures
            match json_parse_of(body@) {
                Some(doc) => match envelope_status(doc) {
                    Some(st) => (r matches Ok(env) && env.status == st && json_model(env.data)
                        == doc_payload(doc)),
                    None => r matches Err(e) && e matches BasketError::Envelope(_),
                },
                None => r matches Err(e) && e matches BasketError::Json(_),
            },
    {
        match parse_json(body) {
            Ok(mut v) => {
                let status_value = take_field(&mut v, "status");
                let status_text = match &status_value {
                    Some(sv) => value_as_str(sv),
                    None => None,
                };
                let data = if value_is_empty_object(&v) {
                    null_value()
                } else {
                    v
                };
                ApiResponse::from_parts(status_text, data)
            },
            Err(e) => Err(BasketError::Json(e)),
        }
    }

    /// Extracts the payload of a success envelope; an error-status envelope
    /// becomes the domain failure carrying the whole envelope.
    pub fn into_result(self) -> (r: Result<serde_json::Value, BasketError>)
        ensures
            self.status == Status::Okay ==> (r matches Ok(d) && d == self.data),
            self.status == Status::Error ==> (r matches Err(e) && e matches BasketError::Api(env)
                && env == self),
    {
        match self.status {
            Status::Okay => Ok(self.data),
            Status::Error => Err(BasketError::Api(self)),
        }
    }

    /// Discards the payload of a success envelope; an error-status envelope
    /// becomes the domain failure carrying the whole envelope.
    pub fn into_unit(self) -> (r: Result<(), BasketError>)
        ensures
            self.status == Status::Okay ==> r is Ok,
            self.status == Status::Error ==> (r matches Err(e) && e matches BasketError::Api(env)
                && env == self),
    {
        match self.status {
            Status::Okay => Ok(()),
            Status::Error => Err(BasketError::Api(self)),
        }
    }

    /// The textual rendering of this envelope: the compact JSON of the
    /// payload when it is non-null, else the bare status word.
    pub fn render(&self) -> (r: String)
        ensures
            r@ == envelope_render(*self),
    {
        if value_is_null(&self.data) {
            String::from_str(self.status.as_str())
        } else {
            render_json(&self.data)
        }
    }
}

/// Interprets a response body for a read operation: the payload of a
/// success envelope, or the failure of the tier that applies.
pub fn read_response(body: &str) -> (r: Result<serde_json::Value, BasketError>)
    ensures
        match json_parse_of(body@) {
            Some(doc) => match envelope_status(doc) {
                Some(Status::Okay) => (r matches Ok(d) && json_model(d) == doc_payload(doc)),
                Some(Status::Error) => (r matches Err(e) && e matches BasketError::Api(env)
                    && env.status == Status::Error && json_model(env.data) == doc_payload(doc)),
                None => r matches Err(e) && e matches BasketError::Envelope(_),
            },
            None => r matches Err(e) && e matches BasketError::Json(_),
        },
{
    match ApiResponse::parse(body) {
        Ok(env) => env.into_result(),
        Err(e) => Err(e),
    }
}

/// Interprets a response body for a write operation: unit on a success
/// envelope, or the failure of the tier that applies.
pub fn write_response(body: &str) -> (r: Result<(), BasketError>)
    ensures
        match json_parse_of(body@) {
            Some(doc) => match envelope_status(doc) {
                Some(Status::Okay) => r is Ok,
                Some(Status::Error) => (r matches Err(e) && e matches BasketError::Api(env)
                    && env.status == Status::Error && json_model(env.data) == doc_payload(doc)),
                None => r matches Err(e) && e matches BasketError::Envelope(_),
            },
            None => r matches Err(e) && e matches BasketError::Json(_),
        },
{
    match ApiResponse::parse(body) {
        Ok(env) => env.into_unit(),
        Err(e) => Err(e),
    }
}

impl BasketError {
    /// A textual rendering of the failure: the envelope's rendering for a
    /// domain failure, a fixed phrase for each other tier.
    pub fn describe(&self) -> (r: String)
        ensures
            self matches BasketError::Api(env) ==> r@ == envelope_render(*env),
            self matches BasketError::InvalidTokenFormat ==> r@ == "token must be a uuid"@,
            self matches BasketError::Url(_) ==> r@
                == "base url does not join with the request path"@,
            self matches BasketError::Json(_) ==> r@ == "response body is not valid JSON"@,
            self matches BasketError::Envelope(_) ==> r@ == "response is not a status envelope"@,
    {
        match self {
            BasketError::InvalidTokenFormat => String::from_str("token must be a uuid"),
            BasketError::Url(_) => String::from_str("base url does not join with the request path"),
            BasketError::Json(_) => String::from_str("response body is not valid JSON"),
            BasketError::Envelope(_) => String::from_str("response is not a status envelope"),
            BasketError::Api(env) => env.render(),
        }
    }
}

/// An envelope whose payload is not null renders as exactly the compact
/// JSON of that payload, whatever its status.
pub proof fn lemma_render_nonnull_payload(env: ApiResponse)
    requires
        json_model(env.data) != "null"@,
    ensures
        envelope_render(env) == json_model(env.data),
{
}

/// An envelope whose payload is null renders as the bare status word: `ok`
/// for a success envelope, `error` for an error envelope.
pub proof fn lemma_render_null_payload(env: ApiResponse)
    requires
        json_model(env.data) == "null"@,
    ensures
        envelope_render(env) == status_word(env.status),
{
}

} // verus!
