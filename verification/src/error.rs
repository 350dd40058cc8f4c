//! The error model of the SDK.

use std::time::Duration;

use vstd::prelude::*;
use vstd::string::StringSliceAdditionalSpecFns;
use vstd::utf8::*;

use crate::json::{doc_view, json_decode, member, opt_chars, spec_json_decode, spec_member, spec_text_as_object, spec_text_as_str, text_as_object, text_as_str, JsonDoc, JsonNode, JsonNodeView};
use crate::message::Message;
use crate::text::{decimal_string, lossy_string, spec_decimal, spec_lossy};

verus! {

/// Error type for all Honcho SDK operations.
#[derive(Debug)]
pub enum HonchoError {
    /// 400 Bad Request
    BadRequest {
        /// Error message from the API.
        message: String,
        /// Full response body if it was JSON.
        body: Option<JsonDoc>,
    },
    /// 401 Authentication Error
    Authentication {
        /// Error message.
        message: String,
    },
    /// 403 Permission Denied
    PermissionDenied {
        /// Error message.
        message: String,
    },
    /// 404 Not Found
    NotFound {
        /// Error message.
        message: String,
    },
    /// 409 Conflict
    Conflict {
        /// Error message.
        message: String,
        /// Full response body if it was JSON.
        body: Option<JsonDoc>,
    },
    /// 422 Unprocessable Entity
    UnprocessableEntity {
        /// Error message.
        message: String,
        /// Full response body if it was JSON.
        body: Option<JsonDoc>,
    },
    /// 429 Rate Limit Exceeded
    RateLimit {
        /// Error message.
        message: String,
        /// Suggested wait time from the Retry-After header.
        retry_after: Option<Duration>,
    },
    /// Any HTTP status without a variant of its own: a 4xx without one, an
    /// unexpected 3xx, or one outside every category (such as 600 and above
    /// from a misbehaving proxy).
    Client {
        /// HTTP status code.
        status: u16,
        /// Error message.
        message: String,
    },
    /// 5xx Server Error (500–599)
    Server {
        /// HTTP status code.
        status: u16,
        /// Error message.
        message: String,
    },
    /// Request timed out.
    Timeout {
        /// Error message.
        message: String,
    },
    /// Connection error.
    Connection {
        /// Error message.
        message: String,
    },
    /// HTTP transport error from reqwest.
    Transport(reqwest::Error),
    /// Failed to decode a response body.
    Decode {
        /// JSON path where decoding failed.
        path: String,
        /// The underlying serde error.
        source: serde_json::Error,
    },
    /// Failed to serialize a value before sending it to the API.
    Serialization {
        /// Logical name of the value being serialized.
        path: String,
        /// The underlying serde error.
        source: serde_json::Error,
    },
    /// IO error.
    Io(std::io::Error),
    /// Configuration error.
    Configuration(String),
    /// Validation error (e.g. duplicate inputs, invalid arguments).
    Validation(String),
    /// Partial failure in a chunked batch operation.
    PartialFailure {
        /// Messages that were successfully created before the failure.
        messages: Vec<Message>,
        /// The number of messages successfully sent.
        sent: usize,
        /// The underlying error that caused the failure.
        error: Box<HonchoError>,
    },
}

/// Alias for `Result<T, HonchoError>`.
pub type Result<T> = core::result::Result<T, HonchoError>;

impl HonchoError {
    /// The stable code of the error.
    pub open spec fn spec_code(&self) -> Seq<char> {
        match self {
            HonchoError::BadRequest { .. } => "bad_request"@,
            HonchoError::Authentication { .. } => "authentication_error"@,
            HonchoError::PermissionDenied { .. } => "permission_denied"@,
            HonchoError::NotFound { .. } => "not_found"@,
            HonchoError::Conflict { .. } => "conflict"@,
            HonchoError::UnprocessableEntity { .. } => "unprocessable_entity"@,
            HonchoError::RateLimit { .. } => "rate_limit_exceeded"@,
            HonchoError::Client { .. } => "client_error"@,
            HonchoError::Server { .. } => "server_error"@,
            HonchoError::Timeout { .. } => "timeout"@,
            HonchoError::Connection { .. } => "connection_error"@,
            HonchoError::Transport(_) => "transport_error"@,
            HonchoError::Decode { .. } => "decode_error"@,
            HonchoError::Serialization { .. } => "serialization_error"@,
            HonchoError::Io(_) => "io_error"@,
            HonchoError::Configuration(_) => "configuration_error"@,
            HonchoError::Validation(_) => "validation_error"@,
            HonchoError::PartialFailure { .. } => "partial_failure"@,
        }
    }

    /// The HTTP status the error stands for, if it came from a response.
    pub open spec fn spec_status(&self) -> Option<u16>
        decreases self,
    {
        match self {
            HonchoError::BadRequest { .. } => Some(400u16),
            HonchoError::Authentication { .. } => Some(401u16),
            HonchoError::PermissionDenied { .. } => Some(403u16),
            HonchoError::NotFound { .. } => Some(404u16),
            HonchoError::Conflict { .. } => Some(409u16),
            HonchoError::UnprocessableEntity { .. } => Some(422u16),
            HonchoError::RateLimit { .. } => Some(429u16),
            HonchoError::Client { status, .. } => Some(*status),
            HonchoError::Server { status, .. } => Some(*status),
            HonchoError::PartialFailure { error, .. } => error.spec_status(),
            _ => None,
        }
    }

    /// The SDK retry policy.
    pub open spec fn spec_is_retryable(&self) -> bool {
        match self {
            HonchoError::PartialFailure { .. } => false,
            HonchoError::Timeout { .. } => true,
            HonchoError::Connection { .. } => true,
            _ => match self.spec_status() {
                Some(s) => s == 429 || s == 500 || s == 502 || s == 503 || s == 504,
                None => false,
            },
        }
    }

    /// The suggested wait before retrying.
    pub open spec fn spec_retry_after(&self) -> Option<Duration>
        decreases self,
    {
        match self {
            HonchoError::RateLimit { retry_after, .. } => *retry_after,
            HonchoError::PartialFailure { error, .. } => error.spec_retry_after(),
            _ => None,
        }
    }

    /// The human-readable message.
    pub open spec fn spec_message(&self) -> Seq<char>
        decreases self,
    {
        match self {
            HonchoError::BadRequest { message, .. } => message@,
            HonchoError::Authentication { message } => message@,
            HonchoError::PermissionDenied { message } => message@,
            HonchoError::NotFound { message } => message@,
            HonchoError::Conflict { message, .. } => message@,
            HonchoError::UnprocessableEntity { message, .. } => message@,
            HonchoError::RateLimit { message, .. } => message@,
            HonchoError::Client { message, .. } => message@,
            HonchoError::Server { message, .. } => message@,
            HonchoError::Timeout { message } => message@,
            HonchoError::Connection { message } => message@,
            HonchoError::Transport(_) => "transport error"@,
            HonchoError::Io(_) => "I/O error"@,
            HonchoError::Decode { .. } => "failed to decode response"@,
            HonchoError::Serialization { .. } => "failed to serialize request"@,
            HonchoError::Configuration(s) => s@,
            HonchoError::Validation(s) => s@,
            HonchoError::PartialFailure { error, .. } => error.spec_message(),
        }
    }

    /// Returns a stable error code string for pattern matching.
    pub fn code(&self) -> (r: &'static str)
        ensures
            r@ == self.spec_code(),
    {
        match self {
            HonchoError::BadRequest { .. } => "bad_request",
            HonchoError::Authentication { .. } => "authentication_error",
            HonchoError::PermissionDenied { .. } => "permission_denied",
            HonchoError::NotFound { .. } => "not_found",
            HonchoError::Conflict { .. } => "conflict",
            HonchoError::UnprocessableEntity { .. } => "unprocessable_entity",
            HonchoError::RateLimit { .. } => "rate_limit_exceeded",
            HonchoError::Client { .. } => "client_error",
            HonchoError::Server { .. } => "server_error",
            HonchoError::Timeout { .. } => "timeout",
            HonchoError::Connection { .. } => "connection_error",
            HonchoError::Transport(_) => "transport_error",
            HonchoError::Decode { .. } => "decode_error",
            HonchoError::Serialization { .. } => "serialization_error",
            HonchoError::Io(_) => "io_error",
            HonchoError::Configuration(_) => "configuration_error",
            HonchoError::Validation(_) => "validation_error",
            HonchoError::PartialFailure { .. } => "partial_failure",
        }
    }

    /// Returns the HTTP status code if this error originated from an HTTP response.
    pub fn status_code(&self) -> (r: Option<u16>)
        ensures
            r == self.spec_status(),
        decreases self,
    {
        match self {
            HonchoError::BadRequest { .. } => Some(400),
            HonchoError::Authentication { .. } => Some(401),
            HonchoError::PermissionDenied { .. } => Some(403),
            HonchoError::NotFound { .. } => Some(404),
            HonchoError::Conflict { .. } => Some(409),
            HonchoError::UnprocessableEntity { .. } => Some(422),
            HonchoError::RateLimit { .. } => Some(429),
            HonchoError::Client { status, .. } => Some(*status),
            HonchoError::Server { status, .. } => Some(*status),
            HonchoError::PartialFailure { error, .. } => error.status_code(),
            _ => None,
        }
    }

    /// Returns whether the error matches the SDK retry policy.
    pub fn is_retryable(&self) -> (r: bool)
        ensures
            r == self.spec_is_retryable(),
    {
        match self {
            HonchoError::PartialFailure { .. } => false,
            HonchoError::Timeout { .. } => true,
            HonchoError::Connection { .. } => true,
            _ => match self.status_code() {
                Some(s) => s == 429 || s == 500 || s == 502 || s == 503 || s == 504,
                None => false,
            },
        }
    }

    /// Returns the suggested wait time for rate-limited requests.
    pub fn retry_after(&self) -> (r: Option<Duration>)
        ensures
            r == self.spec_retry_after(),
        decreases self,
    {
        match self {
            HonchoError::RateLimit { retry_after, .. } => *retry_after,
            HonchoError::PartialFailure { error, .. } => error.retry_after(),
            _ => None,
        }
    }

    /// Returns `true` if this is a partial failure with some successful messages.
    pub fn is_partial_failure(&self) -> (r: bool)
        ensures
            r == (self is PartialFailure),
    {
        match self {
            HonchoError::PartialFailure { .. } => true,
            _ => false,
        }
    }

    /// Extract the partial failure data, consuming the error.
    pub fn into_partial_failure(self) -> (r: Option<(Vec<Message>, Box<HonchoError>)>)
        ensures
            match self {
                HonchoError::PartialFailure { messages, error, .. } => r == Some((messages, error)),
                _ => r is None,
            },
    {
        match self {
            HonchoError::PartialFailure { messages, error, .. } => Some((messages, error)),
            _ => None,
        }
    }

    /// Returns the human-readable error message.
    pub fn message(&self) -> (r: &str)
        ensures
            r@ == self.spec_message(),
        decreases self,
    {
        match self {
            HonchoError::BadRequest { message, .. } => message.as_str(),
            HonchoError::Authentication { message } => message.as_str(),
            HonchoError::PermissionDenied { message } => message.as_str(),
            HonchoError::NotFound { message } => message.as_str(),
            HonchoError::Conflict { message, .. } => message.as_str(),
            HonchoError::UnprocessableEntity { message, .. } => message.as_str(),
            HonchoError::RateLimit { message, .. } => message.as_str(),
            HonchoError::Client { message, .. } => message.as_str(),
            HonchoError::Server { message, .. } => message.as_str(),
            HonchoError::Timeout { message } => message.as_str(),
            HonchoError::Connection { message } => message.as_str(),
            HonchoError::Transport(_) => "transport error",
            HonchoError::Io(_) => "I/O error",
            HonchoError::Decode { .. } => "failed to decode response",
            HonchoError::Serialization { .. } => "failed to serialize request",
            HonchoError::Configuration(s) => s.as_str(),
            HonchoError::Validation(s) => s.as_str(),
            HonchoError::PartialFailure { error, .. } => error.message(),
        }
    }
}

} // verus!

verus! {

/// The readable message of one element of a `detail` array: a bare string,
/// or the `msg` string of an object.
pub open spec fn spec_item_message(item: Seq<char>) -> Option<Seq<char>> {
    match spec_text_as_str(item) {
        Some(s) => Some(s),
        None => match spec_text_as_object(item) {
            Some(m) => match spec_member(m, "msg"@) {
                Some(t) => spec_text_as_str(t),
                None => None,
            },
            None => None,
        },
    }
}

/// The readable messages of the elements of a `detail` array, in order.
pub open spec fn spec_item_messages(items: Seq<Seq<char>>) -> Seq<Seq<char>>
    decreases items.len(),
{
    if items.len() == 0 {
        seq![]
    } else {
        let rest = spec_item_messages(items.drop_first());
        match spec_item_message(items[0]) {
            Some(m) => seq![m] + rest,
            None => rest,
        }
    }
}

/// `parts` joined with `sep` between neighbours.
pub open spec fn spec_join(parts: Seq<Seq<char>>, sep: Seq<char>) -> Seq<char>
    decreases parts.len(),
{
    if parts.len() == 0 {
        seq![]
    } else if parts.len() == 1 {
        parts[0]
    } else {
        spec_join(parts.drop_last(), sep) + sep + parts.last()
    }
}

/// The readable message of a `detail` value: a string, or the messages of
/// its elements joined with `"; "` when it is an array that has any.
pub open spec fn spec_detail_message(detail: Seq<char>) -> Option<Seq<char>> {
    match spec_json_decode(encode_utf8(detail)) {
        Some(d) => match d.node {
            JsonNodeView::Str(s) => Some(s),
            JsonNodeView::Array(items) => {
                let parts = spec_item_messages(items);
                if parts.len() == 0 {
                    None
                } else {
                    Some(spec_join(parts, "; "@))
                }
            },
            _ => None,
        },
        None => None,
    }
}

/// The message of an error response body: the readable `detail`, else the
/// `message` string, else the `error` string, else the JSON text; a JSON
/// string is its own message; a body that is no JSON is read as lossy UTF-8.
pub open spec fn spec_error_message(body: Seq<u8>) -> Seq<char> {
    match spec_json_decode(body) {
        None => decode_utf8(spec_lossy(body)),
        Some(doc) => match doc.node {
            JsonNodeView::Object(m) => {
                let detail = match spec_member(m, "detail"@) {
                    Some(t) => spec_detail_message(t),
                    None => None,
                };
                let message = match spec_member(m, "message"@) {
                    Some(t) => spec_text_as_str(t),
                    None => None,
                };
                let error = match spec_member(m, "error"@) {
                    Some(t) => spec_text_as_str(t),
                    None => None,
                };
                if detail is Some {
                    detail->0
                } else if message is Some {
                    message->0
                } else if error is Some {
                    error->0
                } else {
                    doc.text
                }
            },
            JsonNodeView::Str(s) => s,
            _ => doc.text,
        },
    }
}

fn item_message(item: &String) -> (r: Option<String>)
    ensures
        opt_chars(r) == spec_item_message(item@),
{
    match text_as_str(item.as_str()) {
        Some(s) => Some(s),
        None => match text_as_object(item.as_str()) {
            Some(m) => match member(&m, "msg") {
                Some(t) => text_as_str(t.as_str()),
                None => None,
            },
            None => None,
        },
    }
}

/// Proof that the filtered messages of a prefix extend by the next element's message.
proof fn lemma_item_messages_step(items: Seq<Seq<char>>, i: int)
    requires
        0 <= i < items.len(),
    ensures
        spec_item_messages(items.take(i + 1)) == match spec_item_message(items[i]) {
            Some(m) => spec_item_messages(items.take(i)).push(m),
            None => spec_item_messages(items.take(i)),
        },
    decreases i,
{
    let a = items.take(i + 1);
    if i == 0 {
        assert(a.drop_first() =~= Seq::<Seq<char>>::empty());
        assert(items.take(0) =~= Seq::<Seq<char>>::empty());
    } else {
        let tail = items.drop_first();
        assert(a.drop_first() =~= tail.take(i));
        assert(items.take(i).drop_first() =~= tail.take(i - 1));
        lemma_item_messages_step(tail, i - 1);
        assert(tail[i - 1] == items[i]);
        match spec_item_message(items[i]) {
            Some(m) => {
                match spec_item_message(items[0]) {
                    Some(m0) => {
                        assert(seq![m0] + spec_item_messages(tail.take(i - 1)).push(m) =~= (seq![m0] + spec_item_messages(tail.take(i - 1))).push(m));
                    },
                    None => {},
                }
            },
            None => {},
        }
    }
}

fn detail_message(detail: &String) -> (r: Option<String>)
    ensures
        opt_chars(r) == spec_detail_message(detail@),
{
    match crate::json::decode_text(detail.as_str()) {
        Some(d) => match d.node {
            JsonNode::Str(s) => Some(s),
            JsonNode::Array(items) => {
                let ghost iv = items.deep_view();
                let mut joined = String::new();
                let mut count: usize = 0;
                let mut i: usize = 0;
                while i < items.len()
                    invariant
                        iv == items.deep_view(),
                        0 <= i <= items@.len(),
                        count == spec_item_messages(iv.take(i as int)).len(),
                        count <= i,
                        joined@ == spec_join(spec_item_messages(iv.take(i as int)), "; "@),
                    decreases items@.len() - i,
                {
                    proof { lemma_item_messages_step(iv, i as int); }
                    match item_message(&items[i]) {
                        Some(m) => {
                            let ghost parts = spec_item_messages(iv.take(i as int));
                            assert(parts.push(m@).drop_last() =~= parts);
                            if count > 0 {
                                joined.append("; ");
                            }
                            joined.append(m.as_str());
                            count = count + 1;
                        },
                        None => {},
                    }
                    i = i + 1;
                }
                assert(iv.take(items@.len() as int) =~= iv);
                if count == 0 {
                    None
                } else {
                    Some(joined)
                }
            },
            _ => None,
        },
        None => None,
    }
}

/// Parse an error response body into its readable message and, when the
/// body is JSON, the decoded document.
pub fn parse_error_body(body: &[u8]) -> (r: (String, Option<JsonDoc>))
    ensures
        r.0@ == spec_error_message(body@),
        doc_view(r.1) == spec_json_decode(body@),
{
    match json_decode(body) {
        None => {
            let msg = lossy_string(body);
            proof { encode_utf8_decode_utf8(msg@); }
            (msg, None)
        },
        Some(doc) => {
            let readable: Option<String> = match &doc.node {
                JsonNode::Object(m) => {
                    let detail = match member(m, "detail") {
                        Some(t) => detail_message(t),
                        None => None,
                    };
                    if detail.is_some() {
                        detail
                    } else {
                        let message = match member(m, "message") {
                            Some(t) => text_as_str(t.as_str()),
                            None => None,
                        };
                        if message.is_some() {
                            message
                        } else {
                            match member(m, "error") {
                                Some(t) => text_as_str(t.as_str()),
                                None => None,
                            }
                        }
                    }
                },
                JsonNode::Str(s) => Some(s.clone()),
                _ => None,
            };
            match readable {
                Some(s) => (s, Some(doc)),
                None => {
                    let text = doc.text.clone();
                    (text, Some(doc))
                },
            }
        },
    }
}

} // verus!

verus! {

/// The error a response with HTTP status `status`, body `body` and parsed
/// Retry-After value `retry_after` stands for.
pub open spec fn spec_from_response(e: HonchoError, status: u16, body: Seq<u8>, retry_after: Option<Duration>) -> bool {
    let msg = spec_error_message(body);
    let doc = spec_json_decode(body);
    if status == 400 {
        e matches HonchoError::BadRequest { message, body: b } && message@ == msg && doc_view(b) == doc
    } else if status == 401 {
        e matches HonchoError::Authentication { message } && message@ == msg
    } else if status == 403 {
        e matches HonchoError::PermissionDenied { message } && message@ == msg
    } else if status == 404 {
        e matches HonchoError::NotFound { message } && message@ == msg
    } else if status == 409 {
        e matches HonchoError::Conflict { message, body: b } && message@ == msg && doc_view(b) == doc
    } else if status == 422 {
        e matches HonchoError::UnprocessableEntity { message, body: b } && message@ == msg && doc_view(b) == doc
    } else if status == 429 {
        e matches HonchoError::RateLimit { message, retry_after: r } && message@ == msg && r == retry_after
    } else if 500 <= status <= 599 {
        e matches HonchoError::Server { status: s, message } && s == status && message@ == msg
    } else if 400 <= status <= 499 {
        e matches HonchoError::Client { status: s, message } && s == status && message@ == msg
    } else if 300 <= status <= 399 {
        e matches HonchoError::Client { status: s, message } && s == status
            && message@ == "unexpected redirect status "@ + spec_decimal(status as nat)
    } else {
        e matches HonchoError::Client { status: s, message } && s == status
            && message@ == "unexpected response status "@ + spec_decimal(status as nat)
    }
}

/// Construct the error for an HTTP response from its status, its body and
/// the already-parsed value of its Retry-After header (only a 429 uses it).
pub fn from_response(status: u16, body: &[u8], retry_after: Option<Duration>) -> (e: HonchoError)
    ensures
        spec_from_response(e, status, body@, retry_after),
{
    let (message, body_value) = parse_error_body(body);
    if status == 400 {
        HonchoError::BadRequest { message, body: body_value }
    } else if status == 401 {
        HonchoError::Authentication { message }
    } else if status == 403 {
        HonchoError::PermissionDenied { message }
    } else if status == 404 {
        HonchoError::NotFound { message }
    } else if status == 409 {
        HonchoError::Conflict { message, body: body_value }
    } else if status == 422 {
        HonchoError::UnprocessableEntity { message, body: body_value }
    } else if status == 429 {
        HonchoError::RateLimit { message, retry_after }
    } else if 500 <= status && status <= 599 {
        HonchoError::Server { status, message }
    } else if 400 <= status && status <= 499 {
        HonchoError::Client { status, message }
    } else if 300 <= status && status <= 399 {
        let mut m = String::from_str("unexpected redirect status ");
        let d = decimal_string(status as u64);
        m.append(d.as_str());
        HonchoError::Client { status, message: m }
    } else {
        let mut m = String::from_str("unexpected response status ");
        let d = decimal_string(status as u64);
        m.append(d.as_str());
        HonchoError::Client { status, message: m }
    }
}

} // verus!

verus! {

/// Whether the members `m` of an error object have no readable `detail`.
pub open spec fn no_readable_detail(m: Seq<(Seq<char>, Seq<char>)>) -> bool {
    match spec_member(m, "detail"@) {
        Some(t) => spec_detail_message(t) is None,
        None => true,
    }
}

/// Law: an error body that is a JSON object with a `detail` string has that
/// string as its message, whatever its `message` and `error` members say.
pub proof fn law_detail_string_wins(
    body: Seq<u8>,
    doc: crate::json::JsonDocView,
    m: Seq<(Seq<char>, Seq<char>)>,
    t: Seq<char>,
    d: Seq<char>,
)
    requires
        spec_json_decode(body) == Some(doc),
        doc.node == JsonNodeView::Object(m),
        spec_member(m, "detail"@) == Some(t),
        spec_text_as_str(t) == Some(d),
    ensures
        spec_error_message(body) == d,
{
}

/// Law: an error body that is a JSON object whose `detail` has a readable
/// message (a string, or an array with readable messages, joined) has that
/// message, whatever its `message` and `error` members say.
pub proof fn law_readable_detail_wins(
    body: Seq<u8>,
    doc: crate::json::JsonDocView,
    m: Seq<(Seq<char>, Seq<char>)>,
    t: Seq<char>,
    d: Seq<char>,
)
    requires
        spec_json_decode(body) == Some(doc),
        doc.node == JsonNodeView::Object(m),
        spec_member(m, "detail"@) == Some(t),
        spec_detail_message(t) == Some(d),
    ensures
        spec_error_message(body) == d,
{
}

/// Law: without a readable `detail`, a `message` string is the message of
/// an error object, whatever its `error` member says.
pub proof fn law_message_before_error(
    body: Seq<u8>,
    doc: crate::json::JsonDocView,
    m: Seq<(Seq<char>, Seq<char>)>,
    t: Seq<char>,
    msg: Seq<char>,
)
    requires
        spec_json_decode(body) == Some(doc),
        doc.node == JsonNodeView::Object(m),
        no_readable_detail(m),
        spec_member(m, "message"@) == Some(t),
        spec_text_as_str(t) == Some(msg),
    ensures
        spec_error_message(body) == msg,
{
}

/// Law: with neither a readable `detail` nor a `message` string, an `error`
/// string is the message of an error object; with none of the three, its
/// JSON text is.
pub proof fn law_error_member_last(body: Seq<u8>, doc: crate::json::JsonDocView, m: Seq<(Seq<char>, Seq<char>)>)
    requires
        spec_json_decode(body) == Some(doc),
        doc.node == JsonNodeView::Object(m),
        no_readable_detail(m),
        match spec_member(m, "message"@) {
            Some(t) => spec_text_as_str(t) is None,
            None => true,
        },
    ensures
        match spec_member(m, "error"@) {
            Some(t) => match spec_text_as_str(t) {
                Some(err) => spec_error_message(body) == err,
                None => spec_error_message(body) == doc.text,
            },
            None => spec_error_message(body) == doc.text,
        },
{
}

/// Law: an error made from a response is retryable exactly when its status
/// is 429 (rate limited), 500, 502, 503 or 504, whatever the body and the
/// Retry-After value.
pub proof fn law_response_retryable(e: HonchoError, status: u16, body: Seq<u8>, retry_after: Option<Duration>)
    requires
        spec_from_response(e, status, body, retry_after),
    ensures
        e.spec_is_retryable() <==> (status == 429 || status == 500 || status == 502 || status == 503 || status
            == 504),
        e.spec_status() == Some(status),
{
}

/// Law: timeouts and connection failures are always retried, a partial
/// failure never is, whatever error caused it.
pub proof fn law_transport_failures_retryable(e: HonchoError)
    ensures
        (e is Timeout || e is Connection) ==> e.spec_is_retryable(),
        e is PartialFailure ==> !e.spec_is_retryable(),
{
}

} // verus!
