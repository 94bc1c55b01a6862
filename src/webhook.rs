use vstd::prelude::*;

use crate::decode::DecodeError;
use crate::json::parsed_json;
use crate::payload::{kind_of_tag, Payload};
use crate::signature::{verification_of, verify_signature, Verification};

verus! {

/// Why a webhook request was turned away. Each case carries the offending
/// value, and none carries the secret.
#[derive(Debug, PartialEq, Eq)]
pub enum WebhookError {
    /// The method is not `POST`; it carries the method.
    MethodNotAllowed(String),
    /// The path is not the webhook's path; it carries the path.
    NotFound(String),
    /// The content type is not exactly `application/json`; it carries the
    /// content type, if one was given.
    UnsupportedMediaType(Option<String>),
    /// The request names no event tag.
    MissingEventTag,
    /// A secret is configured and the signature is absent or wrong; it
    /// carries the signature received, if any.
    SignatureMismatch(Option<Vec<u8>>),
    /// The registry does not know the event tag; it carries the tag.
    UnsupportedEvent(String),
    /// The body does not decode as the event that the tag names.
    PayloadDecode(DecodeError),
    /// The body could not be read; it carries the transport's reason.
    BodyRead(String),
}

/// A failed request as the transport answers it: a status code and a
/// one-line diagnostic.
#[derive(Debug)]
pub struct Error {
    pub code: u16,
    pub message: String,
}

impl Error {
    pub fn new(code: u16, message: String) -> (r: Error)
        ensures
            r.code == code,
            r.message == message,
    {
        Error { code, message }
    }

    pub fn code(&self) -> (r: u16)
        ensures
            r == self.code,
    {
        self.code
    }

    pub fn message(&self) -> (r: &str)
        ensures
            r@ == self.message@,
    {
        self.message.as_str()
    }
}

impl DecodeError {
    /// The one-line description of this failure.
    pub open spec fn text(&self) -> Seq<char> {
        match self {
            DecodeError::Syntax => "the body is not one JSON text"@,
            DecodeError::Mismatch => "the body is not a JSON object"@,
            DecodeError::Missing(name) => "missing member `"@ + name@ + "`"@,
            DecodeError::Invalid(name) => "invalid value for member `"@ + name@ + "`"@,
        }
    }

    /// A one-line description of the failure.
    pub fn message(&self) -> (r: String)
        ensures
            r@ == self.text(),
    {
        match self {
            DecodeError::Syntax => String::from_str("the body is not one JSON text"),
            DecodeError::Mismatch => String::from_str("the body is not a JSON object"),
            DecodeError::Missing(name) => String::from_str("missing member `").concat(name.as_str()).concat(
                "`",
            ),
            DecodeError::Invalid(name) => String::from_str("invalid value for member `").concat(
                name.as_str(),
            ).concat("`"),
        }
    }
}

impl WebhookError {
    /// The HTTP status that answers this failure. A bad method answers 400,
    /// not 405, as the provider's convention has it.
    pub open spec fn status_of(&self) -> u16 {
        match self {
            WebhookError::MethodNotAllowed(_) => 400,
            WebhookError::NotFound(_) => 404,
            WebhookError::UnsupportedMediaType(_) => 400,
            WebhookError::MissingEventTag => 400,
            WebhookError::SignatureMismatch(_) => 400,
            WebhookError::UnsupportedEvent(_) => 501,
            WebhookError::PayloadDecode(_) => 500,
            WebhookError::BodyRead(_) => 500,
        }
    }

    pub fn status(&self) -> (r: u16)
        ensures
            r == self.status_of(),
    {
        match self {
            WebhookError::MethodNotAllowed(_) => 400,
            WebhookError::NotFound(_) => 404,
            WebhookError::UnsupportedMediaType(_) => 400,
            WebhookError::MissingEventTag => 400,
            WebhookError::SignatureMismatch(_) => 400,
            WebhookError::UnsupportedEvent(_) => 501,
            WebhookError::PayloadDecode(_) => 500,
            WebhookError::BodyRead(_) => 500,
        }
    }

    /// The one-line diagnostic that answers this failure.
    pub open spec fn text(&self) -> Seq<char> {
        match self {
            WebhookError::MethodNotAllowed(m) => "ONLY ACCEPT POST (GOT: "@ + m@ + ")\n"@,
            WebhookError::NotFound(p) => "404 Not Found (GOT: "@ + p@ + ")\n"@,
            WebhookError::UnsupportedMediaType(c) => "ONLY ACCEPT application/json (GOT: "@ + match c {
                Some(c) => c@,
                None => "none"@,
            } + ")\n"@,
            WebhookError::MissingEventTag => "MISSING EVENT TAG\n"@,
            WebhookError::SignatureMismatch(_) => "SIGNATURE MISMATCH\n"@,
            WebhookError::UnsupportedEvent(t) => "UNSUPPORTED EVENT (GOT: "@ + t@ + ")\n"@,
            WebhookError::PayloadDecode(e) => "FAILED CONVERT PAYLOAD (MSG: "@ + e.text() + ")\n"@,
            WebhookError::BodyRead(e) => "FAILED GET PAYLOAD BYTES (MSG: "@ + e@ + ")\n"@,
        }
    }

    pub fn message(&self) -> (r: String)
        ensures
            r@ == self.text(),
    {
        match self {
            WebhookError::MethodNotAllowed(m) => String::from_str("ONLY ACCEPT POST (GOT: ").concat(
                m.as_str(),
            ).concat(")\n"),
            WebhookError::NotFound(p) => String::from_str("404 Not Found (GOT: ").concat(p.as_str()).concat(
                ")\n",
            ),
            WebhookError::UnsupportedMediaType(c) => {
                let got = match c {
                    Some(c) => c.as_str(),
                    None => "none",
                };
                String::from_str("ONLY ACCEPT application/json (GOT: ").concat(got).concat(")\n")
            },
            WebhookError::MissingEventTag => String::from_str("MISSING EVENT TAG\n"),
            WebhookError::SignatureMismatch(_) => String::from_str("SIGNATURE MISMATCH\n"),
            WebhookError::UnsupportedEvent(t) => String::from_str("UNSUPPORTED EVENT (GOT: ").concat(
                t.as_str(),
            ).concat(")\n"),
            WebhookError::PayloadDecode(e) => String::from_str("FAILED CONVERT PAYLOAD (MSG: ").concat(
                e.message().as_str(),
            ).concat(")\n"),
            WebhookError::BodyRead(e) => String::from_str("FAILED GET PAYLOAD BYTES (MSG: ").concat(
                e.as_str(),
            ).concat(")\n"),
        }
    }

    /// The status and diagnostic that answer this failure.
    pub fn to_error(&self) -> (r: Error)
        ensures
            r.code == self.status_of(),
            r.message@ == self.text(),
    {
        Error::new(self.status(), self.message())
    }
}

/// The path that a webhook listens on unless told otherwise.
pub const DEFAULT_WEBHOOK_PATH: &'static str = "/webhooks";

/// The endpoint's configuration: its path and, optionally, the shared secret.
/// With no secret, requests are taken unauthenticated.
#[derive(Debug)]
pub struct WebhookConfig {
    pub path: String,
    pub secret: Option<Vec<u8>>,
}

impl WebhookConfig {
    /// A configuration on the default path.
    pub fn new(secret: Option<Vec<u8>>) -> (r: WebhookConfig)
        ensures
            r.path@ == DEFAULT_WEBHOOK_PATH@,
            r.secret == secret,
    {
        WebhookConfig { path: String::from_str(DEFAULT_WEBHOOK_PATH), secret }
    }

    /// The secret's bytes, if one is configured.
    pub open spec fn secret_view(&self) -> Option<Seq<u8>> {
        match self.secret {
            Some(s) => Some(s@),
            None => None,
        }
    }
}

/// An inbound request as plain values: the method, the path, the headers the
/// endpoint reads, and the raw body as received.
#[derive(Debug)]
pub struct WebhookRequest {
    pub method: String,
    pub path: String,
    pub content_type: Option<String>,
    pub event: Option<String>,
    pub signature: Option<Vec<u8>>,
    pub body: Vec<u8>,
}

/// The text of an optional string.
pub open spec fn text_of(s: Option<String>) -> Option<Seq<char>> {
    match s {
        Some(s) => Some(s@),
        None => None,
    }
}

/// The bytes of an optional byte string.
pub open spec fn bytes_of(b: Option<Vec<u8>>) -> Option<Seq<u8>> {
    match b {
        Some(b) => Some(b@),
        None => None,
    }
}

/// A request with this method, path, content type and event tag has the
/// shape that the endpoint takes.
pub open spec fn shape_ok(
    method: Seq<char>,
    path: Seq<char>,
    content_type: Option<Seq<char>>,
    event: Option<Seq<char>>,
    webhook_path: Seq<char>,
) -> bool {
    &&& method == "POST"@
    &&& path == webhook_path
    &&& content_type == Some("application/json"@)
    &&& event is Some
}

/// `e` is the rejection that such a request earns. The method is checked
/// first, then the path, the content type and the event tag.
pub open spec fn shape_rejection(
    e: WebhookError,
    method: Seq<char>,
    path: Seq<char>,
    content_type: Option<Seq<char>>,
    event: Option<Seq<char>>,
    webhook_path: Seq<char>,
) -> bool {
    if method != "POST"@ {
        e matches WebhookError::MethodNotAllowed(m) && m@ == method
    } else if path != webhook_path {
        e matches WebhookError::NotFound(p) && p@ == path
    } else if content_type != Some("application/json"@) {
        e matches WebhookError::UnsupportedMediaType(c) && text_of(c) == content_type
    } else {
        e == WebhookError::MissingEventTag
    }
}

fn same_text(a: &str, b: &str) -> (r: bool)
    ensures
        r == (a@ == b@),
{
    a.to_owned() == b.to_owned()
}

fn copy_text(s: Option<&str>) -> (r: Option<String>)
    ensures
        text_of(r) == match s {
            Some(s) => Some(s@),
            None => None,
        },
{
    match s {
        Some(s) => Some(s.to_owned()),
        None => None,
    }
}

/// Checks a request's method, path, content type and event tag, before any
/// of its body is read.
pub fn validate_request(
    method: &str,
    path: &str,
    content_type: Option<&str>,
    event: Option<&str>,
    webhook_path: &str,
) -> (r: Result<(), WebhookError>)
    ensures
        r is Ok <==> shape_ok(
            method@,
            path@,
            match content_type {
                Some(c) => Some(c@),
                None => None,
            },
            match event {
                Some(t) => Some(t@),
                None => None,
            },
            webhook_path@,
        ),
        r matches Err(e) ==> shape_rejection(
            e,
            method@,
            path@,
            match content_type {
                Some(c) => Some(c@),
                None => None,
            },
            match event {
                Some(t) => Some(t@),
                None => None,
            },
            webhook_path@,
        ),
{
    if !same_text(method, "POST") {
        return Err(WebhookError::MethodNotAllowed(method.to_owned()));
    }
    if !same_text(path, webhook_path) {
        return Err(WebhookError::NotFound(path.to_owned()));
    }
    let json_ok = match content_type {
        Some(c) => same_text(c, "application/json"),
        None => false,
    };
    if !json_ok {
        return Err(WebhookError::UnsupportedMediaType(copy_text(content_type)));
    }
    if event.is_none() {
        return Err(WebhookError::MissingEventTag);
    }
    Ok(())
}

/// `r` is what dispatching the event tag `tag` with the raw body `body`
/// gives: an unknown tag is unsupported whatever the body; a known one
/// decodes the body as its kind and no other.
pub open spec fn dispatched(r: Result<Payload, WebhookError>, tag: Seq<char>, body: Seq<u8>) -> bool {
    match kind_of_tag(tag) {
        None => r matches Err(WebhookError::UnsupportedEvent(t)) && t@ == tag,
        Some(k) => match parsed_json(body) {
            None => r == Err::<Payload, WebhookError>(WebhookError::PayloadDecode(DecodeError::Syntax)),
            Some(j) => {
                &&& r is Ok <==> k.accepts(j)
                &&& r matches Ok(p) ==> p.kind_of() == k && p.describes(j)
                &&& r matches Err(e) ==> e matches WebhookError::PayloadDecode(d) && if j is Object {
                    d is Missing || d is Invalid
                } else {
                    d is Mismatch
                }
            },
        },
    }
}

/// Looks up the event tag in the registry and decodes the body as the event
/// it names.
pub fn dispatch(tag: &str, body: &[u8]) -> (r: Result<Payload, WebhookError>)
    ensures
        dispatched(r, tag@, body@),
{
    match Payload::convertor(tag) {
        None => Err(WebhookError::UnsupportedEvent(tag.to_owned())),
        Some(kind) => match Payload::convert(kind, body) {
            Ok(p) => Ok(p),
            Err(e) => Err(WebhookError::PayloadDecode(e)),
        },
    }
}

/// Handles one request: checks its shape, then its signature, then decodes
/// the body as the event its tag names. Each step runs only when the ones
/// before it passed, so the body is parsed only once the request is
/// authenticated or no secret is configured.
pub fn handle_request(config: &WebhookConfig, req: &WebhookRequest) -> (r: Result<Payload, WebhookError>)
    ensures
        !shape_ok(req.method@, req.path@, text_of(req.content_type), text_of(req.event), config.path@)
            ==> (r matches Err(e) && shape_rejection(
            e,
            req.method@,
            req.path@,
            text_of(req.content_type),
            text_of(req.event),
            config.path@,
        )),
        shape_ok(req.method@, req.path@, text_of(req.content_type), text_of(req.event), config.path@)
            ==> {
            let verdict = verification_of(config.secret_view(), bytes_of(req.signature), req.body@);
            if verdict == Verification::Rejected {
                (r matches Err(WebhookError::SignatureMismatch(s)) && bytes_of(s) == bytes_of(req.signature))
            } else {
                dispatched(r, req.event->Some_0@, req.body@)
            }
        },
{
    let content_type = match &req.content_type {
        Some(c) => Some(c.as_str()),
        None => None,
    };
    let event = match &req.event {
        Some(t) => Some(t.as_str()),
        None => None,
    };
    match validate_request(req.method.as_str(), req.path.as_str(), content_type, event, config.path.as_str()) {
        Ok(()) => {},
        Err(e) => return Err(e),
    }
    let secret = match &config.secret {
        Some(s) => Some(s.as_slice()),
        None => None,
    };
    let signature = match &req.signature {
        Some(s) => Some(s.as_slice()),
        None => None,
    };
    if verify_signature(req.body.as_slice(), signature, secret) == Verification::Rejected {
        let received = match &req.signature {
            Some(s) => Some(s.clone()),
            None => None,
        };
        return Err(WebhookError::SignatureMismatch(received));
    }
    match event {
        Some(tag) => dispatch(tag, req.body.as_slice()),
        None => Err(WebhookError::MissingEventTag),
    }
}

} // verus!
