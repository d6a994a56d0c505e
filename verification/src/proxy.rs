//! The request proxy: what a call to the backend looks like on the wire, and
//! what its reply means.
//!
//! A call is a method, a path and an optional JSON body. The proxy resolves
//! the path against the supervisor's stored port. Of the reply it makes one of
//! four things: the body text of a success, or one of three errors (no
//! response, a response with a failure status, a body that does not decode).
//! All three errors reach the application as one line of text.

use vstd::prelude::*;
use crate::json::{JsonModel, JsonObject};
use crate::status::{status_display, success_status, HttpStatus};
use crate::supervisor::{backend_url_text, get_backend_url, BackendSupervisor};
use crate::text::{decimal, lemma_occurs_in_middle, occurs_in};

verus! {

/// The HTTP methods that calls to the backend use.
#[derive(Clone, Copy, Debug, PartialEq, Eq, Structural)]
pub enum Method {
    Get,
    Post,
    Put,
    Delete,
}

/// The body of a call.
#[derive(Debug, PartialEq, Eq)]
pub enum RequestBody {
    /// The call carries no body.
    Empty,
    /// The call carries this object as its JSON payload.
    Object(JsonObject),
    /// The call carries the JSON of a value that the caller holds and
    /// serialises itself.
    Attached,
}

/// The body of a call, as contracts see it.
pub enum BodyModel {
    Empty,
    Object(Seq<(Seq<char>, JsonModel)>),
    Attached,
}

impl View for RequestBody {
    type V = BodyModel;

    open spec fn view(&self) -> BodyModel {
        match *self {
            RequestBody::Empty => BodyModel::Empty,
            RequestBody::Object(object) => BodyModel::Object(object@),
            RequestBody::Attached => BodyModel::Attached,
        }
    }
}

/// A call as the command surface states it.
#[derive(Debug, PartialEq, Eq)]
pub struct ProxyRequest {
    pub method: Method,
    /// The path below the backend's base URL, with its query where it has one.
    pub path: String,
    pub body: RequestBody,
}

/// A call, as contracts see it.
pub struct RequestModel {
    pub method: Method,
    pub path: Seq<char>,
    pub body: BodyModel,
}

impl View for ProxyRequest {
    type V = RequestModel;

    open spec fn view(&self) -> RequestModel {
        RequestModel { method: self.method, path: self.path@, body: self.body@ }
    }
}

/// A call as it goes on the wire.
#[derive(Debug, PartialEq, Eq)]
pub struct HttpRequest {
    pub method: Method,
    pub url: String,
    pub body: RequestBody,
}

/// What came back for a call.
#[derive(Debug)]
pub enum Reply {
    /// No response: the transport failed, with this description.
    Unreachable(String),
    /// A response, with its status and its body read as text.
    Answered { status: HttpStatus, body: String },
}

/// Why a call failed.
#[derive(Debug, PartialEq, Eq)]
pub enum ProxyError {
    /// The transport failed: no connection, or no response in time.
    RequestFailed(String),
    /// The backend answered with a failure status.
    BackendError { status: HttpStatus, body: String },
    /// The response did not decode as the type the caller expected.
    DecodeFailed(String),
}

/// The text of a backend error: the status as shown, then the body.
pub open spec fn backend_error_text(status_text: Seq<char>, body: Seq<char>) -> Seq<char> {
    "Backend error ("@ + status_text + "): "@ + body
}

/// The rendered text of a proxy error.
pub open spec fn proxy_error_text(error: ProxyError) -> Seq<char> {
    match error {
        ProxyError::RequestFailed(detail) => "Request failed: "@ + detail@,
        ProxyError::BackendError { status, body } => backend_error_text(
            status_display(status@),
            body@,
        ),
        ProxyError::DecodeFailed(detail) => "Failed to parse response: "@ + detail@,
    }
}

/// What a reply settles to: the body of a response with a success status; an
/// error for a response with any other status, and for no response.
pub open spec fn settled(reply: Reply) -> Result<String, ProxyError> {
    match reply {
        Reply::Unreachable(detail) => Err(ProxyError::RequestFailed(detail)),
        Reply::Answered { status, body } => if success_status(status@) {
            Ok(body)
        } else {
            Err(ProxyError::BackendError { status, body })
        },
    }
}

/// Resolves a call against the supervisor's stored port: the URL is the
/// backend's base URL followed by the path; method and body go through
/// unchanged.
///
/// Nothing holds a call back while no backend is serving: the port is then 0,
/// and the request fails in the transport.
pub fn backend_request(supervisor: &BackendSupervisor, request: ProxyRequest) -> (wire:
    HttpRequest)
    ensures
        wire.method == request.method,
        wire.url@ == backend_url_text(supervisor@.port) + request.path@,
        wire.body == request.body,
{
    let mut url = get_backend_url(supervisor);
    url.append(request.path.as_str());
    HttpRequest { method: request.method, url, body: request.body }
}

/// Settles a reply: see [`settled`].
///
/// The body of a success is handed on as text, for the caller to decode as the
/// type it expects; where that fails the caller reports
/// [`ProxyError::DecodeFailed`].
pub fn settle(reply: Reply) -> (outcome: Result<String, ProxyError>)
    ensures
        outcome == settled(reply),
{
    match reply {
        Reply::Unreachable(detail) => Err(ProxyError::RequestFailed(detail)),
        Reply::Answered { status, body } => {
            if status.is_success() {
                Ok(body)
            } else {
                Err(ProxyError::BackendError { status, body })
            }
        },
    }
}

/// The line of text for a response with a failure status, from the status as
/// shown and the response's body.
pub fn backend_error_message(status_text: &str, body: &str) -> (text: String)
    ensures
        text@ == backend_error_text(status_text@, body@),
{
    let mut text = String::from_str("Backend error (");
    text.append(status_text);
    text.append("): ");
    text.append(body);
    text
}

impl ProxyError {
    /// The error as one line of text, which is all the application sees of it.
    ///
    /// The line is never empty. For a failure status it holds both the
    /// status code and the body of the response.
    pub fn message(&self) -> (text: String)
        ensures
            text@ == proxy_error_text(*self),
            text@.len() > 0,
            self matches ProxyError::BackendError { status, body } ==> occurs_in(
                decimal(status@ as nat),
                text@,
            ) && occurs_in(body@, text@),
    {
        match self {
            ProxyError::RequestFailed(detail) => {
                let mut text = String::from_str("Request failed: ");
                text.append(detail.as_str());
                proof {
                    reveal_strlit("Request failed: ");
                }
                text
            },
            ProxyError::BackendError { status, body } => {
                let shown = status.display();
                let text = backend_error_message(shown.as_str(), body.as_str());
                proof {
                    reveal_strlit("Backend error (");
                    lemma_backend_error_holds_body(shown@, body@);
                    lemma_backend_error_holds_code(decimal(status@ as nat), shown@, body@);
                }
                text
            },
            ProxyError::DecodeFailed(detail) => {
                let mut text = String::from_str("Failed to parse response: ");
                text.append(detail.as_str());
                proof {
                    reveal_strlit("Failed to parse response: ");
                }
                text
            },
        }
    }
}

/// The text of a backend error holds the status as shown and the body.
pub proof fn lemma_backend_error_holds_body(status_text: Seq<char>, body: Seq<char>)
    ensures
        occurs_in(status_text, backend_error_text(status_text, body)),
        occurs_in(body, backend_error_text(status_text, body)),
{
    let text = backend_error_text(status_text, body);
    lemma_occurs_in_middle("Backend error ("@, status_text, "): "@ + body);
    assert(text =~= "Backend error ("@ + status_text + ("): "@ + body));
    lemma_occurs_in_middle("Backend error ("@ + status_text + "): "@, body, Seq::empty());
    assert(text =~= "Backend error ("@ + status_text + "): "@ + body + Seq::<char>::empty());
}

/// Where the status as shown opens with a numeral and a space, the text of
/// the backend error holds that numeral.
pub proof fn lemma_backend_error_holds_code(
    numeral: Seq<char>,
    status_text: Seq<char>,
    body: Seq<char>,
)
    requires
        (numeral + seq![' ']).is_prefix_of(status_text),
    ensures
        occurs_in(numeral, backend_error_text(status_text, body)),
{
    let text = backend_error_text(status_text, body);
    let opening = numeral + seq![' '];
    let rest = status_text.subrange(numeral.len() as int, status_text.len() as int);
    assert(opening =~= status_text.subrange(0, opening.len() as int));
    assert(status_text =~= numeral + rest) by {
        assert forall|i: int| 0 <= i < numeral.len() implies status_text[i] == numeral[i] by {
            assert(opening[i] == numeral[i]);
            assert(status_text.subrange(0, opening.len() as int)[i] == status_text[i]);
        }
    }
    lemma_occurs_in_middle("Backend error ("@, numeral, rest + "): "@ + body);
    assert(text =~= "Backend error ("@ + numeral + (rest + "): "@ + body));
}

} // verus!
