//! The HTTP transport: it turns one serialized batch into the description
//! of a single HTTP POST against the configured Loki push endpoint, with an
//! optional Basic-Auth header and a bounded timeout. The POST itself is
//! network I/O and is executed outside this library by a thin shell that
//! feeds the outcome back into [`UreqBackend::complete_send`].
use crate::AuthenticationMethod;
use crate::FenrirError;
use vstd::prelude::*;
use vstd::string::StringExecFns;

verus! {

/// A backend that sends logging messages to a Loki endpoint through the
/// ureq HTTP client. Configuration is immutable after construction; each
/// send is independent of every other.
#[derive(Debug)]
pub struct UreqBackend {
    /// The base URL of the Loki endpoint, as text.
    pub endpoint: String,
    /// The authentication method used for each request.
    pub authentication: AuthenticationMethod,
    /// The pre-encoded Basic-Auth credential (empty when none was
    /// configured).
    pub credentials: String,
}

/// Everything that determines the outgoing HTTP POST for one batch.
#[derive(Debug)]
pub struct LokiRequest {
    /// The push URL: the endpoint joined with the versioned push path.
    pub url: String,
    /// The value of the Content-Type header.
    pub content_type: String,
    /// The value of the Authorization header, when one is attached.
    pub authorization: Option<String>,
    /// The request body: the serialized batch.
    pub body: String,
    /// The request timeout, in seconds, bounding how long a send may block.
    pub timeout_seconds: u64,
}

/// What became of an issued request: delivered with a success status, or
/// failed with a description of the cause (connection failure, timeout, or
/// non-success status).
#[derive(Debug)]
pub enum TransportOutcome {
    /// The request was answered with a success status.
    Delivered,
    /// The request was not delivered; the text describes the cause.
    Failed(String),
}

/// What `url::Url::parse(base)` followed by `join(path)` serializes to:
/// the WHATWG resolution of `path` against the absolute URL `base`, or
/// nothing where `base` is not an absolute URL or cannot accept `path`.
pub uninterp spec fn url_join_of(base: Seq<char>, path: Seq<char>) -> Option<Seq<char>>;

/// Relies on `url::Url::parse` and `url::Url::join`: resolving a path
/// against an absolute base URL is a pure function of the two strings, and
/// `url::Url::as_str` returns the serialization of the result.
#[verifier::external_body]
fn url_join(base: &str, path: &str) -> (r: Option<String>)
    ensures
        r is Some <==> url_join_of(base@, path@) is Some,
        r matches Some(u) ==> Some(u@) == url_join_of(base@, path@),
{
    match url::Url::parse(base) {
        Ok(b) => match b.join(path) {
            Ok(joined) => Some(joined.as_str().to_owned()),
            Err(_) => None,
        },
        Err(_) => None,
    }
}

/// What a request prepared by [`UreqBackend::prepare_request`] must look
/// like for a backend and a payload.
pub open spec fn prepared_request_ok(b: UreqBackend, payload: Seq<char>, req: LokiRequest) -> bool {
    &&& Some(req.url@) == url_join_of(b.endpoint@, "/loki/api/v1/push"@)
    &&& req.content_type@ == "application/json; charset=utf-8"@
    &&& req.body@ == payload
    &&& req.timeout_seconds == 10
    &&& (req.authorization is Some <==> b.authentication == AuthenticationMethod::Basic)
    &&& (req.authorization matches Some(a) ==> a@ == "Basic "@ + b.credentials@)
}

impl UreqBackend {
    /// Describe the HTTP POST for one serialized batch: the endpoint joined
    /// with the versioned push path, the fixed Content-Type, the body, the
    /// bounded timeout, and an Authorization header exactly when the method
    /// is `Basic`. Fails with a configuration error exactly when the
    /// endpoint cannot accept the push path.
    pub fn prepare_request(&self, payload: String) -> (r: Result<LokiRequest, FenrirError>)
        ensures
            r is Ok <==> url_join_of(self.endpoint@, "/loki/api/v1/push"@) is Some,
            r matches Ok(req) ==> prepared_request_ok(*self, payload@, req),
            r matches Err(e) ==> (e matches FenrirError::Configuration(d) && d@
                == "endpoint cannot accept the push path: "@ + self.endpoint@),
    {
        match url_join(self.endpoint.as_str(), "/loki/api/v1/push") {
            Some(url) => {
                let authorization = match self.authentication {
                    AuthenticationMethod::Anonymous => None,
                    AuthenticationMethod::Basic => Some(
                        String::from_str("Basic ").concat(self.credentials.as_str()),
                    ),
                };
                Ok(
                    LokiRequest {
                        url,
                        content_type: String::from_str("application/json; charset=utf-8"),
                        authorization,
                        body: payload,
                        timeout_seconds: 10,
                    },
                )
            },
            None => Err(
                FenrirError::Configuration(
                    String::from_str("endpoint cannot accept the push path: ").concat(
                        self.endpoint.as_str(),
                    ),
                ),
            ),
        }
    }

    /// Turn the serializer's verdict on a batch into the request to issue:
    /// a serializer failure is surfaced as a serialization error, a payload
    /// is turned into a request by [`UreqBackend::prepare_request`].
    pub fn prepare_send(&self, serialized: Result<String, String>) -> (r: Result<
        LokiRequest,
        FenrirError,
    >)
        ensures
            r is Ok <==> (serialized is Ok && url_join_of(self.endpoint@, "/loki/api/v1/push"@)
                is Some),
            r matches Ok(req) ==> prepared_request_ok(*self, serialized->Ok_0@, req),
            serialized matches Err(d) ==> (r matches Err(e) && e
                matches FenrirError::Serialization(t) && t@ == d@),
            (serialized is Ok && r is Err) ==> (r->Err_0 matches FenrirError::Configuration(d)
                && d@ == "endpoint cannot accept the push path: "@ + self.endpoint@),
    {
        match serialized {
            Ok(payload) => self.prepare_request(payload),
            Err(detail) => Err(FenrirError::Serialization(detail)),
        }
    }

    /// Turn the outcome of the issued request into the result of the send:
    /// success exactly when the request was delivered, a transport error
    /// carrying the cause otherwise.
    pub fn complete_send(&self, outcome: TransportOutcome) -> (r: Result<(), FenrirError>)
        ensures
            r is Ok <==> outcome is Delivered,
            outcome matches TransportOutcome::Failed(d) ==> (r matches Err(e) && e
                matches FenrirError::Transport(t) && t@ == d@),
    {
        match outcome {
            TransportOutcome::Delivered => Ok(()),
            TransportOutcome::Failed(detail) => Err(FenrirError::Transport(detail)),
        }
    }

    /// Report the configured authentication method. Pure query.
    pub fn authentication_method(&self) -> (r: AuthenticationMethod)
        ensures
            r == self.authentication,
    {
        self.authentication
    }

    /// Report the stored credential: present exactly when the method is not
    /// `Anonymous` and a non-empty credential was configured. Pure query.
    pub fn credentials(&self) -> (r: Option<String>)
        ensures
            r is Some <==> (self.authentication != AuthenticationMethod::Anonymous
                && self.credentials@.len() > 0),
            r matches Some(c) ==> c@ == self.credentials@,
    {
        match self.authentication {
            AuthenticationMethod::Anonymous => None,
            AuthenticationMethod::Basic => {
                if !self.credentials.as_str().is_empty() {
                    Some(self.credentials.clone())
                } else {
                    None
                }
            },
        }
    }
}

} // verus!
