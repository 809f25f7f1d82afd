//! A small client library that forwards batches of log streams to a
//! Loki-style push endpoint over HTTP, with pluggable transport backends
//! and optional Basic-Auth credentials encoded at configuration time.
//!
//! A [`Fenrir`] client is built once, holds an immutable [`Backend`], and is
//! then used for any number of independent sends. The [`NopBackend`]
//! discards everything; the [`UreqBackend`] turns a serialized batch into a
//! single HTTP POST description, which a thin transport shell executes.
use vstd::prelude::*;

pub mod base64;
pub mod noop;
pub mod ureq;

use crate::base64::base64_encode;
use crate::noop::NopBackend;
use crate::ureq::LokiRequest;
use crate::ureq::TransportOutcome;
use crate::ureq::UreqBackend;
use crate::ureq::prepared_request_ok;
use crate::ureq::url_join_of;
use vstd::string::StrSliceExecFns;
use vstd::utf8::encode_utf8;

verus! {

/// How a backend authenticates against the remote endpoint.
#[derive(Clone, Copy, PartialEq, Eq, Structural, Debug)]
pub enum AuthenticationMethod {
    /// No authentication: requests carry no Authorization header.
    Anonymous,
    /// HTTP Basic-Auth: requests carry `Authorization: Basic <credential>`.
    Basic,
}

/// Why a send failed. Every failure is returned to the caller; nothing is
/// swallowed at this layer.
#[derive(Debug)]
pub enum FenrirError {
    /// The configured endpoint cannot accept the push path.
    Configuration(String),
    /// The injected serializer rejected the batch.
    Serialization(String),
    /// The request could not be delivered: connection failure, timeout, or
    /// a non-success HTTP status.
    Transport(String),
}

impl FenrirError {
    /// The descriptive text carried by this error.
    pub open spec fn spec_message(&self) -> Seq<char> {
        match self {
            FenrirError::Configuration(d) => d@,
            FenrirError::Serialization(d) => d@,
            FenrirError::Transport(d) => d@,
        }
    }

    /// The descriptive text carried by this error.
    pub fn message(&self) -> (r: &str)
        ensures
            r@ == self.spec_message(),
    {
        match self {
            FenrirError::Configuration(d) => d.as_str(),
            FenrirError::Serialization(d) => d.as_str(),
            FenrirError::Transport(d) => d.as_str(),
        }
    }
}

/// One stream of log entries: a label set and the entries recorded under it.
/// The transport layer never looks inside.
#[derive(Debug)]
pub struct LogStream {
    /// Label names and values identifying the stream.
    pub labels: Vec<(String, String)>,
    /// Entries as (timestamp, line) pairs.
    pub values: Vec<(String, String)>,
}

/// A batch of log streams, opaque to the transport layer: it is handed to
/// the injected serializer and never interpreted here.
#[derive(Debug)]
pub struct Streams {
    /// The streams of the batch.
    pub streams: Vec<LogStream>,
}

/// The Basic-Auth credential stored for a username and password: the
/// standard base64 encoding of the UTF-8 bytes of `username:password`.
pub open spec fn basic_credential(username: Seq<char>, password: Seq<char>) -> Seq<char> {
    base64_encode(encode_utf8(username) + seq![58u8] + encode_utf8(password))
}

/// Encode a username and password as a stored Basic-Auth credential.
/// Encoding happens once, at configuration time; sends reuse the result.
pub fn encode_basic_credentials(username: &str, password: &str) -> (r: String)
    ensures
        r@ == basic_credential(username@, password@),
        r@.len() >= 4,
{
    let mut bytes = username.as_bytes_vec();
    bytes.push(58);
    let mut password_bytes = password.as_bytes_vec();
    bytes.append(&mut password_bytes);
    proof {
        assert(bytes@ =~= encode_utf8(username@) + seq![58u8] + encode_utf8(password@));
        base64::lemma_base64_encode_nonempty(bytes@);
    }
    base64::base64_encode_bytes(bytes.as_slice())
}

/// Which transport a built client uses.
#[derive(Clone, Copy, PartialEq, Eq, Structural, Debug)]
pub enum NetworkingBackend {
    /// Discard all batches; never touch the network.
    Nop,
    /// POST batches to the configured endpoint through the ureq HTTP client.
    Ureq,
}

/// How a batch is serialized before it is sent. The serializer itself is
/// injected by the caller; this tag only records the chosen format.
#[derive(Clone, Copy, PartialEq, Eq, Structural, Debug)]
pub enum SerializationFormat {
    /// The Loki JSON push format.
    Json,
}

/// The active transport of a built client: a tagged variant over the
/// supported backends, each exposing the same three capabilities (plan a
/// send, report the authentication method, report the credentials).
#[derive(Debug)]
pub enum Backend {
    /// Transport that discards everything.
    Nop(NopBackend),
    /// Transport that describes an HTTP POST for each batch.
    Ureq(UreqBackend),
}

impl Backend {
    /// The authentication method a backend reports: the no-op backend
    /// always reports `Anonymous`, whatever was configured.
    pub open spec fn spec_authentication_method(&self) -> AuthenticationMethod {
        match self {
            Backend::Nop(_) => AuthenticationMethod::Anonymous,
            Backend::Ureq(b) => b.authentication,
        }
    }

    /// Report the authentication method in force. Pure query.
    pub fn authentication_method(&self) -> (r: AuthenticationMethod)
        ensures
            r == self.spec_authentication_method(),
    {
        match self {
            Backend::Nop(b) => b.authentication_method(),
            Backend::Ureq(b) => b.authentication_method(),
        }
    }

    /// Report the stored credential. Pure query: present exactly when the
    /// method is not `Anonymous` and a non-empty credential is stored; the
    /// no-op backend always reports absent.
    pub fn credentials(&self) -> (r: Option<String>)
        ensures
            match self {
                Backend::Nop(_) => r is None,
                Backend::Ureq(b) => {
                    &&& r is Some <==> (b.authentication != AuthenticationMethod::Anonymous
                        && b.credentials@.len() > 0)
                    &&& (r matches Some(c) ==> c@ == b.credentials@)
                },
            },
    {
        match self {
            Backend::Nop(b) => b.credentials(),
            Backend::Ureq(b) => b.credentials(),
        }
    }

    /// Plan the send of one batch, given the serializer's verdict on it.
    /// The no-op backend discards the batch and succeeds whatever the
    /// verdict was; the ureq backend surfaces a serializer failure as a
    /// serialization error and otherwise describes the HTTP POST to issue.
    pub fn prepare_send(&self, serialized: Result<String, String>) -> (r: Result<
        SendAction,
        FenrirError,
    >)
        ensures
            self is Nop ==> (r matches Ok(a) && a is Done),
            self matches Backend::Ureq(b) ==> {
                &&& (r is Ok <==> (serialized is Ok && url_join_of(
                    b.endpoint@,
                    "/loki/api/v1/push"@,
                ) is Some))
                &&& (r matches Ok(a) ==> (a matches SendAction::Post(req) && prepared_request_ok(
                    *b,
                    serialized->Ok_0@,
                    req,
                )))
                &&& (serialized matches Err(d) ==> (r->Err_0 matches FenrirError::Serialization(t)
                    && t@ == d@))
                &&& ((serialized is Ok && r is Err) ==> (r->Err_0
                    matches FenrirError::Configuration(d) && d@
                    == "endpoint cannot accept the push path: "@ + b.endpoint@))
            },
    {
        match self {
            Backend::Nop(_) => Ok(SendAction::Done),
            Backend::Ureq(b) => match b.prepare_send(serialized) {
                Ok(req) => Ok(SendAction::Post(req)),
                Err(e) => Err(e),
            },
        }
    }

    /// Turn the outcome of an issued request into the result of the send.
    /// The no-op backend never issues a request, so it reports success
    /// whatever is handed back; the ureq backend succeeds exactly when the
    /// request was delivered.
    pub fn complete_send(&self, outcome: TransportOutcome) -> (r: Result<(), FenrirError>)
        ensures
            self is Nop ==> r is Ok,
            self is Ureq ==> (r is Ok <==> outcome is Delivered),
            (self is Ureq && outcome is Failed) ==> (r->Err_0 matches FenrirError::Transport(t)
                && t@ == outcome->Failed_0@),
    {
        match self {
            Backend::Nop(_) => Ok(()),
            Backend::Ureq(b) => b.complete_send(outcome),
        }
    }
}

/// What a planned send asks the transport shell to do with one batch.
#[derive(Debug)]
pub enum SendAction {
    /// Nothing: the batch was discarded.
    Done,
    /// Issue this HTTP POST and report its outcome.
    Post(LokiRequest),
}

/// A configured Basic-Auth credential is never empty: the encoded text
/// always covers at least the `:` between username and password, so a
/// backend whose method is `Basic` and whose credential was encoded by
/// [`encode_basic_credentials`] always reports a present credential.
pub proof fn lemma_basic_credential_nonempty(username: Seq<char>, password: Seq<char>)
    ensures
        basic_credential(username, password).len() >= 4,
{
    base64::lemma_base64_encode_nonempty(
        encode_utf8(username) + seq![58u8] + encode_utf8(password),
    );
}

/// A logging client with its configured transport backend.
#[derive(Debug)]
pub struct Fenrir {
    /// The transport selected at configuration time; immutable afterwards.
    pub backend: Backend,
}

impl Fenrir {
    /// Start configuring a client. The defaults select the no-op transport,
    /// the JSON format, and no authentication.
    pub fn builder() -> (r: FenrirBuilder)
        ensures
            r.endpoint@ == Seq::<char>::empty(),
            r.network == NetworkingBackend::Nop,
            r.format == SerializationFormat::Json,
            r.authentication == AuthenticationMethod::Anonymous,
            r.credentials@ == Seq::<char>::empty(),
    {
        FenrirBuilder {
            endpoint: String::new(),
            network: NetworkingBackend::Nop,
            format: SerializationFormat::Json,
            authentication: AuthenticationMethod::Anonymous,
            credentials: String::new(),
        }
    }
}

/// Step-by-step configuration of a [`Fenrir`] client. Each method replaces
/// one setting and leaves the others as they were.
#[derive(Debug)]
pub struct FenrirBuilder {
    /// The base URL of the log-aggregation endpoint, as text.
    pub endpoint: String,
    /// The transport to build.
    pub network: NetworkingBackend,
    /// The serialization format tag.
    pub format: SerializationFormat,
    /// The authentication method to use.
    pub authentication: AuthenticationMethod,
    /// The stored, pre-encoded Basic-Auth credential (empty when none was
    /// configured).
    pub credentials: String,
}

impl FenrirBuilder {
    /// Set the base endpoint URL.
    pub fn endpoint(self, endpoint: String) -> (r: Self)
        ensures
            r.endpoint@ == endpoint@,
            r.network == self.network,
            r.format == self.format,
            r.authentication == self.authentication,
            r.credentials@ == self.credentials@,
    {
        FenrirBuilder { endpoint, ..self }
    }

    /// Select the transport.
    pub fn network(self, network: NetworkingBackend) -> (r: Self)
        ensures
            r.endpoint@ == self.endpoint@,
            r.network == network,
            r.format == self.format,
            r.authentication == self.authentication,
            r.credentials@ == self.credentials@,
    {
        FenrirBuilder { network, ..self }
    }

    /// Select the serialization format tag.
    pub fn format(self, format: SerializationFormat) -> (r: Self)
        ensures
            r.endpoint@ == self.endpoint@,
            r.network == self.network,
            r.format == format,
            r.authentication == self.authentication,
            r.credentials@ == self.credentials@,
    {
        FenrirBuilder { format, ..self }
    }

    /// Set the authentication method and encode the credential for the
    /// given username and password. The credential is stored pre-encoded;
    /// sends never re-encode.
    pub fn with_authentication(
        self,
        method: AuthenticationMethod,
        username: String,
        password: String,
    ) -> (r: Self)
        ensures
            r.endpoint@ == self.endpoint@,
            r.network == self.network,
            r.format == self.format,
            r.authentication == method,
            r.credentials@ == basic_credential(username@, password@),
            r.credentials@.len() > 0,
    {
        let credentials = encode_basic_credentials(username.as_str(), password.as_str());
        FenrirBuilder { authentication: method, credentials, ..self }
    }

    /// Build the client. Selecting the no-op transport discards every other
    /// setting, authentication included; selecting the ureq transport
    /// carries the endpoint, method and credential over unchanged.
    pub fn build(self) -> (r: Fenrir)
        ensures
            self.network == NetworkingBackend::Nop ==> r.backend is Nop,
            self.network == NetworkingBackend::Ureq ==> (r.backend matches Backend::Ureq(b) && {
                &&& b.endpoint@ == self.endpoint@
                &&& b.authentication == self.authentication
                &&& b.credentials@ == self.credentials@
            }),
    {
        match self.network {
            NetworkingBackend::Nop => Fenrir { backend: Backend::Nop(NopBackend) },
            NetworkingBackend::Ureq => Fenrir {
                backend: Backend::Ureq(
                    UreqBackend {
                        endpoint: self.endpoint,
                        authentication: self.authentication,
                        credentials: self.credentials,
                    },
                ),
            },
        }
    }
}

} // verus!
