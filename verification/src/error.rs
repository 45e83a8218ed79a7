//! The gateway's error taxonomy and its stable external representation.
//!
//! Every externally reachable failure reduces to one [`ErrorKind`], one
//! status code and one message. An [`Error`] may carry an opaque cause for
//! internal diagnostics, but the cause never reaches the external
//! representation: the mapping to a status/message pair depends on the kind
//! alone.

use vstd::prelude::*;

verus! {

/// The closed set of failure kinds the gateway can surface.
#[derive(Debug, Clone, Copy, PartialEq, Eq, Structural)]
pub enum ErrorKind {
    KeyMissing,
    BadHost,
    KeyMalformed,
    Unauthorized,
    Forbidden,
    UserNotFound,
    UserAlreadyExists,
    ProjectNotFound,
    InvalidProjectName,
    ProjectAlreadyExists,
    ProjectNotReady,
    ProjectUnavailable,
    InvalidOperation,
    Internal,
    NotReady,
}

impl ErrorKind {
    /// The stable snake_case identifier of this kind.
    pub open spec fn name_spec(self) -> Seq<char> {
        match self {
            ErrorKind::KeyMissing => "key_missing"@,
            ErrorKind::BadHost => "bad_host"@,
            ErrorKind::KeyMalformed => "key_malformed"@,
            ErrorKind::Unauthorized => "unauthorized"@,
            ErrorKind::Forbidden => "forbidden"@,
            ErrorKind::UserNotFound => "user_not_found"@,
            ErrorKind::UserAlreadyExists => "user_already_exists"@,
            ErrorKind::ProjectNotFound => "project_not_found"@,
            ErrorKind::InvalidProjectName => "invalid_project_name"@,
            ErrorKind::ProjectAlreadyExists => "project_already_exists"@,
            ErrorKind::ProjectNotReady => "project_not_ready"@,
            ErrorKind::ProjectUnavailable => "project_unavailable"@,
            ErrorKind::InvalidOperation => "invalid_operation"@,
            ErrorKind::Internal => "internal"@,
            ErrorKind::NotReady => "not_ready"@,
        }
    }

    pub fn name(&self) -> (r: &'static str)
        ensures
            r@ == self.name_spec(),
    {
        match self {
            ErrorKind::KeyMissing => "key_missing",
            ErrorKind::BadHost => "bad_host",
            ErrorKind::KeyMalformed => "key_malformed",
            ErrorKind::Unauthorized => "unauthorized",
            ErrorKind::Forbidden => "forbidden",
            ErrorKind::UserNotFound => "user_not_found",
            ErrorKind::UserAlreadyExists => "user_already_exists",
            ErrorKind::ProjectNotFound => "project_not_found",
            ErrorKind::InvalidProjectName => "invalid_project_name",
            ErrorKind::ProjectAlreadyExists => "project_already_exists",
            ErrorKind::ProjectNotReady => "project_not_ready",
            ErrorKind::ProjectUnavailable => "project_unavailable",
            ErrorKind::InvalidOperation => "invalid_operation",
            ErrorKind::Internal => "internal",
            ErrorKind::NotReady => "not_ready",
        }
    }

    /// The externally visible status code of this kind. Total: every kind
    /// maps, with no fallback branch.
    pub open spec fn status_spec(self) -> u16 {
        match self {
            ErrorKind::KeyMissing => 401,
            ErrorKind::BadHost => 400,
            ErrorKind::KeyMalformed => 400,
            ErrorKind::Unauthorized => 401,
            ErrorKind::Forbidden => 403,
            ErrorKind::UserNotFound => 404,
            ErrorKind::UserAlreadyExists => 400,
            ErrorKind::ProjectNotFound => 404,
            ErrorKind::InvalidProjectName => 400,
            ErrorKind::ProjectAlreadyExists => 400,
            ErrorKind::ProjectNotReady => 503,
            ErrorKind::ProjectUnavailable => 502,
            ErrorKind::InvalidOperation => 400,
            ErrorKind::Internal => 500,
            ErrorKind::NotReady => 500,
        }
    }

    pub fn status(&self) -> (r: u16)
        ensures
            r == self.status_spec(),
    {
        match self {
            ErrorKind::KeyMissing => 401,
            ErrorKind::BadHost => 400,
            ErrorKind::KeyMalformed => 400,
            ErrorKind::Unauthorized => 401,
            ErrorKind::Forbidden => 403,
            ErrorKind::UserNotFound => 404,
            ErrorKind::UserAlreadyExists => 400,
            ErrorKind::ProjectNotFound => 404,
            ErrorKind::InvalidProjectName => 400,
            ErrorKind::ProjectAlreadyExists => 400,
            ErrorKind::ProjectNotReady => 503,
            ErrorKind::ProjectUnavailable => 502,
            ErrorKind::InvalidOperation => 400,
            ErrorKind::Internal => 500,
            ErrorKind::NotReady => 500,
        }
    }

    /// The externally visible message of this kind. Total: every kind maps,
    /// with no fallback branch.
    pub open spec fn message_spec(self) -> Seq<char> {
        match self {
            ErrorKind::KeyMissing => "request is missing a key"@,
            ErrorKind::BadHost => "the 'Host' header is invalid"@,
            ErrorKind::KeyMalformed => "request has an invalid key"@,
            ErrorKind::Unauthorized => "unauthorized"@,
            ErrorKind::Forbidden => "forbidden"@,
            ErrorKind::UserNotFound => "user not found"@,
            ErrorKind::UserAlreadyExists => "user already exists"@,
            ErrorKind::ProjectNotFound => "project not found"@,
            ErrorKind::InvalidProjectName => "invalid project name"@,
            ErrorKind::ProjectAlreadyExists => "a project with the same name already exists"@,
            ErrorKind::ProjectNotReady => "project not ready"@,
            ErrorKind::ProjectUnavailable => "project returned invalid response"@,
            ErrorKind::InvalidOperation => "the requested operation is invalid"@,
            ErrorKind::Internal => "internal server error"@,
            ErrorKind::NotReady => "not ready yet"@,
        }
    }

    pub fn message(&self) -> (r: &'static str)
        ensures
            r@ == self.message_spec(),
    {
        match self {
            ErrorKind::KeyMissing => "request is missing a key",
            ErrorKind::BadHost => "the 'Host' header is invalid",
            ErrorKind::KeyMalformed => "request has an invalid key",
            ErrorKind::Unauthorized => "unauthorized",
            ErrorKind::Forbidden => "forbidden",
            ErrorKind::UserNotFound => "user not found",
            ErrorKind::UserAlreadyExists => "user already exists",
            ErrorKind::ProjectNotFound => "project not found",
            ErrorKind::InvalidProjectName => "invalid project name",
            ErrorKind::ProjectAlreadyExists => "a project with the same name already exists",
            ErrorKind::ProjectNotReady => "project not ready",
            ErrorKind::ProjectUnavailable => "project returned invalid response",
            ErrorKind::InvalidOperation => "the requested operation is invalid",
            ErrorKind::Internal => "internal server error",
            ErrorKind::NotReady => "not ready yet",
        }
    }
}

/// A gateway error: a kind plus an optional opaque cause.
///
/// The cause is display-only and internal; it never takes part in the
/// external representation, which depends on the kind alone.
#[derive(Debug)]
pub struct Error {
    kind: ErrorKind,
    source: Option<String>,
}

impl Error {
    pub closed spec fn kind_spec(self) -> ErrorKind {
        self.kind
    }

    pub closed spec fn cause_spec(self) -> Option<Seq<char>> {
        match self.source {
            Some(s) => Some(s@),
            None => None,
        }
    }

    /// Wraps a lower-level cause, already rendered to text, under a kind.
    pub fn source(kind: ErrorKind, cause: String) -> (e: Error)
        ensures
            e.kind_spec() == kind,
            e.cause_spec() == Some(cause@),
    {
        Error { kind, source: Some(cause) }
    }

    /// Attaches a custom internal message to a kind.
    pub fn custom(kind: ErrorKind, message: &str) -> (e: Error)
        ensures
            e.kind_spec() == kind,
            e.cause_spec() == Some(message@),
    {
        Error { kind, source: Some(message.to_owned()) }
    }

    /// An error that is nothing but its kind.
    pub fn from_kind(kind: ErrorKind) -> (e: Error)
        ensures
            e.kind_spec() == kind,
            e.cause_spec() is None,
    {
        Error { kind, source: None }
    }

    pub fn kind(&self) -> (k: ErrorKind)
        ensures
            k == self.kind_spec(),
    {
        self.kind
    }

    /// The internal rendering of this error: the kind's stable name,
    /// followed by the cause when one is attached.
    pub open spec fn describe_spec(self) -> Seq<char> {
        match self.cause_spec() {
            Some(c) => self.kind_spec().name_spec() + ": "@ + c,
            None => self.kind_spec().name_spec(),
        }
    }

    pub fn describe(&self) -> (r: String)
        ensures
            r@ == self.describe_spec(),
    {
        let mut out = String::from_str(self.kind.name());
        match &self.source {
            Some(cause) => {
                out.append(": ");
                out.append(cause.as_str());
            },
            None => {},
        }
        out
    }

    /// The external JSON body for `kind`: an object with a single `error`
    /// string field, holding the kind's stable message and nothing else.
    pub open spec fn body_spec(kind: ErrorKind) -> Seq<char> {
        "{\"error\":\""@ + kind.message_spec() + "\"}"@
    }

    /// Reduces this error to its external representation. The result is a
    /// function of the kind alone: the wrapped cause is never emitted.
    pub fn into_response(self) -> (r: HttpResponse)
        ensures
            r.status == self.kind_spec().status_spec(),
            r.body@ == Self::body_spec(self.kind_spec()),
    {
        let status = self.kind.status();
        let mut body = String::from_str("{\"error\":\"");
        body.append(self.kind.message());
        body.append("\"}");
        HttpResponse { status, body }
    }
}

impl From<ErrorKind> for Error {
    fn from(kind: ErrorKind) -> Error {
        Error::from_kind(kind)
    }
}

impl vstd::std_specs::convert::FromSpecImpl<ErrorKind> for Error {
    open spec fn obeys_from_spec() -> bool {
        true
    }

    closed spec fn from_spec(kind: ErrorKind) -> Error {
        Error { kind, source: None }
    }
}

/// What converting a bare kind yields: an error of that kind with no cause.
pub proof fn lemma_from_kind(kind: ErrorKind)
    ensures
        <Error as vstd::std_specs::convert::FromSpec<ErrorKind>>::from_spec(kind).kind_spec()
            == kind,
        <Error as vstd::std_specs::convert::FromSpec<ErrorKind>>::from_spec(kind).cause_spec()
            is None,
{
}

/// A status code paired with the JSON body that external callers see.
pub struct HttpResponse {
    pub status: u16,
    pub body: String,
}

/// The external representation is stable: two errors of the same kind map to
/// the same status code and the same body, whatever causes they wrap.
pub proof fn lemma_response_ignores_cause(e1: Error, e2: Error)
    requires
        e1.kind_spec() == e2.kind_spec(),
    ensures
        e1.kind_spec().status_spec() == e2.kind_spec().status_spec(),
        Error::body_spec(e1.kind_spec()) == Error::body_spec(e2.kind_spec()),
{
}

} // verus!
