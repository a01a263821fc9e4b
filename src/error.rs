use vstd::prelude::*;

verus! {

/// sqlx's error type, carried through opaquely as the cause of a storage failure.
#[verifier::external_type_specification]
#[verifier::external_body]
pub struct ExSqlxError(sqlx::Error);

/// std's I/O error, carried through opaquely as the cause of a failed script read.
#[verifier::external_type_specification]
#[verifier::external_body]
pub struct ExIoError(std::io::Error);

/// A storage failure, wrapped so that it can travel as a rejection.
#[derive(Debug)]
pub struct SqlxError {
    pub error: sqlx::Error,
}

/// Failures raised by the storage layer.
#[derive(Debug)]
pub enum ServiceError {
    /// A runtime statement failed.
    DBQueryError(sqlx::Error),
    /// The schema script could not be executed.
    DBInitError(sqlx::Error),
    /// The schema script could not be read.
    ReadFileError(std::io::Error),
}

/// The kind of failure that a storage error is.
pub open spec fn kind_of(e: &ServiceError) -> FailureKind {
    match e {
        ServiceError::DBQueryError(_) => FailureKind::Query,
        ServiceError::DBInitError(_) => FailureKind::Initialization,
        ServiceError::ReadFileError(_) => FailureKind::Initialization,
    }
}

impl ServiceError {
    /// Classifies this error for the client response.
    pub fn kind(&self) -> (r: FailureKind)
        ensures
            r == kind_of(self),
    {
        match self {
            ServiceError::DBQueryError(_) => FailureKind::Query,
            ServiceError::DBInitError(_) => FailureKind::Initialization,
            ServiceError::ReadFileError(_) => FailureKind::Initialization,
        }
    }
}

/// Which failure a framework rejection stands for. The checks are made in a
/// fixed order: a missing route first, then an undecodable body, then an
/// error of the storage layer, then a method mismatch; anything else is
/// unhandled.
pub open spec fn classify_spec(
    not_found: bool,
    bad_body: bool,
    storage: Option<FailureKind>,
    wrong_method: bool,
) -> FailureKind {
    if not_found {
        FailureKind::RouteNotFound
    } else if bad_body {
        FailureKind::BodyDecode
    } else if storage is Some {
        match storage->0 {
            FailureKind::Query => FailureKind::Query,
            _ => FailureKind::Unhandled,
        }
    } else if wrong_method {
        FailureKind::MethodNotAllowed
    } else {
        FailureKind::Unhandled
    }
}

/// Classifies a rejection from what it was found to hold: whether it is a
/// missing route, whether it holds a body decoding error, the kind of the
/// storage error it holds if any, and whether it is a method mismatch.
pub fn classify_rejection(
    not_found: bool,
    bad_body: bool,
    storage: Option<FailureKind>,
    wrong_method: bool,
) -> (r: FailureKind)
    ensures
        r == classify_spec(not_found, bad_body, storage, wrong_method),
{
    if not_found {
        FailureKind::RouteNotFound
    } else if bad_body {
        FailureKind::BodyDecode
    } else {
        match storage {
            Some(FailureKind::Query) => FailureKind::Query,
            Some(_) => FailureKind::Unhandled,
            None => if wrong_method {
                FailureKind::MethodNotAllowed
            } else {
                FailureKind::Unhandled
            },
        }
    }
}

/// The closed set of failures that can reach the boundary of a request.
#[derive(Clone, Copy, Debug, PartialEq, Eq, Structural)]
pub enum FailureKind {
    /// No route matches the request path.
    RouteNotFound,
    /// The request body did not decode into the expected shape.
    BodyDecode,
    /// A runtime statement failed (a missing row on a row-returning statement included).
    Query,
    /// The path matches a route, the method does not.
    MethodNotAllowed,
    /// Schema setup failed; fatal at startup.
    Initialization,
    /// Anything not recognised above.
    Unhandled,
}

/// HTTP status for each failure kind.
pub open spec fn status_of(kind: FailureKind) -> u16 {
    match kind {
        FailureKind::RouteNotFound => 404,
        FailureKind::BodyDecode => 400,
        FailureKind::Query => 400,
        FailureKind::MethodNotAllowed => 405,
        _ => 500,
    }
}

/// Client-visible message for each failure kind.
pub open spec fn message_of(kind: FailureKind) -> Seq<char> {
    match kind {
        FailureKind::RouteNotFound => "Not Found"@,
        FailureKind::BodyDecode => "Invalid Body"@,
        FailureKind::Query => "Could not Execute request"@,
        FailureKind::MethodNotAllowed => "Method Not Allowed"@,
        _ => "Internal Server Error"@,
    }
}

/// Failures answered with a 500 are logged in full on the server side.
pub open spec fn is_logged(kind: FailureKind) -> bool {
    status_of(kind) == 500
}

/// The uniform error reply: a status code and the JSON body `{ "message": ... }`.
pub struct ErrorResponse {
    pub status: u16,
    pub message: String,
    /// Whether the server logs the failure's detail before replying.
    pub log: bool,
}

/// Translates a failure into its status code and generic message.
pub fn error_response(kind: FailureKind) -> (r: ErrorResponse)
    ensures
        r.status == status_of(kind),
        r.message@ == message_of(kind),
        r.log == is_logged(kind),
{
    match kind {
        FailureKind::RouteNotFound => ErrorResponse {
            status: 404,
            message: "Not Found".to_owned(),
            log: false,
        },
        FailureKind::BodyDecode => ErrorResponse {
            status: 400,
            message: "Invalid Body".to_owned(),
            log: false,
        },
        FailureKind::Query => ErrorResponse {
            status: 400,
            message: "Could not Execute request".to_owned(),
            log: false,
        },
        FailureKind::MethodNotAllowed => ErrorResponse {
            status: 405,
            message: "Method Not Allowed".to_owned(),
            log: false,
        },
        _ => ErrorResponse {
            status: 500,
            message: "Internal Server Error".to_owned(),
            log: true,
        },
    }
}

} // verus!
