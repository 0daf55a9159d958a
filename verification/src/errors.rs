//! The gateway's error taxonomy: client faults, missing server-side
//! configuration, and upstream transport failures.
use vstd::prelude::*;
use vstd::string::StringExecFns;

verus! {

/// Abstract value of an [`ApiError`]: the same variants over character
/// sequences.
pub ghost enum ErrorView {
    BadRequest(Seq<char>),
    InternalError(Seq<char>),
    BadGateway(Seq<char>),
}

/// An error the gateway reports to its caller, carrying the response text.
pub enum ApiError {
    /// The request itself is at fault: malformed body, unknown command,
    /// missing or invalid language code, or an unsupported model.
    BadRequest(String),
    /// Required server-side configuration is missing.
    InternalError(String),
    /// The upstream service failed or answered in a form that could not be
    /// decoded.
    BadGateway(String),
}

impl View for ApiError {
    type V = ErrorView;

    open spec fn view(&self) -> ErrorView {
        match self {
            ApiError::BadRequest(m) => ErrorView::BadRequest(m@),
            ApiError::InternalError(m) => ErrorView::InternalError(m@),
            ApiError::BadGateway(m) => ErrorView::BadGateway(m@),
        }
    }
}

/// The HTTP status code that belongs to each error view.
pub open spec fn spec_status_code(e: ErrorView) -> u16 {
    match e {
        ErrorView::BadRequest(_) => 400,
        ErrorView::InternalError(_) => 500,
        ErrorView::BadGateway(_) => 502,
    }
}

/// The response text carried by an error view.
pub open spec fn spec_error_message(e: ErrorView) -> Seq<char> {
    match e {
        ErrorView::BadRequest(m) => m,
        ErrorView::InternalError(m) => m,
        ErrorView::BadGateway(m) => m,
    }
}

impl ApiError {
    /// The HTTP status code this error is reported with.
    pub fn status_code(&self) -> (r: u16)
        ensures
            r == spec_status_code(self@),
    {
        match self {
            ApiError::BadRequest(_) => 400,
            ApiError::InternalError(_) => 500,
            ApiError::BadGateway(_) => 502,
        }
    }

    /// The response text sent to the caller.
    pub fn message(self) -> (r: String)
        ensures
            r@ == spec_error_message(self@),
    {
        match self {
            ApiError::BadRequest(m) => m,
            ApiError::InternalError(m) => m,
            ApiError::BadGateway(m) => m,
        }
    }
}

/// The fixed text reported when the upstream credential is not configured.
pub open spec fn spec_credential_missing_message() -> Seq<char> {
    "OPENAI_API_KEY not set"@
}

/// The error for a request that arrives while the upstream credential is not
/// configured; the text is fixed so that no configuration detail leaks.
pub fn credential_missing_error() -> (e: ApiError)
    ensures
        e@ == ErrorView::InternalError(spec_credential_missing_message()),
{
    ApiError::InternalError(String::from_str("OPENAI_API_KEY not set"))
}

/// The error for an upstream transport failure or an undecodable upstream
/// response; the text is the transport's own diagnostic.
pub fn upstream_failure_error(diagnostic: String) -> (e: ApiError)
    ensures
        e@ == ErrorView::BadGateway(diagnostic@),
{
    ApiError::BadGateway(diagnostic)
}

/// The error for a request body that could not be decoded; the text is the
/// decoder's own diagnostic.
pub fn malformed_body_error(diagnostic: String) -> (e: ApiError)
    ensures
        e@ == ErrorView::BadRequest(diagnostic@),
{
    ApiError::BadRequest(diagnostic)
}

} // verus!
