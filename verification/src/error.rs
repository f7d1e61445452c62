use vstd::prelude::*;
use vstd::string::StringExecFns;

verus! {

/// The error taxonomy of the backend. A validation failure maps to 400,
/// a missing row to 404, and any store-layer failure to 500; the message is
/// an opaque text for the client, while `error` keeps internal detail that
/// is only ever logged.
#[derive(Debug)]
pub struct ApiError {
    /// The HTTP status code this error maps to.
    pub code: u16,
    /// An opaque message suitable for a client response.
    pub message: String,
    /// Internal detail for logging; never sent to a client.
    pub error: Option<String>,
}

impl ApiError {
    /// A well-formed error carries exactly one of the three taxonomy codes.
    pub open spec fn wf(&self) -> bool {
        self.code == 400 || self.code == 404 || self.code == 500
    }

    /// A malformed or empty request: rejected before any store access.
    pub fn validation() -> (e: ApiError)
        ensures
            e.code == 400,
            e.message@ == "validation error"@,
            e.error is None,
            e.wf(),
    {
        ApiError { code: 400, message: String::from_str("validation error"), error: None }
    }

    /// No row exists for the requested id.
    pub fn not_found() -> (e: ApiError)
        ensures
            e.code == 404,
            e.message@ == "not found"@,
            e.error is None,
            e.wf(),
    {
        ApiError { code: 404, message: String::from_str("not found"), error: None }
    }

    /// A store-layer failure; the client sees an opaque message and the raw
    /// detail is kept only for internal logging.
    pub fn store(detail: Option<String>) -> (e: ApiError)
        ensures
            e.code == 500,
            e.message@ == "store error"@,
            e.error == detail,
            e.wf(),
    {
        ApiError { code: 500, message: String::from_str("store error"), error: detail }
    }
}

} // verus!
