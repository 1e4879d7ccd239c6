//! What one health request tells about the backend.

use vstd::prelude::*;
use crate::endpoint::{health_url, health_url_of, BACKEND_HOST, BACKEND_PORT};

verus! {

/// One GET on the backend's health endpoint, to be sent by the caller. The
/// body of the answer does not matter, only its status.
#[derive(Debug, PartialEq, Eq)]
pub struct HealthRequest {
    /// Where the request goes.
    pub url: String,
    /// After how many seconds without an answer the request is given up.
    pub timeout_secs: u64,
}

/// [`HealthRequest`] over mathematical strings.
pub struct HealthRequestView {
    pub url: Seq<char>,
    pub timeout_secs: u64,
}

impl View for HealthRequest {
    type V = HealthRequestView;

    open spec fn view(&self) -> HealthRequestView {
        HealthRequestView { url: self.url@, timeout_secs: self.timeout_secs }
    }
}

impl Clone for HealthRequest {
    fn clone(&self) -> (copy: HealthRequest)
        ensures
            copy@ == self@,
    {
        HealthRequest { url: self.url.clone(), timeout_secs: self.timeout_secs }
    }
}

/// The request on the backend's health URL with the given timeout.
pub open spec fn health_request_of(timeout_secs: u64) -> HealthRequestView {
    HealthRequestView {
        url: health_url_of(BACKEND_HOST@, BACKEND_PORT as nat),
        timeout_secs,
    }
}

impl HealthRequest {
    /// The request on the backend's health URL with the given timeout.
    pub fn with_timeout(timeout_secs: u64) -> (request: HealthRequest)
        ensures
            request@ == health_request_of(timeout_secs),
            request.url@ == "http://127.0.0.1:8000/health"@,
    {
        HealthRequest { url: health_url(), timeout_secs }
    }
}

/// The result of a single GET on the health endpoint.
#[derive(Clone, Copy, Debug, PartialEq, Eq, Structural)]
pub enum ProbeOutcome {
    /// The backend answered with this HTTP status code.
    Status(u16),
    /// No answer: the connection failed or the request timed out.
    Unreachable,
}

/// A number that can be an HTTP status code: three digits, the first not 0.
pub open spec fn is_status_code(code: u16) -> bool {
    100 <= code <= 999
}

/// A status code in the success class, 200 to 299.
pub open spec fn is_success_code(code: u16) -> bool {
    200 <= code < 300
}

impl ProbeOutcome {
    /// The backend is ready exactly when it answered with a success status.
    pub open spec fn ready(self) -> bool {
        match self {
            ProbeOutcome::Status(code) => is_success_code(code),
            ProbeOutcome::Unreachable => false,
        }
    }

    /// Whether this outcome shows a backend that is ready to serve. A number
    /// that is no status code at all shows none.
    pub fn is_ready(&self) -> (r: bool)
        ensures
            r == self.ready(),
    {
        match self {
            ProbeOutcome::Status(code) => match success_class(*code) {
                Some(success) => success,
                None => false,
            },
            ProbeOutcome::Unreachable => false,
        }
    }
}

/// `reqwest::StatusCode::is_success`, on the status code that
/// `reqwest::StatusCode::from_u16` makes of `code`. The type is the one of the
/// `http` crate, which `reqwest` hands out under its own name.
///
/// Trusted, not proved: `from_u16` is claimed to accept exactly the numbers
/// 100 to 999, and `is_success` to hold exactly of 200 to 299. `None` stands
/// for a number that `from_u16` refused.
#[verifier::external_body]
fn success_class(code: u16) -> (r: Option<bool>)
    ensures
        r == if is_status_code(code) {
            Some(is_success_code(code))
        } else {
            None
        },
{
    match reqwest::StatusCode::from_u16(code) {
        Ok(status) => Some(status.is_success()),
        Err(_) => None,
    }
}

} // verus!
