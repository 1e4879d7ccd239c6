//! What the user interface sees of the backend: two operations it may call,
//! and the notifications it is sent.

use vstd::prelude::*;
use vstd::string::*;
use crate::endpoint::{base_url, base_url_of, lemma_backend_urls, BACKEND_HOST, BACKEND_PORT};
use crate::health::{health_request_of, HealthRequest, ProbeOutcome};

verus! {

/// The timeout of the one request of a health check made on demand.
pub const HEALTH_CHECK_TIMEOUT_SECS: u64 = 3;

/// The name under which [`Notification::BackendReady`] is sent.
pub const READY_EVENT: &'static str = "backend-ready";

/// The name under which [`Notification::BackendError`] is sent.
pub const ERROR_EVENT: &'static str = "backend-error";

/// A one-way message to the user interface.
#[derive(Debug, PartialEq, Eq)]
pub enum Notification {
    BackendReady,
    BackendError(String),
}

/// [`Notification`] over mathematical strings.
pub enum NotificationView {
    BackendReady,
    BackendError(Seq<char>),
}

impl View for Notification {
    type V = NotificationView;

    open spec fn view(&self) -> NotificationView {
        match self {
            Notification::BackendReady => NotificationView::BackendReady,
            Notification::BackendError(text) => NotificationView::BackendError(text@),
        }
    }
}

impl Clone for Notification {
    fn clone(&self) -> (copy: Notification)
        ensures
            copy@ == self@,
    {
        match self {
            Notification::BackendReady => Notification::BackendReady,
            Notification::BackendError(text) => Notification::BackendError(text.clone()),
        }
    }
}

impl Notification {
    /// The name the notification is sent under.
    pub fn event_name(&self) -> (name: &'static str)
        ensures
            name@ == match self@ {
                NotificationView::BackendReady => READY_EVENT@,
                NotificationView::BackendError(_) => ERROR_EVENT@,
            },
    {
        match self {
            Notification::BackendReady => READY_EVENT,
            Notification::BackendError(_) => ERROR_EVENT,
        }
    }

    /// The diagnostic the notification carries, if it carries one.
    pub fn payload(&self) -> (text: Option<&str>)
        ensures
            match self@ {
                NotificationView::BackendReady => text is None,
                NotificationView::BackendError(diagnostic) => text matches Some(carried)
                    && carried@ == diagnostic,
            },
    {
        match self {
            Notification::BackendReady => None,
            Notification::BackendError(diagnostic) => Some(diagnostic.as_str()),
        }
    }
}

/// The one request of a health check made on demand.
pub fn health_check_request() -> (request: HealthRequest)
    ensures
        request@ == health_request_of(HEALTH_CHECK_TIMEOUT_SECS),
{
    HealthRequest::with_timeout(HEALTH_CHECK_TIMEOUT_SECS)
}

/// Answers a health check made on demand, from the outcome of its one
/// request: healthy exactly on a success status. A failed request is an
/// answer like any other, never an error.
pub fn check_backend_health(outcome: ProbeOutcome) -> (healthy: bool)
    ensures
        healthy == outcome.ready(),
{
    outcome.is_ready()
}

/// The backend's base URL. Fixed; nothing is asked of the network.
pub fn get_backend_url() -> (url: String)
    ensures
        url@ == base_url_of(BACKEND_HOST@, BACKEND_PORT as nat),
        url@ == "http://127.0.0.1:8000"@,
{
    let url = base_url(BACKEND_HOST, BACKEND_PORT);
    proof {
        lemma_backend_urls();
    }
    url
}

} // verus!
