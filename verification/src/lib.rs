//! Supervision of a locally hosted backend process: locating and launching it,
//! probing it for readiness, and tearing it down when the application exits.
//!
//! Everything here is a decision over plain values. The caller performs the
//! effects (process creation, HTTP requests, sleeping, UI notifications) and
//! reports what happened; the library answers with what to do next.

pub mod bridge;
pub mod endpoint;
pub mod health;
pub mod launcher;
pub mod locator;
pub mod prober;
pub mod startup;
pub mod supervisor;
pub mod text;
