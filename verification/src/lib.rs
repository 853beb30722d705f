//! A verified client core for a school portal's session-based login flow.
//!
//! The library holds everything that can be decided from response text alone:
//! extracting the session id and anti-forgery token from the logon page,
//! classifying a login response, building the exact requests to send, and the
//! linear flow that strings those decisions together. Performing the HTTP
//! requests themselves is left to an unverified driver that feeds response
//! bodies back in as events.

pub mod errors;
pub mod extract;
pub mod flow;
pub mod pattern;

pub use extract::AspenInfo;

pub use errors::AspenError;
pub use errors::ProjError;
