//! An event-sourced domain core for classified-ad listings.
//!
//! State changes are expressed as discrete events, projected onto the
//! aggregate through a uniform `apply` protocol and validated against
//! per-state invariants before they are accepted.  Monetary values are
//! currency-aware fixed-point decimals validated at construction.

pub mod classified_ad;
pub mod errors;
pub mod events;
pub mod framework;
pub mod ports;
pub mod simple_types;
pub mod user_profile;
