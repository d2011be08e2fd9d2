//! User-account and session operations: payload validation, auth-type
//! selection, and the per-request protocol with the session manager, plus the
//! settings that are read with a fallback to defaults.
use vstd::prelude::*;

pub mod auth;
pub mod error;
pub mod handlers;
pub mod params;
pub mod session;
pub mod settings;

verus! {

} // verus!
