//! A client library for the CDN77 REST API (v3).
//!
//! The library decides everything that does not need the network: it checks
//! and normalises the parameters of a command, plans the HTTP request, routes
//! the response status (per-command rules first, then a shared table), and
//! renders every outcome as a message and a process exit code.
use vstd::prelude::*;

pub mod command;
pub mod datetime;
pub mod json;
pub mod outcome;
pub mod params;
pub mod present;
pub mod selectors;
pub mod status;
pub mod text;

verus! {

/// Root of every endpoint.
pub const CDN77_API_BASE: &'static str = "https://api.cdn77.com/v3";

/// The user provided some unexpected/invalid input.
pub const EXIT_CODE_INVALID_INPUT: i32 = 2;

/// The API answered with a non-success code that is a documented outcome (like "not found").
pub const EXIT_CODE_API_EXPECTED_ERROR: i32 = 3;

/// The API answered in a way this client does not expect (an unknown code, a body of the wrong shape).
pub const EXIT_CODE_API_UNEXPECTED_ERROR: i32 = 4;

} // verus!
