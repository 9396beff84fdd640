//! A verified client core for a university single-sign-on (SSO) gateway and
//! its downstream services.
//!
//! The crate models the login protocol, the per-service access-grant
//! exchanges, the cookie-carrying session, and the small parsing and
//! encryption routines they rest on.  All network traffic is performed by the
//! caller: the flow modules hand out plain request descriptions and consume
//! plain response summaries, so every decision the protocol makes is a
//! verified function.

pub mod card;
pub mod consts;
pub mod course;
pub mod datetimes;
pub mod encrypt;
pub mod errors;
pub mod http;
pub mod jsonval;
pub mod models;
pub mod mycqu;
pub mod page_parser;
pub mod session;
pub mod sso;
pub mod strutil;
