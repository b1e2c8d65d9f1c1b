//! Client-side core of a legacy academic-portal client: the login handshake
//! engine (RSA-obfuscated credential, CSRF token, cookie jar, outcome
//! decision) and the parsers that turn the portal's JSON and HTML responses
//! into typed records.
//!
//! Network transport is left to the embedding application; this crate holds
//! the decisions and the data, each function with a proved contract.

pub mod config;
pub mod cookies;
pub mod crypto;
pub mod decimal;
pub mod html;
pub mod json;
pub mod parsers;
pub mod session;
pub mod text;
