//! Trust boundary of a Lightning-node operations dashboard: credential
//! handling, signed bearer tokens, session claims, request throttling, and
//! the access gate in front of every inbound request.
//!
//! # Parts
//!
//! - `auth`: users, the password policy, password hashing, and what the
//!   credential store decides at login, at a change of password and at
//!   first start. `auth::session`: cookie profiles and session claims.
//! - `middleware::auth`: the bearer token, issued and judged.
//! - `middleware::rate_limiting`: budgets of requests per client.
//! - `middleware::gate`: what becomes of a request, from route to answer.
//! - `middleware::validation`: validation of text from outside.
//! - `encoding`, `crypto`, `chars`, `time`: decimal numbers, and what is
//!   taken from other crates and from the standard library, each call with
//!   its contract.
//! - `api`, `handlers`, `models`, `routes`, `utils`: the shapes and fixed
//!   answers of the dashboard's services and pages.
//!
//! Nothing here reads a file, a socket or the environment. Whoever does
//! hands over plain values and carries out what comes back.
//!
//! # Refusals
//!
//! Every refusal is one that the caller can recover from, by logging in
//! again or by waiting.
//!
//! | Condition | Where it shows |
//! |---|---|
//! | no credential | `AuthError::MissingToken`, then 401 or a redirect |
//! | malformed credential | `AuthError::InvalidFormat` |
//! | expired credential | `AuthError::ExpiredToken` |
//! | invalid signature | `AuthError::InvalidToken` |
//! | unknown user or wrong password | `Ok(None)` of `auth::authenticate` |
//! | weak password | `AuthServiceError::WeakPassword` |
//! | too many requests | `Rejection::TooManyRequests`, 429 |
//!
//! A fault of the system is none of these: it is an `AuthServiceError` for
//! which `is_internal` holds, and is answered apart from 401 and 429.

pub mod api;
pub mod auth;
pub mod chars;
pub mod crypto;
pub mod encoding;
pub mod handlers;
pub mod middleware;
pub mod models;
pub mod routes;
pub mod time;
pub mod utils;
