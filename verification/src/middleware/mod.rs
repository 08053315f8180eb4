//! Request gating: bearer tokens, throttling, validation of input, and the
//! access gate that puts them together.

pub mod auth;
pub mod gate;
pub mod rate_limiting;
pub mod validation;
