//! What the pages of the dashboard decide.

pub mod auth;
