//! Settings of the dashboard.

pub mod config;
