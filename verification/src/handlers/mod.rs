//! What the handlers of the dashboard decide before and after they talk to
//! anything.

pub mod actions;
pub mod advanced_api;
