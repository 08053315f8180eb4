//! What the dashboard keeps of recommendations.

pub mod recommendation;
