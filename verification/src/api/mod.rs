//! What the dashboard knows of the Lightning node and its neighbours.

pub mod lightning_client;
pub mod local_lightning_client;
pub mod mcp_client;
pub mod umbrel_integrations;
