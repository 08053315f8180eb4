//! The recommendation service: where its resources are found, how a caller
//! names itself, and the kinds and urgency of the actions it proposes.

use vstd::prelude::*;
use vstd::string::StringExecFns;
use crate::encoding::{decimal_chars, decimal_string};

verus! {

/// What a recommendation proposes to do.
#[derive(Clone, Copy, Debug, PartialEq, Eq, Structural)]
pub enum ActionType {
    OpenChannel,
    CloseChannel,
    AdjustFees,
    RebalanceChannel,
}

/// How urgent a recommendation is.
#[derive(Clone, Copy, Debug, PartialEq, Eq, Structural)]
pub enum Priority {
    Low,
    Medium,
    High,
}

impl ActionType {
    /// The kind of action in words, for display.
    pub fn action_type_display(&self) -> (name: &'static str)
        ensures
            name@ == match *self {
                ActionType::OpenChannel => "Open Channel"@,
                ActionType::CloseChannel => "Close Channel"@,
                ActionType::AdjustFees => "Adjust Fees"@,
                ActionType::RebalanceChannel => "Rebalance Channel"@,
            },
    {
        match self {
            ActionType::OpenChannel => "Open Channel",
            ActionType::CloseChannel => "Close Channel",
            ActionType::AdjustFees => "Adjust Fees",
            ActionType::RebalanceChannel => "Rebalance Channel",
        }
    }
}

impl Priority {
    /// The style class under which the urgency is shown.
    pub fn priority_class(&self) -> (class: &'static str)
        ensures
            class@ == match *self {
                Priority::High => "high"@,
                Priority::Medium => "medium"@,
                Priority::Low => "low"@,
            },
    {
        match self {
            Priority::High => "high",
            Priority::Medium => "medium",
            Priority::Low => "low",
        }
    }
}

/// Where the recommendations for a node are found.
pub open spec fn spec_recommendations_url(base_url: Seq<char>, node_pubkey: Seq<char>) -> Seq<char> {
    base_url + "/api/v1/recommendations/"@ + node_pubkey
}

/// Tells where the recommendations for a node are found.
pub fn recommendations_url(base_url: &str, node_pubkey: &str) -> (url: String)
    ensures
        url@ == spec_recommendations_url(base_url@, node_pubkey@),
{
    String::from_str(base_url).concat("/api/v1/recommendations/").concat(node_pubkey)
}

/// Tells where the result of an action is sent.
pub fn action_result_url(base_url: &str) -> (url: String)
    ensures
        url@ == base_url@ + "/api/v1/actions/result"@,
{
    String::from_str(base_url).concat("/api/v1/actions/result")
}

/// Tells where the health of the service is asked.
pub fn health_url(base_url: &str) -> (url: String)
    ensures
        url@ == base_url@ + "/api/v1/health"@,
{
    String::from_str(base_url).concat("/api/v1/health")
}

/// Tells where the metrics of a node are sent.
pub fn metrics_url(base_url: &str) -> (url: String)
    ensures
        url@ == base_url@ + "/api/v1/metrics"@,
{
    String::from_str(base_url).concat("/api/v1/metrics")
}

/// Where the analysis of a node's performance over some days is found.
pub open spec fn spec_performance_analysis_url(
    base_url: Seq<char>,
    node_pubkey: Seq<char>,
    timeframe_days: u32,
) -> Seq<char> {
    base_url + "/api/v1/analysis/"@ + node_pubkey + "/performance?days="@ + decimal_chars(
        timeframe_days as nat,
    )
}

/// Tells where the analysis of a node's performance is found.
pub fn performance_analysis_url(
    base_url: &str,
    node_pubkey: &str,
    timeframe_days: u32,
) -> (url: String)
    ensures
        url@ == spec_performance_analysis_url(base_url@, node_pubkey@, timeframe_days),
{
    let days: String = decimal_string(timeframe_days as u64);
    String::from_str(base_url).concat("/api/v1/analysis/").concat(node_pubkey).concat(
        "/performance?days=",
    ).concat(days.as_str())
}

/// The value of the `Authorization` header under which a caller with a key
/// names itself.
pub fn bearer_header(api_key: &str) -> (value: String)
    ensures
        value@ == "Bearer "@ + api_key@,
{
    String::from_str("Bearer ").concat(api_key)
}

} // verus!
