//! Approval and rejection of recommendations.

use vstd::prelude::*;
use vstd::string::StringExecFns;

verus! {

/// What an operator asks to be done with a recommendation.
#[derive(Clone, Debug)]
pub struct ActionRequest {
    pub recommendation_id: String,
    pub action: ActionType,
}

/// The operator's verdict on a recommendation.
#[derive(Clone, Copy, Debug, PartialEq, Eq, Structural)]
pub enum ActionType {
    Approve,
    Reject,
}

/// The answer to an `ActionRequest`.
#[derive(Clone, Debug)]
pub struct ActionResponse {
    pub success: bool,
    pub message: String,
}

/// The message that answers a verdict on the recommendation `id`.
pub open spec fn action_message(id: Seq<char>, action: ActionType) -> Seq<char> {
    "Recommendation "@ + id + match action {
        ActionType::Approve => " approved"@,
        ActionType::Reject => " rejected"@,
    }
}

/// Records the operator's verdict and answers it.
pub fn process_recommendation_action(request: ActionRequest) -> (response: ActionResponse)
    ensures
        response.success,
        response.message@ == action_message(request.recommendation_id@, request.action),
{
    let verdict: &str = match request.action {
        ActionType::Approve => " approved",
        ActionType::Reject => " rejected",
    };
    let message = String::from_str("Recommendation ").concat(
        request.recommendation_id.as_str(),
    ).concat(verdict);
    ActionResponse { success: true, message }
}

} // verus!
