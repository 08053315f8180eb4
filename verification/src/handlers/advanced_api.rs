//! Requests of the automation interface, and what is checked of them
//! before they are acted on.

use vstd::prelude::*;
use crate::middleware::validation::{
    default_rules, input_verdict, validate_input, InputValidationError,
};

verus! {

/// Asks for a recommendation to be carried out at once.
#[derive(Clone, Debug)]
pub struct AutoExecuteRequest {
    pub recommendation_id: String,
    pub execution_mode: String,
}

/// Asks what would come of a recommendation.
#[derive(Clone, Debug)]
pub struct SimulationRequest {
    pub recommendation_id: String,
}

/// Asks for a recommendation to be carried out later.
#[derive(Clone, Debug)]
pub struct ScheduleRequest {
    pub recommendation_id: String,
    pub scheduled_time: String,
}

/// Sets the mode of automation.
#[derive(Clone, Debug)]
pub struct AutomationModeRequest {
    pub mode: String,
}

/// Sets the number of actions allowed per day.
#[derive(Clone, Copy, Debug, PartialEq, Eq, Structural)]
pub struct MaxActionsRequest {
    pub max_actions: u32,
}

/// Turns automatic execution on or off.
#[derive(Clone, Copy, Debug, PartialEq, Eq, Structural)]
pub struct AutoExecutionToggleRequest {
    pub enabled: bool,
}

/// The first of two checks that fails decides.
pub open spec fn both(
    first: Result<(), InputValidationError>,
    second: Result<(), InputValidationError>,
) -> Result<(), InputValidationError> {
    match first {
        Err(error) => Err(error),
        Ok(()) => second,
    }
}

/// Checks a request for execution: the identifier as an identifier of a
/// recommendation, then the mode as a message.
pub fn validate_auto_execute(request: &AutoExecuteRequest) -> (checked: Result<
    (),
    InputValidationError,
>)
    ensures
        checked == both(
            input_verdict(default_rules(), "recommendation_id"@, request.recommendation_id@),
            input_verdict(default_rules(), "message"@, request.execution_mode@),
        ),
{
    match validate_input("recommendation_id", request.recommendation_id.as_str()) {
        Err(error) => Err(error),
        Ok(()) => validate_input("message", request.execution_mode.as_str()),
    }
}

/// Checks a request for simulation: the identifier.
pub fn validate_simulation(request: &SimulationRequest) -> (checked: Result<
    (),
    InputValidationError,
>)
    ensures
        checked == input_verdict(
            default_rules(),
            "recommendation_id"@,
            request.recommendation_id@,
        ),
{
    validate_input("recommendation_id", request.recommendation_id.as_str())
}

/// Checks a request for scheduling: the identifier, then the time, which
/// has no rule of its own and is only searched for threats.
pub fn validate_schedule(request: &ScheduleRequest) -> (checked: Result<(), InputValidationError>)
    ensures
        checked == both(
            input_verdict(default_rules(), "recommendation_id"@, request.recommendation_id@),
            input_verdict(default_rules(), "scheduled_time"@, request.scheduled_time@),
        ),
{
    match validate_input("recommendation_id", request.recommendation_id.as_str()) {
        Err(error) => Err(error),
        Ok(()) => validate_input("scheduled_time", request.scheduled_time.as_str()),
    }
}

} // verus!
