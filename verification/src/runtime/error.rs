//! Errors of runtime operations.
use vstd::prelude::*;
use crate::text::concat;

verus! {

/// An error of a runtime operation, with its detail text.
#[derive(Clone, Debug, PartialEq)]
pub enum RuntimeError {
    BusError(String),
    Validation(String),
    Internal(String),
    ResponseError(String),
    ResponseTimeout(String),
    LifecycleError(String),
    InvalidPayload(String),
    ScheduleError(String),
    ProviderError(String),
    ToolError(String),
}

impl RuntimeError {
    /// The message that describes the error.
    pub open spec fn spec_message(&self) -> Seq<char> {
        match self {
            RuntimeError::BusError(m) => "bus error: "@ + m@,
            RuntimeError::Validation(m) => "validation error: "@ + m@,
            RuntimeError::Internal(m) => "internal error: "@ + m@,
            RuntimeError::ResponseError(m) => "response error: "@ + m@,
            RuntimeError::ResponseTimeout(m) => "response timeout: "@ + m@,
            RuntimeError::LifecycleError(m) => "lifecycle error: "@ + m@,
            RuntimeError::InvalidPayload(m) => "invalid payload: "@ + m@,
            RuntimeError::ScheduleError(m) => "schedule error: "@ + m@,
            RuntimeError::ProviderError(m) => "provider error: "@ + m@,
            RuntimeError::ToolError(m) => "tool error: "@ + m@,
        }
    }

    /// The message that describes the error.
    pub fn message(&self) -> (r: String)
        ensures
            r@ == self.spec_message(),
    {
        match self {
            RuntimeError::BusError(m) => concat("bus error: ", m.as_str()),
            RuntimeError::Validation(m) => concat("validation error: ", m.as_str()),
            RuntimeError::Internal(m) => concat("internal error: ", m.as_str()),
            RuntimeError::ResponseError(m) => concat("response error: ", m.as_str()),
            RuntimeError::ResponseTimeout(m) => concat("response timeout: ", m.as_str()),
            RuntimeError::LifecycleError(m) => concat("lifecycle error: ", m.as_str()),
            RuntimeError::InvalidPayload(m) => concat("invalid payload: ", m.as_str()),
            RuntimeError::ScheduleError(m) => concat("schedule error: ", m.as_str()),
            RuntimeError::ProviderError(m) => concat("provider error: ", m.as_str()),
            RuntimeError::ToolError(m) => concat("tool error: ", m.as_str()),
        }
    }
}

} // verus!
