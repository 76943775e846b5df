//! Telemetry for the gateway: configuration of the three signals, trace
//! context propagation, request metrics and the life cycle of the providers.

use vstd::prelude::*;
use crate::error::ErrorCode;

pub mod config;
pub mod context_propagation;
pub mod logging;
pub mod metrics;
pub mod telemetry_manager;
pub mod tracing;

verus! {

/// The status that a client sees for an outcome: 200 where there is no
/// error, else the status of the error's class, 400 for every code that has
/// no class of its own.
pub open spec fn status_code_of(error: Option<i32>) -> u16 {
    match error {
        None => 200,
        Some(code) => match ErrorCode::spec_from_i32(code as int) {
            Some(ErrorCode::AuthenticationFailed) => 401,
            Some(ErrorCode::Unauthorized) => 401,
            Some(ErrorCode::InternalError) => 500,
            Some(ErrorCode::ExceededTimeLimit) => 408,
            Some(ErrorCode::DuplicateKey) => 409,
            _ => 400,
        },
    }
}

/// Maps the outcome of a request to the status code shown to the client.
/// `None` stands for success.
pub fn error_code_to_status_code(error: Option<i32>) -> (status: u16)
    ensures
        status == status_code_of(error),
{
    match error {
        None => 200,
        Some(code) => match ErrorCode::from_i32(code) {
            Some(ErrorCode::AuthenticationFailed) => 401,
            Some(ErrorCode::Unauthorized) => 401,
            Some(ErrorCode::InternalError) => 500,
            Some(ErrorCode::ExceededTimeLimit) => 408,
            Some(ErrorCode::DuplicateKey) => 409,
            _ => 400,
        },
    }
}

/// The status table, row by row: success is 200, the two authorization
/// failures are 401, an internal error is 500, an exceeded time limit is 408,
/// a duplicate key is 409, and every other code is 400.
pub proof fn lemma_status_code_table(code: i32)
    ensures
        status_code_of(None) == 200,
        code == ErrorCode::AuthenticationFailed.spec_code() ==> status_code_of(Some(code)) == 401,
        code == ErrorCode::Unauthorized.spec_code() ==> status_code_of(Some(code)) == 401,
        code == ErrorCode::InternalError.spec_code() ==> status_code_of(Some(code)) == 500,
        code == ErrorCode::ExceededTimeLimit.spec_code() ==> status_code_of(Some(code)) == 408,
        code == ErrorCode::DuplicateKey.spec_code() ==> status_code_of(Some(code)) == 409,
        code != ErrorCode::AuthenticationFailed.spec_code() && code
            != ErrorCode::Unauthorized.spec_code() && code != ErrorCode::InternalError.spec_code()
            && code != ErrorCode::ExceededTimeLimit.spec_code() && code
            != ErrorCode::DuplicateKey.spec_code() ==> status_code_of(Some(code)) == 400,
{
}

/// Whether distributed tracing is on for this process. It is off until the
/// telemetry manager has started with a tracer.
#[derive(Clone, Copy, Debug, PartialEq, Eq, Structural)]
pub struct TracingSwitch {
    pub enabled: bool,
}

impl TracingSwitch {
    /// The switch at process start: off.
    pub fn new() -> (switch: TracingSwitch)
        ensures
            !switch.enabled,
    {
        TracingSwitch { enabled: false }
    }
}

/// Returns whether distributed tracing is enabled. Used to skip trace
/// context extraction when tracing is off.
pub fn is_tracing_enabled(switch: &TracingSwitch) -> (enabled: bool)
    ensures
        enabled == switch.enabled,
{
    switch.enabled
}

/// Turns tracing on or off.
pub fn set_tracing_enabled(switch: &mut TracingSwitch, enabled: bool)
    ensures
        final(switch).enabled == enabled,
{
    switch.enabled = enabled;
}

} // verus!
