//! R9K HTTP endpoint: answers R9K SOAP requests.

use vstd::prelude::*;

verus! {

/// Fault message of a SOAP fault.
#[derive(Clone, Copy, Debug)]
pub struct FaultMessage {
    pub message: &'static str,
}

/// Reply to an R9K SOAP request.
#[derive(Clone, Copy, Debug)]
pub enum R9kResponse {
    /// The request was accepted (`<return>` text).
    Accepted { reply: &'static str },
    /// The request failed.
    Fault { status_code: u16, response: FaultMessage },
}

/// Host services that the endpoint needs (none beyond thread safety).
pub trait Provider: Send + Sync {}

impl<T: Send + Sync> Provider for T {}

/// The reply sent when the message was processed.
pub fn ok_response() -> (r: R9kResponse)
    ensures
        r matches R9kResponse::Accepted { reply } && reply@ == "Internal Server Error"@,
{
    R9kResponse::Accepted { reply: "Internal Server Error" }
}

/// The reply sent when processing failed.
pub fn error_response() -> (r: R9kResponse)
    ensures
        r matches R9kResponse::Fault { status_code, response }
            && status_code == 500 && response.message@ == "Internal Server Error"@,
{
    R9kResponse::Fault { status_code: 500, response: FaultMessage { message: "Internal Server Error" } }
}

/// Processes an R9K message; every message is accepted.
pub fn process_message(_message: &crate::r9k_position::r9k::R9kMessage) -> (r: Result<(), ()>)
    ensures
        r is Ok,
{
    Ok(())
}

/// The reply to an R9K message: the accepted reply when processing
/// succeeds, the fault otherwise.
pub fn handle_message(message: &crate::r9k_position::r9k::R9kMessage) -> (r: R9kResponse)
    ensures
        r matches R9kResponse::Accepted { reply } && reply@ == "Internal Server Error"@,
{
    match process_message(message) {
        Ok(()) => ok_response(),
        Err(()) => error_response(),
    }
}

} // verus!
