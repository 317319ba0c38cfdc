//! Boundary-call protocol: what crosses the trust boundary and how the
//! gateway settles the answer.
//!
//! A boundary call hands the enclave a gas budget and returns a platform
//! status, the gas the enclave metered, and a typed reply. The gateway turns
//! those three into one [`CallResult`] and one billed gas figure, under the
//! metering rule that billed gas never exceeds the caller's limit unless the
//! call ran out of gas — in which case the metered figure is surfaced as is,
//! because the abort happened at the metering checkpoint, not cleanly before
//! entry, and callers bill partial execution from it.

use vstd::prelude::*;

verus! {

/// Gas budget for one boundary call. The caller owns it; the limit is fixed
/// before the call and the used figure is written when the call settles,
/// on success and on every failure alike.
#[derive(Clone, Copy, PartialEq, Eq, Structural, Debug)]
pub struct GasBudget {
    /// Upper bound on the computational work the enclave may perform.
    pub limit: u64,
    /// Gas billed to the caller once the call has settled.
    pub used: u64,
}

impl GasBudget {
    /// A fresh budget with nothing used yet.
    pub fn new(limit: u64) -> (g: GasBudget)
        ensures
            g.limit == limit,
            g.used == 0,
    {
        GasBudget { limit, used: 0 }
    }
}

/// Platform-level status of a boundary call.
#[derive(Clone, Copy, PartialEq, Eq, Structural, Debug)]
pub enum StatusCode {
    /// The platform carried the call across the boundary and back.
    Success,
    /// The doorbell could not be acquired. Returned by the gateway itself,
    /// never by the enclave, and always surfaced rather than retried, so
    /// contention stays visible to the caller.
    Busy,
    /// An underlying secure-execution platform error, surfaced verbatim.
    PlatformFailure(u64),
}

/// Typed reply the enclave places in the boundary call's return slot. Only
/// meaningful when the platform status reports success.
#[derive(Clone, PartialEq, Eq, Debug)]
pub enum EnclaveReply {
    /// The contract call completed and produced this payload.
    Payload(Vec<u8>),
    /// The contract call failed inside the enclave with this code.
    Failed(u64),
    /// Execution was aborted at the metering checkpoint.
    OutOfGas,
}

/// Everything the host observes when a boundary call returns.
#[derive(Clone, PartialEq, Eq, Debug)]
pub struct BoundaryResponse {
    /// Platform status of the crossing itself.
    pub status: StatusCode,
    /// Gas the enclave metered before returning; populated on every path.
    pub used_gas: u64,
    /// The enclave's typed reply.
    pub reply: EnclaveReply,
}

/// Outcome of one contract lifecycle call, as surfaced to the caller.
/// Running out of gas is kept apart from other failures so that callers can
/// apply gas-specific accounting.
#[derive(Clone, PartialEq, Eq, Debug)]
pub enum CallResult {
    /// The call completed within budget; the enclave's payload.
    Success(Vec<u8>),
    /// The call failed with a status code; no gas-specific handling applies.
    Failure(StatusCode),
    /// Execution was aborted by metering; billed gas may reach or exceed
    /// the limit.
    OutOfGas,
}

/// How a boundary response settles into a call result.
///
/// A platform failure is surfaced verbatim; an enclave-reported failure is
/// surfaced as a platform failure code; an enclave-reported gas abort is
/// out-of-gas. A payload whose metered gas exceeds the limit also settles as
/// out-of-gas: the metering contract allows the figure past the limit only
/// when execution was cut off at the checkpoint.
pub open spec fn spec_settle_result(limit: u64, response: BoundaryResponse) -> CallResult {
    if !(response.status is Success) {
        CallResult::Failure(response.status)
    } else {
        match response.reply {
            EnclaveReply::Payload(payload) => if response.used_gas <= limit {
                CallResult::Success(payload)
            } else {
                CallResult::OutOfGas
            },
            EnclaveReply::Failed(code) => CallResult::Failure(StatusCode::PlatformFailure(code)),
            EnclaveReply::OutOfGas => CallResult::OutOfGas,
        }
    }
}

/// Gas billed to the caller for a boundary response: the metered figure,
/// capped at the limit except when the call settles as out-of-gas.
pub open spec fn spec_billed_gas(limit: u64, response: BoundaryResponse) -> u64 {
    if spec_settle_result(limit, response) is OutOfGas {
        response.used_gas
    } else if response.used_gas <= limit {
        response.used_gas
    } else {
        limit
    }
}

/// Settle a boundary response into the result surfaced to the caller.
pub fn settle_result(limit: u64, response: BoundaryResponse) -> (r: CallResult)
    ensures
        r == spec_settle_result(limit, response),
{
    match response.status {
        StatusCode::Success => match response.reply {
            EnclaveReply::Payload(payload) => if response.used_gas <= limit {
                CallResult::Success(payload)
            } else {
                CallResult::OutOfGas
            },
            EnclaveReply::Failed(code) => CallResult::Failure(StatusCode::PlatformFailure(code)),
            EnclaveReply::OutOfGas => CallResult::OutOfGas,
        },
        StatusCode::Busy => CallResult::Failure(response.status),
        StatusCode::PlatformFailure(_) => CallResult::Failure(response.status),
    }
}

/// The gas figure to bill for a boundary response.
pub fn billed_gas(limit: u64, response: &BoundaryResponse) -> (g: u64)
    ensures
        g == spec_billed_gas(limit, *response),
{
    let out_of_gas: bool = match &response.reply {
        EnclaveReply::OutOfGas => matches!(response.status, StatusCode::Success),
        EnclaveReply::Payload(_) => matches!(response.status, StatusCode::Success)
            && response.used_gas > limit,
        EnclaveReply::Failed(_) => false,
    };
    if out_of_gas {
        response.used_gas
    } else if response.used_gas <= limit {
        response.used_gas
    } else {
        limit
    }
}

/// Law (gas bounding): for any gas limit and any boundary response, the gas
/// billed to the caller stays within the limit unless the call settled as
/// out-of-gas; only there may the metered figure reach or exceed the limit.
pub proof fn lemma_gas_within_limit(limit: u64, response: BoundaryResponse)
    ensures
        !(spec_settle_result(limit, response) is OutOfGas) ==> spec_billed_gas(limit, response)
            <= limit,
{
}

} // verus!
