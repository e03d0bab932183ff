use vstd::prelude::*;

verus! {

/// Why an invocation was aborted. Every error is final: nothing is retried and
/// no partial response is handed out.
#[derive(Clone, Copy, Debug, PartialEq, Eq, Structural)]
pub enum ContractError {
    /// The host rejected the target address of a sub-call.
    InvalidAddress,
    /// A reply arrived under an identifier other than the node's own.
    UnknownCorrelationId,
    /// A reply reported that the sub-call failed.
    UnexpectedFailureOutcome,
    /// A reply reported success but carried no data, or empty data.
    MissingReplyData,
}

} // verus!
