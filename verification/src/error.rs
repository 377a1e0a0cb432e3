//! Failures that the channel reports or receives.

use vstd::prelude::*;

verus! {

/// A refusal of the channel itself.
#[derive(Clone, Debug, PartialEq, Eq)]
pub enum AgentError {
    /// The channel already runs as many branches as it may.
    BranchLimitReached { channel_id: String, max: usize },
}

/// How a turn of the completion agent can fail.
#[derive(Clone, Debug, PartialEq, Eq)]
pub enum CompletionError {
    /// The turn budget ran out before the model gave its answer.
    MaxTurns,
    /// The caller or a policy stopped the turn.
    Cancelled { reason: String },
    /// Any other failure.
    Failed { message: String },
}

} // verus!
