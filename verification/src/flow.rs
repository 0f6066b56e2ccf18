//! How a service operation is carried out: step by step, with every call to
//! a store made by the caller.
//!
//! An operation starts with a first action. The caller performs the action,
//! hands what came of it to the flow's `step`, and gets the next action or
//! the operation's result. The flow decides; the caller only acts.

use vstd::prelude::*;

verus! {

/// Where an operation stands after a step.
pub enum Step<F, A, R> {
    /// The operation goes on: perform `action` and hand the outcome to
    /// `flow`.
    Ask { flow: F, action: A },
    /// The operation has ended.
    Done { result: R },
}

/// The cause that is logged where the caller hands a flow an outcome that
/// does not answer the action it was asked to perform.
pub fn out_of_turn() -> (cause: String)
    ensures
        cause@ == "outcome does not answer the pending action"@,
{
    String::from_str("outcome does not answer the pending action")
}

} // verus!
