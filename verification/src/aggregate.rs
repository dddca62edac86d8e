//! The result aggregator: all responses, or one error that names every failure.

use crate::outcome::{
    all_succeeded, failed_nodes, failures, gather, nodes_of, single_failure_is_named, successes,
    NodeFailure,
};
use crate::pool::ConnectError;
use vstd::prelude::*;

verus! {

/// Why a call to a node failed once the connection stood.
#[derive(Clone, Copy, Debug, PartialEq, Eq, Structural)]
pub enum CallErrorKind {
    /// The node answered with an error of the application.
    Remote,
    /// The transport failed in the middle of the call.
    Transport,
    /// The call ran past its deadline.
    DeadlineExceeded,
}

/// The gRPC status code of a call that was cancelled.
pub const STATUS_CANCELLED: i32 = 1;

/// The gRPC status code of a call that ran past its deadline.
pub const STATUS_DEADLINE_EXCEEDED: i32 = 4;

/// The gRPC status code of a service that could not be reached.
pub const STATUS_UNAVAILABLE: i32 = 14;

/// The kind of failure that a gRPC status code stands for: a deadline that
/// was exceeded is told apart from a transport that gave way (the call was
/// cancelled or the service unavailable), and every other code is the node's
/// own answer.
pub open spec fn kind_of_status(code: i32) -> CallErrorKind {
    if code == STATUS_DEADLINE_EXCEEDED {
        CallErrorKind::DeadlineExceeded
    } else if code == STATUS_CANCELLED || code == STATUS_UNAVAILABLE {
        CallErrorKind::Transport
    } else {
        CallErrorKind::Remote
    }
}

/// One failed call, as the transport reported it.
#[derive(Debug, PartialEq, Eq)]
pub struct CallError {
    pub kind: CallErrorKind,
    /// The transport's own words.
    pub detail: String,
}

impl CallError {
    /// The failed call that a gRPC status stands for: the kind by its code, the
    /// message kept as it came.
    pub fn from_status(code: i32, message: String) -> (error: CallError)
        ensures
            error.kind == kind_of_status(code),
            error.detail == message,
    {
        let kind = if code == STATUS_DEADLINE_EXCEEDED {
            CallErrorKind::DeadlineExceeded
        } else if code == STATUS_CANCELLED || code == STATUS_UNAVAILABLE {
            CallErrorKind::Transport
        } else {
            CallErrorKind::Remote
        };
        CallError { kind, detail: message }
    }
}

/// The failure of a whole dispatch.
#[derive(Debug, PartialEq, Eq)]
pub enum DispatchError {
    /// Some node could not be connected; no call was made.
    Connect(ConnectError),
    /// Some call failed: every node that failed, in registry order, each with
    /// its error.
    Call { failures: Vec<NodeFailure<CallError>> },
}

impl DispatchError {
    /// The nodes that failed, by their position in registry order.
    pub open spec fn nodes(&self) -> Seq<usize> {
        match self {
            DispatchError::Connect(error) => nodes_of(error.failures@),
            DispatchError::Call { failures } => nodes_of(failures@),
        }
    }

    /// The nodes that failed, by their position in registry order.
    pub fn failed_nodes(&self) -> (nodes: Vec<usize>)
        ensures
            nodes@ == self.nodes(),
    {
        match self {
            DispatchError::Connect(error) => failed_nodes(&error.failures),
            DispatchError::Call { failures } => failed_nodes(failures),
        }
    }
}

/// The outcome of a dispatch: the responses of all nodes in registry order, or
/// one error. There is no outcome with some responses and some failures.
pub type DispatchOutcome<R> = Result<Vec<R>, DispatchError>;

/// Whether `outcome` is what the settled calls `results` amount to: the
/// responses of all nodes, in registry order, where every call succeeded;
/// otherwise the error that lists every failed call.
pub open spec fn is_aggregate_of<R>(
    outcome: DispatchOutcome<R>,
    results: Seq<Result<R, CallError>>,
) -> bool {
    match outcome {
        Ok(responses) => all_succeeded(results) && responses@ == successes(results),
        Err(DispatchError::Call { failures: failed }) => !all_succeeded(results) && failed@
            == failures(results),
        Err(DispatchError::Connect(_)) => false,
    }
}

/// Aggregates the settled calls of all nodes, given in registry order, into one
/// outcome.
pub fn aggregate<R>(results: Vec<Result<R, CallError>>) -> (outcome: DispatchOutcome<R>)
    ensures
        all_succeeded(results@) <==> outcome is Ok,
        is_aggregate_of(outcome, results@),
{
    match gather(results) {
        Ok(responses) => Ok(responses),
        Err(failed) => Err(DispatchError::Call { failures: failed }),
    }
}

/// Where every call succeeded, the outcome holds one response per call, in the
/// order of the calls, and each is the response of its own call.
pub proof fn all_succeeded_gives_every_response<R>(
    outcome: DispatchOutcome<R>,
    results: Seq<Result<R, CallError>>,
)
    requires
        is_aggregate_of(outcome, results),
        all_succeeded(results),
    ensures
        outcome is Ok,
        outcome->Ok_0@.len() == results.len(),
        forall|i: int| 0 <= i < results.len() ==> results[i] == Ok::<R, CallError>(outcome->Ok_0@[i]),
{
}

/// Where exactly one call failed, the outcome is the error that names that
/// node, with the error of its call, and names no other; the responses of the
/// other nodes are not in it.
pub proof fn one_failed_call_fails_the_dispatch<R>(
    outcome: DispatchOutcome<R>,
    results: Seq<Result<R, CallError>>,
    node: int,
)
    requires
        is_aggregate_of(outcome, results),
        results.len() <= usize::MAX,
        0 <= node < results.len(),
        results[node] is Err,
        forall|i: int| 0 <= i < results.len() && i != node ==> results[i] is Ok,
    ensures
        outcome matches Err(DispatchError::Call { failures: failed }) && failed@ == seq![
            NodeFailure { node: node as usize, error: results[node]->Err_0 },
        ],
        outcome matches Err(error) && error.nodes() == seq![node as usize],
{
    single_failure_is_named(results, node);
}

/// An outcome is never partial: it is a success exactly where every call
/// succeeded, and then it leaves no response out.
pub proof fn no_partial_success<R>(outcome: DispatchOutcome<R>, results: Seq<Result<R, CallError>>)
    requires
        is_aggregate_of(outcome, results),
    ensures
        outcome is Ok <==> all_succeeded(results),
        outcome is Ok ==> outcome->Ok_0@.len() == results.len(),
{
}

} // verus!
