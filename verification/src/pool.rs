//! The connection pool: one connection per registry entry, or none at all.

use crate::outcome::{all_succeeded, failures, first_failure_is_earliest, gather, successes, NodeFailure};
use crate::registry::NodeRegistry;
use vstd::prelude::*;

verus! {

/// Why a connection could not be established.
#[derive(Clone, Copy, Debug, PartialEq, Eq, Structural)]
pub enum ConnectFailureKind {
    /// The endpoint could not be reached.
    Unreachable,
    /// The endpoint refused the connection.
    Refused,
    /// The connection was opened, but the handshake failed.
    Handshake,
    /// The attempt ran out of time.
    Timeout,
}

/// One failed connection attempt, as the transport reported it.
#[derive(Debug, PartialEq, Eq)]
pub struct ConnectFailure {
    pub kind: ConnectFailureKind,
    /// The transport's own words.
    pub detail: String,
}

/// The failure of the pool: at least one node could not be connected.
#[derive(Debug, PartialEq, Eq)]
pub struct ConnectError {
    /// The endpoint of the first node, in registry order, that failed.
    pub address: String,
    /// Every node that failed, in registry order, each with its reason.
    pub failures: Vec<NodeFailure<ConnectFailure>>,
}

impl ConnectError {
    /// Whether this is the error that the given attempts on the given registry
    /// amount to.
    pub open spec fn reports<C>(
        &self,
        registry: Seq<Seq<char>>,
        attempts: Seq<Result<C, ConnectFailure>>,
    ) -> bool {
        &&& self.failures@ == failures(attempts)
        &&& self.failures@.len() > 0
        &&& self.failures@[0].node < registry.len()
        &&& self.address@ == registry[self.failures@[0].node as int]
    }
}

/// Decides what the settled connection attempts amount to, one attempt per
/// registry entry and in registry order: the connections of all nodes, in that
/// order, where every attempt succeeded; otherwise an error that names every
/// node that failed, and no connection at all. The connections that were
/// established beside a failed one are dropped here, which releases them.
pub fn connect_all<C>(registry: &NodeRegistry, attempts: Vec<Result<C, ConnectFailure>>) -> (connected:
    Result<Vec<C>, ConnectError>)
    requires
        attempts@.len() == registry@.len(),
    ensures
        all_succeeded(attempts@) <==> connected is Ok,
        match connected {
            Ok(connections) => {
                &&& connections@.len() == registry@.len()
                &&& connections@ == successes(attempts@)
            },
            Err(error) => error.reports(registry@, attempts@),
        },
{
    proof {
        if !all_succeeded(attempts@) {
            assert(attempts@.len() == attempts.len());
            first_failure_is_earliest(attempts@);
        }
    }
    match gather(attempts) {
        Ok(connections) => Ok(connections),
        Err(failed) => {
            let first = failed[0].node;
            let addresses = registry.addresses();
            Err(ConnectError { address: addresses[first].clone(), failures: failed })
        },
    }
}

} // verus!
