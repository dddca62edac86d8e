//! The dispatcher: the decisions of one logical dispatch, from the first
//! connection attempt to the aggregated outcome.
//!
//! The dispatcher does no input or output. It says what is to be done next,
//! the caller does it and reports what came of it. There are two rounds of
//! waiting, and each ends only when every node of the round has settled.

use crate::aggregate::{aggregate, is_aggregate_of, CallError, DispatchError, DispatchOutcome};
use crate::outcome::{all_succeeded, successes};
use crate::pool::{connect_all, ConnectFailure};
use crate::registry::{copy_names, NodeRegistry};
use crate::request::{ExecutionRequest, ExecutionRequestView};
use vstd::prelude::*;

verus! {

/// Where a dispatch stands.
#[derive(Clone, Copy, Debug, PartialEq, Eq, Structural)]
pub enum Phase {
    /// Nothing has been asked of the network yet.
    Ready,
    /// The connection attempts are under way.
    Connecting,
    /// The calls are under way.
    Calling,
    /// The outcome has been given out.
    Finished,
}

/// What the caller reports to the dispatcher.
#[derive(Debug, PartialEq, Eq)]
pub enum Event<C, R> {
    /// The dispatch starts.
    Begin,
    /// Every connection attempt has settled: one result per registry entry, in
    /// registry order.
    ConnectionsSettled { attempts: Vec<Result<C, ConnectFailure>> },
    /// Every call has settled: one result per registry entry, in registry
    /// order.
    CallsSettled { results: Vec<Result<R, CallError>> },
}

/// What the dispatcher asks the caller to do.
#[derive(Debug, PartialEq, Eq)]
pub enum Action<C, R> {
    /// Open a connection to each address, all at once, and wait until every
    /// attempt has settled.
    Connect { addresses: Vec<String> },
    /// Send the i-th message over the i-th connection, all at once, and wait
    /// until every call has settled.
    Call { connections: Vec<C>, messages: Vec<ExecutionRequest> },
    /// Nothing is left to do: this is the outcome of the dispatch.
    Finish { outcome: DispatchOutcome<R> },
}

/// One logical dispatch: the registry, the request, and how far it has come.
#[derive(Debug)]
pub struct Dispatcher {
    registry: NodeRegistry,
    request: ExecutionRequest,
    phase: Phase,
}

/// What a dispatcher holds.
pub struct DispatcherView {
    pub registry: Seq<Seq<char>>,
    pub request: ExecutionRequestView,
    pub phase: Phase,
}

impl View for Dispatcher {
    type V = DispatcherView;

    closed spec fn view(&self) -> DispatcherView {
        DispatcherView { registry: self.registry@, request: self.request@, phase: self.phase }
    }
}

/// Whether the event is the one that a dispatch in this state waits for, with
/// one result per registry entry.
pub open spec fn expects<C, R>(state: DispatcherView, event: Event<C, R>) -> bool {
    match event {
        Event::Begin => state.phase == Phase::Ready,
        Event::ConnectionsSettled { attempts } => state.phase == Phase::Connecting
            && attempts@.len() == state.registry.len(),
        Event::CallsSettled { results } => state.phase == Phase::Calling && results@.len()
            == state.registry.len(),
    }
}

/// Whether `phase` and `action` are what follows when a dispatch in the state
/// `before` is told of `event`.
pub open spec fn follows<C, R>(
    before: DispatcherView,
    event: Event<C, R>,
    phase: Phase,
    action: Action<C, R>,
) -> bool {
    match event {
        Event::Begin => {
            &&& phase == Phase::Connecting
            &&& action matches Action::Connect { addresses }
            &&& addresses.deep_view() == before.registry
        },
        Event::ConnectionsSettled { attempts } => {
            if all_succeeded(attempts@) {
                &&& phase == Phase::Calling
                &&& action matches Action::Call { connections, messages }
                &&& connections@ == successes(attempts@)
                &&& messages@.len() == connections@.len()
                &&& forall|i: int|
                    0 <= i < messages@.len() ==> (#[trigger] messages@[i])@ == before.request
            } else {
                &&& phase == Phase::Finished
                &&& action matches Action::Finish { outcome }
                &&& outcome matches Err(DispatchError::Connect(error))
                &&& error.reports(before.registry, attempts@)
            }
        },
        Event::CallsSettled { results } => {
            &&& phase == Phase::Finished
            &&& action matches Action::Finish { outcome }
            &&& is_aggregate_of(outcome, results@)
        },
    }
}

/// How far a phase is from the start: every step moves a dispatch on.
pub open spec fn progress(phase: Phase) -> nat {
    match phase {
        Phase::Ready => 0,
        Phase::Connecting => 1,
        Phase::Calling => 2,
        Phase::Finished => 3,
    }
}

impl Dispatcher {
    /// A dispatch of `request` to the nodes of `registry`, not yet begun.
    pub fn new(registry: NodeRegistry, request: ExecutionRequest) -> (dispatcher: Dispatcher)
        ensures
            dispatcher@ == (DispatcherView {
                registry: registry@,
                request: request@,
                phase: Phase::Ready,
            }),
    {
        Dispatcher { registry, request, phase: Phase::Ready }
    }

    /// The nodes of the dispatch.
    pub fn registry(&self) -> (registry: &NodeRegistry)
        ensures
            registry@ == self@.registry,
    {
        &self.registry
    }

    /// The request of the dispatch.
    pub fn request(&self) -> (request: &ExecutionRequest)
        ensures
            request@ == self@.request,
    {
        &self.request
    }

    /// How far the dispatch has come.
    pub fn phase(&self) -> (phase: Phase)
        ensures
            phase == self@.phase,
    {
        self.phase
    }

    /// Whether `event` is what the dispatch waits for. A caller that cannot
    /// know asks this before it calls `step`.
    pub fn accepts<C, R>(&self, event: &Event<C, R>) -> (yes: bool)
        ensures
            yes == expects(self@, *event),
    {
        match event {
            Event::Begin => self.phase == Phase::Ready,
            Event::ConnectionsSettled { attempts } => self.phase == Phase::Connecting
                && attempts.len() == self.registry.len(),
            Event::CallsSettled { results } => self.phase == Phase::Calling && results.len()
                == self.registry.len(),
        }
    }

    /// Takes the dispatch one step on: from the event that the caller reports
    /// to the next state and to what the caller is to do next. The registry and
    /// the request stay as they are.
    pub fn step<C, R>(self, event: Event<C, R>) -> (next: (Dispatcher, Action<C, R>))
        requires
            expects(self@, event),
        ensures
            next.0@.registry == self@.registry,
            next.0@.request == self@.request,
            follows(self@, event, next.0@.phase, next.1),
    {
        let Dispatcher { registry, request, phase: _ } = self;
        match event {
            Event::Begin => {
                let addresses = copy_names(registry.addresses());
                (
                    Dispatcher { registry, request, phase: Phase::Connecting },
                    Action::Connect { addresses },
                )
            },
            Event::ConnectionsSettled { attempts } => match connect_all(&registry, attempts) {
                Ok(connections) => {
                    let messages = request.replicate(connections.len());
                    (
                        Dispatcher { registry, request, phase: Phase::Calling },
                        Action::Call { connections, messages },
                    )
                },
                Err(error) => (
                    Dispatcher { registry, request, phase: Phase::Finished },
                    Action::Finish { outcome: Err(DispatchError::Connect(error)) },
                ),
            },
            Event::CallsSettled { results } => (
                Dispatcher { registry, request, phase: Phase::Finished },
                Action::Finish { outcome: aggregate(results) },
            ),
        }
    }
}

/// The calls of one dispatch are one per connected node, and every message
/// carries the one correlation identifier of the request.
pub proof fn calls_share_one_correlation_id<C, R>(
    before: DispatcherView,
    attempts: Vec<Result<C, ConnectFailure>>,
    phase: Phase,
    connections: Vec<C>,
    messages: Vec<ExecutionRequest>,
)
    requires
        expects(before, Event::<C, R>::ConnectionsSettled { attempts }),
        follows(
            before,
            Event::<C, R>::ConnectionsSettled { attempts },
            phase,
            Action::<C, R>::Call { connections, messages },
        ),
    ensures
        messages@.len() == before.registry.len(),
        messages@.len() == connections@.len(),
        forall|i: int|
            0 <= i < messages@.len() ==> (#[trigger] messages@[i])@.correlation_id
                == before.request.correlation_id,
        forall|i: int, j: int|
            0 <= i < messages@.len() && 0 <= j < messages@.len() ==> {
                (#[trigger] messages@[i])@.correlation_id == (#[trigger] messages@[j])@.correlation_id
            },
{
}

/// Where a connection attempt failed, the dispatch is over: the outcome is the
/// connection error, and no call is asked for.
pub proof fn failed_connection_ends_the_dispatch<C, R>(
    before: DispatcherView,
    attempts: Vec<Result<C, ConnectFailure>>,
    phase: Phase,
    action: Action<C, R>,
)
    requires
        follows(before, Event::<C, R>::ConnectionsSettled { attempts }, phase, action),
        !all_succeeded(attempts@),
    ensures
        phase == Phase::Finished,
        action matches Action::Finish { outcome } && outcome matches Err(DispatchError::Connect(_)),
        forall|state: DispatcherView, event: Event<C, R>|
            state.phase == phase ==> !expects(state, event),
{
}

/// Every step moves a dispatch on, so a dispatch takes three steps at most:
/// it begins, it learns of the connections, it learns of the calls. A finished
/// dispatch waits for nothing.
pub proof fn every_step_moves_on<C, R>(
    before: DispatcherView,
    event: Event<C, R>,
    phase: Phase,
    action: Action<C, R>,
)
    requires
        expects(before, event),
        follows(before, event, phase, action),
    ensures
        progress(before.phase) < progress(phase) <= 3,
        action is Finish <==> phase == Phase::Finished,
        before.phase != Phase::Finished,
{
}

} // verus!
