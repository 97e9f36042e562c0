//! Moving focus in a direction, and looking up the neighbour of a pane.
//!
//! Both take several calls to the session service. The decisions between the
//! calls are made here, one reply at a time: the caller sends the request it
//! is given, hands back the reply, and goes on until it is given the result.

use crate::clients::{current_of, current_pane, ClientInfo, NoFocusedPaneError};
use crate::direction::{named, Direction, InvalidDirectionError};
use crate::ops::{acknowledged, focus_pane, outcome_of, Operation, OperationError};
use crate::service::{
    clients, clients_in, neighbor, neighbor_in, Reply, Request, ServiceCall, ServiceCallError,
};
use vstd::prelude::*;

verus! {

/// Why a navigation or a lookup ended without a result.
#[derive(Clone, Debug, PartialEq, Eq)]
pub enum NavigateError {
    NoFocusedPane(NoFocusedPaneError),
    ServiceCall(ServiceCallError),
    Operation(OperationError),
}

/// What to do after a reply: send another request and wait in the state
/// given, or stop with the result.
#[derive(Debug, PartialEq, Eq)]
pub enum Step<S, T> {
    Ask(S, Request),
    Done(Result<T, NavigateError>),
}

/// Where a navigation stands: which reply it waits for, and what it knows.
#[derive(Clone, Copy, Debug, PartialEq, Eq, Structural)]
pub enum Navigation {
    /// Waiting for the clients, to learn the current pane.
    AwaitingClients { direction: Direction },
    /// Waiting for the neighbour of the current pane.
    AwaitingNeighbor { current: usize, direction: Direction },
    /// Waiting for the focus on `target` to be acknowledged.
    AwaitingFocus { before: usize, target: usize },
    /// Waiting for the clients again, to see whether the focus has moved
    /// away from `before`.
    AwaitingConfirmation { before: usize },
}

/// Where a lookup of a neighbour stands.
#[derive(Clone, Copy, Debug, PartialEq, Eq, Structural)]
pub enum Lookup {
    /// Waiting for the clients, to learn the current pane.
    AwaitingClients { direction: Direction },
    /// Waiting for the neighbour of `pane_id`.
    AwaitingNeighbor { pane_id: usize, direction: Direction },
}

/// The current pane according to a reply that should list the clients.
pub open spec fn current_in(reply: Reply) -> Result<usize, NavigateError> {
    match clients_in(reply) {
        Ok(clients) => match current_of(clients@) {
            Some(pane_id) => Ok(pane_id),
            None => Err(NavigateError::NoFocusedPane(NoFocusedPaneError {  })),
        },
        Err(error) => Err(NavigateError::ServiceCall(error)),
    }
}

/// Reads the current pane from the reply to a request for the clients.
pub fn current(reply: Reply) -> (r: Result<usize, NavigateError>)
    ensures
        r == current_in(reply),
{
    match clients(reply) {
        Ok(clients) => match current_pane(&clients) {
            Ok(pane_id) => Ok(pane_id),
            Err(error) => Err(NavigateError::NoFocusedPane(error)),
        },
        Err(error) => Err(NavigateError::ServiceCall(error)),
    }
}

impl Navigation {
    /// The call whose reply the navigation waits for.
    pub open spec fn awaited(self) -> ServiceCall {
        match self {
            Navigation::AwaitingClients { .. } => ServiceCall::ListClients,
            Navigation::AwaitingNeighbor { .. } => ServiceCall::GetPaneDirection,
            Navigation::AwaitingFocus { .. } => ServiceCall::SetFocusedPane,
            Navigation::AwaitingConfirmation { .. } => ServiceCall::ListClients,
        }
    }

    /// How many more calls the navigation can make at most, the one it
    /// waits for not counted.
    pub open spec fn calls_left(self) -> nat {
        match self {
            Navigation::AwaitingClients { .. } => 3,
            Navigation::AwaitingNeighbor { .. } => 2,
            Navigation::AwaitingFocus { .. } => 1,
            Navigation::AwaitingConfirmation { .. } => 0,
        }
    }

    /// How many requests for the focus the navigation can still make.
    pub open spec fn focus_requests_left(self) -> nat {
        match self {
            Navigation::AwaitingClients { .. } => 1,
            Navigation::AwaitingNeighbor { .. } => 1,
            Navigation::AwaitingFocus { .. } => 0,
            Navigation::AwaitingConfirmation { .. } => 0,
        }
    }

    /// What follows when `reply` arrives in state `self`.
    ///
    /// The clients give the current pane, whose neighbour is asked for. No
    /// neighbour ends the navigation unmoved. A neighbour is given the
    /// focus; if it is another pane than the current one, the navigation has
    /// moved, and if it is the current pane itself, the clients are asked
    /// again and the navigation has moved exactly if the current pane is
    /// then another one. A call that fails ends the navigation with its
    /// error.
    pub open spec fn next(self, reply: Reply) -> Step<Navigation, bool> {
        match self {
            Navigation::AwaitingClients { direction } => match current_in(reply) {
                Ok(current) => Step::Ask(
                    Navigation::AwaitingNeighbor { current, direction },
                    Request::GetPaneDirection { pane_id: current, direction },
                ),
                Err(error) => Step::Done(Err(error)),
            },
            Navigation::AwaitingNeighbor { current, direction } => match neighbor_in(reply) {
                Ok(Some(target)) => Step::Ask(
                    Navigation::AwaitingFocus { before: current, target },
                    Request::SetFocusedPane { pane_id: target },
                ),
                Ok(None) => Step::Done(Ok(false)),
                Err(error) => Step::Done(Err(NavigateError::ServiceCall(error))),
            },
            Navigation::AwaitingFocus { before, target } => match outcome_of(
                Operation::Focus,
                target,
                reply,
            ) {
                Ok(_) => if target != before {
                    Step::Done(Ok(true))
                } else {
                    Step::Ask(Navigation::AwaitingConfirmation { before }, Request::ListClients)
                },
                Err(error) => Step::Done(Err(NavigateError::Operation(error))),
            },
            Navigation::AwaitingConfirmation { before } => match current_in(reply) {
                Ok(current) => Step::Done(Ok(current != before)),
                Err(error) => Step::Done(Err(error)),
            },
        }
    }

    /// How a navigation in state `self` ends that gets `replies` in turn, if
    /// they are enough for it to end.
    pub open spec fn outcome(self, replies: Seq<Reply>) -> Option<Result<bool, NavigateError>>
        decreases replies.len(),
    {
        if replies.len() == 0 {
            None
        } else {
            match self.next(replies.first()) {
                Step::Done(result) => Some(result),
                Step::Ask(state, _) => state.outcome(replies.drop_first()),
            }
        }
    }

    /// The requests that a navigation in state `self` makes as it gets
    /// `replies` in turn.
    pub open spec fn asked(self, replies: Seq<Reply>) -> Seq<Request>
        decreases replies.len(),
    {
        if replies.len() == 0 {
            Seq::empty()
        } else {
            match self.next(replies.first()) {
                Step::Done(_) => Seq::empty(),
                Step::Ask(state, request) => seq![request] + state.asked(replies.drop_first()),
            }
        }
    }

    /// Begins a navigation in `direction`: the state to wait in, and the
    /// first request.
    pub fn start(direction: Direction) -> (r: (Navigation, Request))
        ensures
            r == (Navigation::AwaitingClients { direction }, Request::ListClients),
    {
        (Navigation::AwaitingClients { direction }, Request::ListClients)
    }

    /// Begins a navigation in the direction that `name` spells. A name that
    /// spells none fails here, before anything is asked of the service.
    pub fn start_named(name: &str) -> (r: Result<(Navigation, Request), InvalidDirectionError>)
        ensures
            match r {
                Ok(begun) => named(name@) matches Some(direction) && begun == (
                    Navigation::AwaitingClients { direction },
                    Request::ListClients,
                ),
                Err(error) => named(name@) is None && error.name@ == name@,
            },
    {
        match Direction::from_name(name) {
            Ok(direction) => Ok(Navigation::start(direction)),
            Err(error) => Err(error),
        }
    }

    /// What follows when `reply` arrives.
    pub fn advance(self, reply: Reply) -> (r: Step<Navigation, bool>)
        ensures
            r == self.next(reply),
    {
        match self {
            Navigation::AwaitingClients { direction } => match current(reply) {
                Ok(current) => Step::Ask(
                    Navigation::AwaitingNeighbor { current, direction },
                    Request::GetPaneDirection { pane_id: current, direction },
                ),
                Err(error) => Step::Done(Err(error)),
            },
            Navigation::AwaitingNeighbor { current, direction: _ } => match neighbor(reply) {
                Ok(Some(target)) => Step::Ask(
                    Navigation::AwaitingFocus { before: current, target },
                    focus_pane(target),
                ),
                Ok(None) => Step::Done(Ok(false)),
                Err(error) => Step::Done(Err(NavigateError::ServiceCall(error))),
            },
            Navigation::AwaitingFocus { before, target } => match acknowledged(
                Operation::Focus,
                target,
                reply,
            ) {
                Ok(_) => {
                    if target != before {
                        Step::Done(Ok(true))
                    } else {
                        Step::Ask(Navigation::AwaitingConfirmation { before }, Request::ListClients)
                    }
                },
                Err(error) => Step::Done(Err(NavigateError::Operation(error))),
            },
            Navigation::AwaitingConfirmation { before } => match current(reply) {
                Ok(current) => Step::Done(Ok(current != before)),
                Err(error) => Step::Done(Err(error)),
            },
        }
    }
}

/// A navigation is over after four calls at most: each request that it
/// makes leaves it fewer calls, and is the one that its next state waits
/// for.
pub proof fn lemma_navigation_ends(state: Navigation, reply: Reply)
    ensures
        state.next(reply) matches Step::Ask(next, request) ==> next.calls_left()
            < state.calls_left() && request.call_of() == next.awaited(),
{
}

/// A navigation asks for the focus at most once: a request for it uses up
/// the one that a navigation has, and no step gives it back.
pub proof fn lemma_focus_asked_once(state: Navigation, reply: Reply)
    ensures
        state.next(reply) matches Step::Ask(next, request) ==> next.focus_requests_left() + (
        if request.call_of() == ServiceCall::SetFocusedPane {
            1nat
        } else {
            0nat
        }) <= state.focus_requests_left(),
{
}

/// Where the service names another pane as the neighbour, the navigation
/// asks for the neighbour, then once for the focus on it, and has moved.
pub proof fn lemma_navigation_moves(
    direction: Direction,
    clients: Vec<ClientInfo>,
    current: usize,
    target: usize,
)
    requires
        current_of(clients@) == Some(current),
        target != current,
    ensures
        (Navigation::AwaitingClients { direction }).outcome(
            seq![Reply::Clients(clients), Reply::Neighbor(Some(target)), Reply::Acknowledged],
        ) == Some(Ok::<bool, NavigateError>(true)),
        (Navigation::AwaitingClients { direction }).asked(
            seq![Reply::Clients(clients), Reply::Neighbor(Some(target)), Reply::Acknowledged],
        ) == seq![
            Request::GetPaneDirection { pane_id: current, direction },
            Request::SetFocusedPane { pane_id: target },
        ],
{
    let replies = seq![Reply::Clients(clients), Reply::Neighbor(Some(target)), Reply::Acknowledged];
    let second = Navigation::AwaitingNeighbor { current, direction };
    let third = Navigation::AwaitingFocus { before: current, target };
    let after_first = replies.drop_first();
    let after_second = after_first.drop_first();
    assert(third.asked(after_second) =~= Seq::<Request>::empty());
    assert(second.outcome(after_first) == third.outcome(after_second));
    assert(second.asked(after_first) =~= seq![Request::SetFocusedPane { pane_id: target }]);
}

/// Where the service names no neighbour, the navigation asks for the
/// neighbour and for nothing more, and has not moved.
pub proof fn lemma_navigation_stays(direction: Direction, clients: Vec<ClientInfo>, current: usize)
    requires
        current_of(clients@) == Some(current),
    ensures
        (Navigation::AwaitingClients { direction }).outcome(
            seq![Reply::Clients(clients), Reply::Neighbor(None)],
        ) == Some(Ok::<bool, NavigateError>(false)),
        (Navigation::AwaitingClients { direction }).asked(
            seq![Reply::Clients(clients), Reply::Neighbor(None)],
        ) == seq![Request::GetPaneDirection { pane_id: current, direction }],
{
    let replies = seq![Reply::Clients(clients), Reply::Neighbor(None)];
    let second = Navigation::AwaitingNeighbor { current, direction };
    let after_first = replies.drop_first();
    assert(second.outcome(after_first) == Some(Ok::<bool, NavigateError>(false)));
    assert(second.asked(after_first) =~= Seq::<Request>::empty());
}

/// Where the service names the current pane itself as the neighbour, the
/// navigation asks for the focus once, then for the clients again, and has
/// moved exactly if the current pane is then another one.
pub proof fn lemma_navigation_to_itself(
    direction: Direction,
    clients: Vec<ClientInfo>,
    current: usize,
    clients_after: Vec<ClientInfo>,
    current_after: usize,
)
    requires
        current_of(clients@) == Some(current),
        current_of(clients_after@) == Some(current_after),
    ensures
        (Navigation::AwaitingClients { direction }).outcome(
            seq![
                Reply::Clients(clients),
                Reply::Neighbor(Some(current)),
                Reply::Acknowledged,
                Reply::Clients(clients_after),
            ],
        ) == Some(Ok::<bool, NavigateError>(current_after != current)),
        (Navigation::AwaitingClients { direction }).asked(
            seq![
                Reply::Clients(clients),
                Reply::Neighbor(Some(current)),
                Reply::Acknowledged,
                Reply::Clients(clients_after),
            ],
        ) == seq![
            Request::GetPaneDirection { pane_id: current, direction },
            Request::SetFocusedPane { pane_id: current },
            Request::ListClients,
        ],
{
    let replies = seq![
        Reply::Clients(clients),
        Reply::Neighbor(Some(current)),
        Reply::Acknowledged,
        Reply::Clients(clients_after),
    ];
    let second = Navigation::AwaitingNeighbor { current, direction };
    let third = Navigation::AwaitingFocus { before: current, target: current };
    let fourth = Navigation::AwaitingConfirmation { before: current };
    let after_first = replies.drop_first();
    let after_second = after_first.drop_first();
    let after_third = after_second.drop_first();
    assert(fourth.asked(after_third) =~= Seq::<Request>::empty());
    assert(third.outcome(after_second) == fourth.outcome(after_third));
    assert(third.asked(after_second) =~= seq![Request::ListClients]);
    assert(second.outcome(after_first) == third.outcome(after_second));
    assert(second.asked(after_first) =~= seq![
        Request::SetFocusedPane { pane_id: current },
        Request::ListClients,
    ]);
}

impl Lookup {
    /// The call whose reply the lookup waits for.
    pub open spec fn awaited(self) -> ServiceCall {
        match self {
            Lookup::AwaitingClients { .. } => ServiceCall::ListClients,
            Lookup::AwaitingNeighbor { .. } => ServiceCall::GetPaneDirection,
        }
    }

    /// How many more calls the lookup can make at most, the one it waits
    /// for not counted.
    pub open spec fn calls_left(self) -> nat {
        match self {
            Lookup::AwaitingClients { .. } => 1,
            Lookup::AwaitingNeighbor { .. } => 0,
        }
    }

    /// What a lookup begins with: the question itself where the pane is
    /// given, else the request for the clients, to learn the current pane.
    pub open spec fn begun(pane_id: Option<usize>, direction: Direction) -> (Lookup, Request) {
        match pane_id {
            Some(pane_id) => (
                Lookup::AwaitingNeighbor { pane_id, direction },
                Request::GetPaneDirection { pane_id, direction },
            ),
            None => (Lookup::AwaitingClients { direction }, Request::ListClients),
        }
    }

    /// What follows when `reply` arrives in state `self`.
    ///
    /// The clients give the current pane, whose neighbour is asked for. The
    /// neighbour, or that there is none, is the result. A call that fails
    /// ends the lookup with its error.
    pub open spec fn next(self, reply: Reply) -> Step<Lookup, Option<usize>> {
        match self {
            Lookup::AwaitingClients { direction } => match current_in(reply) {
                Ok(current) => Step::Ask(
                    Lookup::AwaitingNeighbor { pane_id: current, direction },
                    Request::GetPaneDirection { pane_id: current, direction },
                ),
                Err(error) => Step::Done(Err(error)),
            },
            Lookup::AwaitingNeighbor { .. } => match neighbor_in(reply) {
                Ok(found) => Step::Done(Ok(found)),
                Err(error) => Step::Done(Err(NavigateError::ServiceCall(error))),
            },
        }
    }

    /// Begins the lookup of the neighbour of `pane_id`, or of the current
    /// pane where none is given, in `direction`.
    pub fn start(pane_id: Option<usize>, direction: Direction) -> (r: (Lookup, Request))
        ensures
            r == Lookup::begun(pane_id, direction),
    {
        match pane_id {
            Some(pane_id) => (
                Lookup::AwaitingNeighbor { pane_id, direction },
                Request::GetPaneDirection { pane_id, direction },
            ),
            None => (Lookup::AwaitingClients { direction }, Request::ListClients),
        }
    }

    /// Begins a lookup in the direction that `name` spells. A name that
    /// spells none fails here, before anything is asked of the service.
    pub fn start_named(pane_id: Option<usize>, name: &str) -> (r: Result<
        (Lookup, Request),
        InvalidDirectionError,
    >)
        ensures
            match r {
                Ok(begun) => named(name@) matches Some(direction) && begun == Lookup::begun(
                    pane_id,
                    direction,
                ),
                Err(error) => named(name@) is None && error.name@ == name@,
            },
    {
        match Direction::from_name(name) {
            Ok(direction) => Ok(Lookup::start(pane_id, direction)),
            Err(error) => Err(error),
        }
    }

    /// What follows when `reply` arrives.
    pub fn advance(self, reply: Reply) -> (r: Step<Lookup, Option<usize>>)
        ensures
            r == self.next(reply),
    {
        match self {
            Lookup::AwaitingClients { direction } => match current(reply) {
                Ok(current) => Step::Ask(
                    Lookup::AwaitingNeighbor { pane_id: current, direction },
                    Request::GetPaneDirection { pane_id: current, direction },
                ),
                Err(error) => Step::Done(Err(error)),
            },
            Lookup::AwaitingNeighbor { .. } => match neighbor(reply) {
                Ok(found) => Step::Done(Ok(found)),
                Err(error) => Step::Done(Err(NavigateError::ServiceCall(error))),
            },
        }
    }
}

/// A lookup is over after two calls at most.
pub proof fn lemma_lookup_ends(state: Lookup, reply: Reply)
    ensures
        state.next(reply) matches Step::Ask(next, request) ==> next.calls_left()
            < state.calls_left() && request.call_of() == next.awaited(),
{
}

} // verus!
