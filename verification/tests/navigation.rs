use pane_nav::clients::{ClientInfo, NoFocusedPaneError};
use pane_nav::direction::{Direction, InvalidDirectionError};
use pane_nav::navigate::{current, Lookup, NavigateError, Navigation, Step};
use pane_nav::ops::{Operation, OperationError};
use pane_nav::service::{Cause, Reply, Request, ServiceCall, ServiceCallError};

/// A session of two panes, 0 above 1, with one client. It answers requests
/// and counts them.
struct TwoPanes {
    focused: usize,
    /// Whether a focus request moves the focus.
    obeys: bool,
    /// What the service says of the neighbour below pane 1 and above pane 0.
    beyond: Option<usize>,
    focus_calls: usize,
    calls: usize,
}

impl TwoPanes {
    fn new(focused: usize) -> TwoPanes {
        TwoPanes { focused, obeys: true, beyond: None, focus_calls: 0, calls: 0 }
    }

    fn answer(&mut self, request: Request) -> Reply {
        self.calls += 1;
        match request {
            Request::ListClients => Reply::Clients(vec![
                ClientInfo { focused_pane_id: None, last_input: 99 },
                ClientInfo { focused_pane_id: Some(self.focused), last_input: 10 },
            ]),
            Request::GetPaneDirection { pane_id, direction } => Reply::Neighbor(match (pane_id, direction) {
                (1, Direction::Up) => Some(0),
                (0, Direction::Down) => Some(1),
                (0, Direction::Next) => Some(1),
                (1, Direction::Prev) => Some(0),
                (1, Direction::Next) => self.beyond,
                _ => None,
            }),
            Request::SetFocusedPane { pane_id } => {
                self.focus_calls += 1;
                if self.obeys {
                    self.focused = pane_id;
                }
                Reply::Acknowledged
            }
            _ => Reply::Failed("not served".to_string()),
        }
    }

    fn navigate(&mut self, direction: Direction) -> Result<bool, NavigateError> {
        let (mut state, mut request) = Navigation::start(direction);
        loop {
            let reply = self.answer(request);
            match state.advance(reply) {
                Step::Ask(next, asked) => {
                    state = next;
                    request = asked;
                }
                Step::Done(result) => return result,
            }
        }
    }

    fn lookup(&mut self, pane_id: Option<usize>, direction: Direction) -> Result<Option<usize>, NavigateError> {
        let (mut state, mut request) = Lookup::start(pane_id, direction);
        loop {
            let reply = self.answer(request);
            match state.advance(reply) {
                Step::Ask(next, asked) => {
                    state = next;
                    request = asked;
                }
                Step::Done(result) => return result,
            }
        }
    }
}

#[test]
fn navigate_up_focuses_the_upper_pane_once() {
    let mut session = TwoPanes::new(1);
    assert_eq!(session.navigate(Direction::Up), Ok(true));
    assert_eq!(session.focus_calls, 1);
    assert_eq!(session.focused, 0);
    assert_eq!(session.calls, 3);
}

#[test]
fn navigate_up_from_the_top_pane_does_not_focus() {
    let mut session = TwoPanes::new(1);
    assert_eq!(session.navigate(Direction::Up), Ok(true));
    assert_eq!(session.navigate(Direction::Up), Ok(false));
    assert_eq!(session.focus_calls, 1);
    assert_eq!(session.focused, 0);
    // the second navigation asked for the clients and for the neighbour only
    assert_eq!(session.calls, 5);
}

#[test]
fn navigate_to_oneself_has_not_moved() {
    let mut session = TwoPanes::new(1);
    session.beyond = Some(1);
    assert_eq!(session.navigate(Direction::Next), Ok(false));
    assert_eq!(session.focus_calls, 1);
    assert_eq!(session.focused, 1);
    // clients, neighbour, focus, clients again
    assert_eq!(session.calls, 4);
}

#[test]
fn navigation_starts_by_asking_for_the_clients() {
    assert_eq!(
        Navigation::start(Direction::Left),
        (Navigation::AwaitingClients { direction: Direction::Left }, Request::ListClients)
    );
}

#[test]
fn navigation_by_name_starts_like_navigation() {
    assert_eq!(Navigation::start_named("Right"), Ok(Navigation::start(Direction::Right)));
}

#[test]
fn navigation_by_invalid_name_fails_before_any_request() {
    assert_eq!(
        Navigation::start_named("Sideways"),
        Err(InvalidDirectionError { name: "Sideways".to_string() })
    );
    assert_eq!(
        Navigation::start_named("right"),
        Err(InvalidDirectionError { name: "right".to_string() })
    );
}

#[test]
fn clients_lead_to_the_question_for_the_neighbour() {
    let state = Navigation::AwaitingClients { direction: Direction::Down };
    let reply = Reply::Clients(vec![
        ClientInfo { focused_pane_id: Some(3), last_input: 10 },
        ClientInfo { focused_pane_id: Some(7), last_input: 20 },
        ClientInfo { focused_pane_id: None, last_input: 30 },
    ]);
    assert_eq!(
        state.advance(reply),
        Step::Ask(
            Navigation::AwaitingNeighbor { current: 7, direction: Direction::Down },
            Request::GetPaneDirection { pane_id: 7, direction: Direction::Down },
        )
    );
}

#[test]
fn navigation_fails_without_a_focused_pane() {
    let state = Navigation::AwaitingClients { direction: Direction::Down };
    let reply = Reply::Clients(vec![ClientInfo { focused_pane_id: None, last_input: 30 }]);
    assert_eq!(
        state.advance(reply),
        Step::Done(Err(NavigateError::NoFocusedPane(NoFocusedPaneError {})))
    );
    let state = Navigation::AwaitingConfirmation { before: 4 };
    assert_eq!(
        state.advance(Reply::Clients(Vec::new())),
        Step::Done(Err(NavigateError::NoFocusedPane(NoFocusedPaneError {})))
    );
}

#[test]
fn neighbour_is_given_the_focus() {
    let state = Navigation::AwaitingNeighbor { current: 7, direction: Direction::Down };
    assert_eq!(
        state.advance(Reply::Neighbor(Some(8))),
        Step::Ask(
            Navigation::AwaitingFocus { before: 7, target: 8 },
            Request::SetFocusedPane { pane_id: 8 },
        )
    );
    assert_eq!(state.advance(Reply::Neighbor(None)), Step::Done(Ok(false)));
}

#[test]
fn acknowledged_focus_on_another_pane_has_moved() {
    let state = Navigation::AwaitingFocus { before: 7, target: 8 };
    assert_eq!(state.advance(Reply::Acknowledged), Step::Done(Ok(true)));
}

#[test]
fn acknowledged_focus_on_the_same_pane_is_confirmed_by_the_clients() {
    let state = Navigation::AwaitingFocus { before: 7, target: 7 };
    assert_eq!(
        state.advance(Reply::Acknowledged),
        Step::Ask(Navigation::AwaitingConfirmation { before: 7 }, Request::ListClients)
    );
    let state = Navigation::AwaitingConfirmation { before: 7 };
    let same = Reply::Clients(vec![ClientInfo { focused_pane_id: Some(7), last_input: 1 }]);
    assert_eq!(state.advance(same), Step::Done(Ok(false)));
    let other = Reply::Clients(vec![ClientInfo { focused_pane_id: Some(9), last_input: 1 }]);
    assert_eq!(state.advance(other), Step::Done(Ok(true)));
}

#[test]
fn failed_call_ends_the_navigation_with_its_error() {
    let lost = || Reply::Failed("connection lost".to_string());
    let service = |call| {
        Step::Done(Err(NavigateError::ServiceCall(ServiceCallError {
            call,
            cause: Cause::Refused("connection lost".to_string()),
        })))
    };
    assert_eq!(
        Navigation::AwaitingClients { direction: Direction::Up }.advance(lost()),
        service(ServiceCall::ListClients)
    );
    assert_eq!(
        Navigation::AwaitingNeighbor { current: 1, direction: Direction::Up }.advance(lost()),
        service(ServiceCall::GetPaneDirection)
    );
    assert_eq!(
        Navigation::AwaitingConfirmation { before: 1 }.advance(lost()),
        service(ServiceCall::ListClients)
    );
    assert_eq!(
        Navigation::AwaitingFocus { before: 1, target: 2 }.advance(lost()),
        Step::Done(Err(NavigateError::Operation(OperationError {
            kind: Operation::Focus,
            pane_id: 2,
            cause: Cause::Refused("connection lost".to_string()),
        })))
    );
}

#[test]
fn reply_of_the_wrong_kind_ends_the_navigation() {
    let wrong = |call| {
        Step::Done(Err(NavigateError::ServiceCall(ServiceCallError {
            call,
            cause: Cause::UnexpectedReply,
        })))
    };
    let clients = || Reply::Clients(Vec::new());
    assert_eq!(
        Navigation::AwaitingClients { direction: Direction::Up }.advance(Reply::Tabs(Vec::new())),
        wrong(ServiceCall::ListClients)
    );
    assert_eq!(
        Navigation::AwaitingClients { direction: Direction::Up }.advance(Reply::Neighbor(Some(1))),
        wrong(ServiceCall::ListClients)
    );
    assert_eq!(
        Navigation::AwaitingClients { direction: Direction::Up }.advance(Reply::Acknowledged),
        wrong(ServiceCall::ListClients)
    );
    assert_eq!(
        Navigation::AwaitingNeighbor { current: 1, direction: Direction::Up }.advance(clients()),
        wrong(ServiceCall::GetPaneDirection)
    );
    assert_eq!(
        Navigation::AwaitingNeighbor { current: 1, direction: Direction::Up }.advance(Reply::Acknowledged),
        wrong(ServiceCall::GetPaneDirection)
    );
    let unfocused = || {
        Step::Done(Err(NavigateError::Operation(OperationError {
            kind: Operation::Focus,
            pane_id: 2,
            cause: Cause::UnexpectedReply,
        })))
    };
    assert_eq!(Navigation::AwaitingFocus { before: 1, target: 2 }.advance(clients()), unfocused());
    assert_eq!(
        Navigation::AwaitingFocus { before: 1, target: 2 }.advance(Reply::Neighbor(None)),
        unfocused()
    );
    assert_eq!(
        Navigation::AwaitingConfirmation { before: 1 }.advance(Reply::Neighbor(None)),
        wrong(ServiceCall::ListClients)
    );
    assert_eq!(
        Navigation::AwaitingConfirmation { before: 1 }.advance(Reply::Acknowledged),
        wrong(ServiceCall::ListClients)
    );
}

#[test]
fn current_pane_is_read_from_the_clients_reply() {
    let reply = Reply::Clients(vec![
        ClientInfo { focused_pane_id: Some(3), last_input: 10 },
        ClientInfo { focused_pane_id: Some(7), last_input: 20 },
        ClientInfo { focused_pane_id: None, last_input: 30 },
    ]);
    assert_eq!(current(reply), Ok(7));
    assert_eq!(
        current(Reply::Clients(vec![ClientInfo { focused_pane_id: None, last_input: 30 }])),
        Err(NavigateError::NoFocusedPane(NoFocusedPaneError {}))
    );
    assert_eq!(
        current(Reply::Failed("connection lost".to_string())),
        Err(NavigateError::ServiceCall(ServiceCallError {
            call: ServiceCall::ListClients,
            cause: Cause::Refused("connection lost".to_string()),
        }))
    );
    assert_eq!(
        current(Reply::Acknowledged),
        Err(NavigateError::ServiceCall(ServiceCallError {
            call: ServiceCall::ListClients,
            cause: Cause::UnexpectedReply,
        }))
    );
}

#[test]
fn lookup_of_a_given_pane_is_a_single_question() {
    assert_eq!(
        Lookup::start(Some(5), Direction::Left),
        (
            Lookup::AwaitingNeighbor { pane_id: 5, direction: Direction::Left },
            Request::GetPaneDirection { pane_id: 5, direction: Direction::Left },
        )
    );
    let mut session = TwoPanes::new(1);
    assert_eq!(session.lookup(Some(0), Direction::Down), Ok(Some(1)));
    assert_eq!(session.calls, 1);
    assert_eq!(session.lookup(Some(0), Direction::Up), Ok(None));
    assert_eq!(session.calls, 2);
    assert_eq!(session.focus_calls, 0);
}

#[test]
fn lookup_without_a_pane_starts_from_the_current_one() {
    assert_eq!(
        Lookup::start(None, Direction::Up),
        (Lookup::AwaitingClients { direction: Direction::Up }, Request::ListClients)
    );
    let mut session = TwoPanes::new(1);
    assert_eq!(session.lookup(None, Direction::Up), Ok(Some(0)));
    assert_eq!(session.calls, 2);
    assert_eq!(session.focused, 1);
}

#[test]
fn lookup_by_name() {
    assert_eq!(Lookup::start_named(Some(2), "Prev"), Ok(Lookup::start(Some(2), Direction::Prev)));
    assert_eq!(Lookup::start_named(None, "Next"), Ok(Lookup::start(None, Direction::Next)));
    assert_eq!(
        Lookup::start_named(Some(2), "prev"),
        Err(InvalidDirectionError { name: "prev".to_string() })
    );
}

#[test]
fn lookup_fails_like_navigation() {
    assert_eq!(
        Lookup::AwaitingClients { direction: Direction::Up }.advance(Reply::Clients(Vec::new())),
        Step::Done(Err(NavigateError::NoFocusedPane(NoFocusedPaneError {})))
    );
    assert_eq!(
        Lookup::AwaitingNeighbor { pane_id: 1, direction: Direction::Up }
            .advance(Reply::Failed("gone".to_string())),
        Step::Done(Err(NavigateError::ServiceCall(ServiceCallError {
            call: ServiceCall::GetPaneDirection,
            cause: Cause::Refused("gone".to_string()),
        })))
    );
    assert_eq!(
        Lookup::AwaitingClients { direction: Direction::Up }.advance(Reply::Failed("gone".to_string())),
        Step::Done(Err(NavigateError::ServiceCall(ServiceCallError {
            call: ServiceCall::ListClients,
            cause: Cause::Refused("gone".to_string()),
        })))
    );
    assert_eq!(
        Lookup::AwaitingNeighbor { pane_id: 1, direction: Direction::Up }.advance(Reply::Acknowledged),
        Step::Done(Err(NavigateError::ServiceCall(ServiceCallError {
            call: ServiceCall::GetPaneDirection,
            cause: Cause::UnexpectedReply,
        })))
    );
    assert_eq!(
        Lookup::AwaitingClients { direction: Direction::Up }.advance(Reply::Neighbor(None)),
        Step::Done(Err(NavigateError::ServiceCall(ServiceCallError {
            call: ServiceCall::ListClients,
            cause: Cause::UnexpectedReply,
        })))
    );
}
