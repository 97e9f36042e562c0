//! What is asked of the session service, what comes back, and how its
//! refusals are reported.

use crate::clients::ClientInfo;
use crate::direction::Direction;
use crate::pane::Tab;
use vstd::prelude::*;

verus! {

/// The calls that the session service answers.
#[derive(Clone, Copy, Debug, PartialEq, Eq, Structural)]
pub enum ServiceCall {
    /// List the attached clients.
    ListClients,
    /// List the tabs with their panes.
    ListTabs,
    /// Give a pane the focus.
    SetFocusedPane,
    /// Write bytes to a pane as if they were typed.
    WriteToPane,
    /// Press a key in a pane.
    SendKey,
    /// Paste a text into a pane.
    SendPaste,
    /// Ask which pane lies in a direction from a pane.
    GetPaneDirection,
    /// End a pane.
    KillPane,
}

/// The keys that can be pressed in a pane; none of them carries a modifier.
#[derive(Clone, Copy, Debug, PartialEq, Eq, Structural)]
pub enum Key {
    Enter,
    Escape,
}

/// One request to the session service.
#[derive(Clone, Debug, PartialEq, Eq)]
pub enum Request {
    ListClients,
    ListTabs,
    SetFocusedPane { pane_id: usize },
    WriteToPane { pane_id: usize, data: Vec<u8> },
    SendKey { pane_id: usize, key: Key },
    SendPaste { pane_id: usize, text: String },
    GetPaneDirection { pane_id: usize, direction: Direction },
    KillPane { pane_id: usize },
}

/// What came back from the session service.
#[derive(Debug, PartialEq, Eq)]
pub enum Reply {
    /// The attached clients.
    Clients(Vec<ClientInfo>),
    /// The tabs of the session, in the order of the service.
    Tabs(Vec<Tab>),
    /// The pane that lies in the direction asked for, if there is one.
    Neighbor(Option<usize>),
    /// The instruction was carried out.
    Acknowledged,
    /// The call failed, for the reason given.
    Failed(String),
}

/// Why a call did not give what was asked for.
#[derive(Clone, Debug, PartialEq, Eq)]
pub enum Cause {
    /// The service turned the request down, or the connection to it
    /// failed; the text is what either said.
    Refused(String),
    /// The reply was not one to the request that was sent.
    UnexpectedReply,
}

/// A request that the service turned down or could not complete.
#[derive(Clone, Debug, PartialEq, Eq)]
pub struct ServiceCallError {
    /// The call that failed.
    pub call: ServiceCall,
    /// Why it failed.
    pub cause: Cause,
}

impl Request {
    /// Which call of the service the request makes.
    pub open spec fn call_of(self) -> ServiceCall {
        match self {
            Request::ListClients => ServiceCall::ListClients,
            Request::ListTabs => ServiceCall::ListTabs,
            Request::SetFocusedPane { .. } => ServiceCall::SetFocusedPane,
            Request::WriteToPane { .. } => ServiceCall::WriteToPane,
            Request::SendKey { .. } => ServiceCall::SendKey,
            Request::SendPaste { .. } => ServiceCall::SendPaste,
            Request::GetPaneDirection { .. } => ServiceCall::GetPaneDirection,
            Request::KillPane { .. } => ServiceCall::KillPane,
        }
    }

}

/// Why `reply` carries nothing of the kind that was asked for: the reason
/// that a failure gives, or that the reply is of another kind.
pub open spec fn cause_of(reply: Reply) -> Cause {
    match reply {
        Reply::Failed(reason) => Cause::Refused(reason),
        _ => Cause::UnexpectedReply,
    }
}

/// The clients that a reply carries, or what went wrong with the call.
pub open spec fn clients_in(reply: Reply) -> Result<Vec<ClientInfo>, ServiceCallError> {
    match reply {
        Reply::Clients(clients) => Ok(clients),
        _ => Err(ServiceCallError { call: ServiceCall::ListClients, cause: cause_of(reply) }),
    }
}

/// The tabs that a reply carries, or what went wrong with the call.
pub open spec fn tabs_in(reply: Reply) -> Result<Vec<Tab>, ServiceCallError> {
    match reply {
        Reply::Tabs(tabs) => Ok(tabs),
        _ => Err(ServiceCallError { call: ServiceCall::ListTabs, cause: cause_of(reply) }),
    }
}

/// The neighbour that a reply carries, or what went wrong with the call.
pub open spec fn neighbor_in(reply: Reply) -> Result<Option<usize>, ServiceCallError> {
    match reply {
        Reply::Neighbor(neighbor) => Ok(neighbor),
        _ => Err(ServiceCallError { call: ServiceCall::GetPaneDirection, cause: cause_of(reply) }),
    }
}

/// Why `reply` carries nothing of the kind that was asked for.
pub fn cause(reply: Reply) -> (r: Cause)
    ensures
        r == cause_of(reply),
{
    match reply {
        Reply::Failed(reason) => Cause::Refused(reason),
        _ => Cause::UnexpectedReply,
    }
}

/// Reads the reply to a request for the clients.
pub fn clients(reply: Reply) -> (r: Result<Vec<ClientInfo>, ServiceCallError>)
    ensures
        r == clients_in(reply),
{
    match reply {
        Reply::Clients(clients) => Ok(clients),
        other => Err(ServiceCallError { call: ServiceCall::ListClients, cause: cause(other) }),
    }
}

/// Reads the reply to a request for the tabs.
pub fn tabs(reply: Reply) -> (r: Result<Vec<Tab>, ServiceCallError>)
    ensures
        r == tabs_in(reply),
{
    match reply {
        Reply::Tabs(tabs) => Ok(tabs),
        other => Err(ServiceCallError { call: ServiceCall::ListTabs, cause: cause(other) }),
    }
}

/// Reads the reply to a question for a neighbour.
pub fn neighbor(reply: Reply) -> (r: Result<Option<usize>, ServiceCallError>)
    ensures
        r == neighbor_in(reply),
{
    match reply {
        Reply::Neighbor(neighbor) => Ok(neighbor),
        other => Err(ServiceCallError { call: ServiceCall::GetPaneDirection, cause: cause(other) }),
    }
}

} // verus!
