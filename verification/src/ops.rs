//! The one-shot operations on a pane: each is a single request, and succeeds
//! when the service has acknowledged it.

use crate::service::{cause, cause_of, Cause, Key, Reply, Request};
use vstd::prelude::*;

verus! {

/// The operations on a pane.
#[derive(Clone, Copy, Debug, PartialEq, Eq, Structural)]
pub enum Operation {
    Focus,
    Write,
    SendKey,
    Paste,
    Kill,
}

/// An operation on a pane that did not go through.
#[derive(Clone, Debug, PartialEq, Eq)]
pub struct OperationError {
    /// The operation that failed.
    pub kind: Operation,
    /// The pane that it was meant for.
    pub pane_id: usize,
    /// Why it failed.
    pub cause: Cause,
}

/// The request that gives `pane_id` the focus.
pub fn focus_pane(pane_id: usize) -> (r: Request)
    ensures
        r == (Request::SetFocusedPane { pane_id }),
{
    Request::SetFocusedPane { pane_id }
}

/// The request that writes `data` to `pane_id`.
pub fn write_to_pane(pane_id: usize, data: Vec<u8>) -> (r: Request)
    ensures
        r == (Request::WriteToPane { pane_id, data }),
{
    Request::WriteToPane { pane_id, data }
}

/// The request that presses `key`, without modifiers, in `pane_id`.
pub fn send_key(pane_id: usize, key: Key) -> (r: Request)
    ensures
        r == (Request::SendKey { pane_id, key }),
{
    Request::SendKey { pane_id, key }
}

/// The request that presses Enter in `pane_id`.
pub fn send_enter(pane_id: usize) -> (r: Request)
    ensures
        r == (Request::SendKey { pane_id, key: Key::Enter }),
{
    send_key(pane_id, Key::Enter)
}

/// The request that presses Escape in `pane_id`.
pub fn send_esc(pane_id: usize) -> (r: Request)
    ensures
        r == (Request::SendKey { pane_id, key: Key::Escape }),
{
    send_key(pane_id, Key::Escape)
}

/// The request that pastes `text` into `pane_id`.
pub fn send_paste(pane_id: usize, text: String) -> (r: Request)
    ensures
        r == (Request::SendPaste { pane_id, text }),
{
    Request::SendPaste { pane_id, text }
}

/// The request that ends `pane_id`.
pub fn kill_pane(pane_id: usize) -> (r: Request)
    ensures
        r == (Request::KillPane { pane_id }),
{
    Request::KillPane { pane_id }
}

/// How an operation ended, as a fact: well if the service acknowledged it,
/// else with the error that names the operation and its pane.
pub open spec fn outcome_of(kind: Operation, pane_id: usize, reply: Reply) -> Result<
    (),
    OperationError,
> {
    match reply {
        Reply::Acknowledged => Ok(()),
        _ => Err(OperationError { kind, pane_id, cause: cause_of(reply) }),
    }
}

/// Reads the reply to the request of an operation.
pub fn acknowledged(kind: Operation, pane_id: usize, reply: Reply) -> (r: Result<(), OperationError>)
    ensures
        r == outcome_of(kind, pane_id, reply),
{
    match reply {
        Reply::Acknowledged => Ok(()),
        other => Err(OperationError { kind, pane_id, cause: cause(other) }),
    }
}

} // verus!
