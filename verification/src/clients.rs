//! The clients attached to a session, and the pane that counts as current.

use vstd::prelude::*;

verus! {

/// One client attached to the session.
#[derive(Clone, Debug, PartialEq, Eq)]
pub struct ClientInfo {
    /// The pane that the client has in focus, if it has one.
    pub focused_pane_id: Option<usize>,
    /// When the client last received input; a later time is a greater
    /// number.
    pub last_input: i64,
}

/// No attached client has a pane in focus, so no pane counts as current.
#[derive(Clone, Copy, Debug, PartialEq, Eq)]
pub struct NoFocusedPaneError {}

/// Whether client `i` decides the current pane: it has a pane in focus, no
/// client with a pane in focus had input later, and none before it in the
/// list had input as late.
pub open spec fn decides(clients: Seq<ClientInfo>, i: int) -> bool {
    &&& 0 <= i < clients.len()
    &&& clients[i].focused_pane_id is Some
    &&& forall|j: int|
        0 <= j < clients.len() && (#[trigger] clients[j]).focused_pane_id is Some
            ==> clients[j].last_input <= clients[i].last_input
    &&& forall|j: int|
        0 <= j < i && (#[trigger] clients[j]).focused_pane_id is Some ==> clients[j].last_input
            < clients[i].last_input
}

/// The current pane: the one in focus at the client that had input last,
/// among the clients that have a pane in focus.
pub open spec fn current_of(clients: Seq<ClientInfo>) -> Option<usize> {
    if exists|i: int| decides(clients, i) {
        clients[choose|i: int| decides(clients, i)].focused_pane_id
    } else {
        None
    }
}

/// At most one client decides.
pub proof fn lemma_decides_once(clients: Seq<ClientInfo>, i: int, k: int)
    requires
        decides(clients, i),
        decides(clients, k),
    ensures
        i == k,
{
}

/// How the deciding client changes when the list grows by one client: where
/// `at` decides among the first `n` clients, client `n` decides among the
/// first `n + 1` if it has a pane in focus and had input later than `at`,
/// and `at` still decides if not.
proof fn lemma_decides_step(clients: Seq<ClientInfo>, n: int, at: int)
    requires
        0 <= n < clients.len(),
        decides(clients.take(n), at),
    ensures
        decides(
            clients.take(n + 1),
            if clients[n].focused_pane_id is Some && clients[n].last_input > clients[at].last_input {
                n
            } else {
                at
            },
        ),
{
    let shorter = clients.take(n);
    let longer = clients.take(n + 1);
    assert forall|j: int| 0 <= j < n implies shorter[j] == longer[j] by {}
}

/// The first client with a pane in focus decides among the clients up to
/// it.
proof fn lemma_decides_first(clients: Seq<ClientInfo>, n: int)
    requires
        0 <= n < clients.len(),
        clients[n].focused_pane_id is Some,
        forall|j: int| 0 <= j < n ==> (#[trigger] clients[j]).focused_pane_id is None,
    ensures
        decides(clients.take(n + 1), n),
{
}

/// Among the first `n` clients, one decides if one has a pane in focus.
proof fn lemma_some_client_decides(clients: Seq<ClientInfo>, n: int)
    requires
        0 <= n <= clients.len(),
    ensures
        (exists|i: int| 0 <= i < n && (#[trigger] clients[i]).focused_pane_id is Some) ==> exists|
            i: int,
        | decides(clients.take(n), i),
    decreases n,
{
    if n > 0 {
        lemma_some_client_decides(clients, n - 1);
        let shorter = clients.take(n - 1);
        if exists|i: int| decides(shorter, i) {
            let at = choose|i: int| decides(shorter, i);
            lemma_decides_step(clients, n - 1, at);
        } else if clients[n - 1].focused_pane_id is Some {
            lemma_decides_first(clients, n - 1);
        }
    }
}

/// There is a current pane exactly if some client has a pane in focus.
pub proof fn lemma_current_exists(clients: Seq<ClientInfo>)
    ensures
        current_of(clients) is Some <==> exists|i: int|
            0 <= i < clients.len() && (#[trigger] clients[i]).focused_pane_id is Some,
{
    lemma_some_client_decides(clients, clients.len() as int);
    assert(clients.take(clients.len() as int) =~= clients);
}

/// The current pane of the session, or the error if no client has a pane in
/// focus.
pub fn current_pane(clients: &Vec<ClientInfo>) -> (r: Result<usize, NoFocusedPaneError>)
    ensures
        match r {
            Ok(pane_id) => current_of(clients@) == Some(pane_id),
            Err(_) => current_of(clients@) is None,
        },
        r is Err <==> forall|i: int|
            0 <= i < clients@.len() ==> (#[trigger] clients@[i]).focused_pane_id is None,
{
    let mut best: Option<usize> = None;
    let mut i: usize = 0;
    while i < clients.len()
        invariant
            i <= clients@.len(),
            match best {
                Some(at) => at < i && decides(clients@.take(i as int), at as int),
                None => forall|j: int| 0 <= j < i ==> (#[trigger] clients@[j]).focused_pane_id is None,
            },
        decreases clients@.len() - i,
    {
        let later = match best {
            None => clients[i].focused_pane_id.is_some(),
            Some(at) => {
                proof {
                    lemma_decides_step(clients@, i as int, at as int);
                }
                clients[i].focused_pane_id.is_some() && clients[i].last_input
                    > clients[at].last_input
            },
        };
        if later {
            proof {
                if best is None {
                    lemma_decides_first(clients@, i as int);
                }
            }
            best = Some(i);
        }
        i += 1;
    }
    proof {
        assert(clients@.take(i as int) =~= clients@);
        lemma_current_exists(clients@);
    }
    match best {
        Some(at) => {
            proof {
                lemma_decides_once(clients@, at as int, choose|k: int| decides(clients@, k));
            }
            match clients[at].focused_pane_id {
                Some(pane_id) => Ok(pane_id),
                None => Err(NoFocusedPaneError {  }),
            }
        },
        None => Err(NoFocusedPaneError {  }),
    }
}

} // verus!
