//! Sessions of a remotely hosted project: input is forwarded to the host as
//! requests, and the first failed request ends the session.
use vstd::prelude::*;

use crate::registry::Terminals;

verus! {

/// Why a session could not be created.
#[derive(Clone, Copy, Debug, PartialEq, Eq, Structural)]
pub enum SessionError {
    /// The project is hosted remotely but has no remote project id.
    MissingRemoteId,
}

/// Whether the forwarding loop goes on after a request.
#[derive(Clone, Copy, Debug, PartialEq, Eq, Structural)]
pub enum Flow {
    Continue,
    Break,
}

/// A request that carries input bytes to a remote session.
#[derive(Clone, Debug)]
pub struct InputRemoteTerminal {
    pub project_id: u64,
    pub terminal_id: u64,
    pub data: Vec<u8>,
}

/// Whether the loop is closed after a run of acknowledgments, from open:
/// it closes at the first failure and stays closed.
pub open spec fn closed_after(acks: Seq<bool>) -> bool
    decreases acks.len(),
{
    if acks.len() == 0 {
        false
    } else {
        closed_after(acks.drop_last()) || !acks.last()
    }
}

/// After the first `k` acknowledgments the loop is closed exactly when one of
/// them failed: a failure on any chunk stops all later forwarding, and while
/// every request succeeds forwarding goes on.
pub proof fn forwarding_stops_at_first_failure(acks: Seq<bool>, k: int)
    requires
        0 <= k <= acks.len(),
    ensures
        closed_after(acks.take(k)) == exists|j: int| 0 <= j < k && !acks[j],
    decreases k,
{
    if k > 0 {
        forwarding_stops_at_first_failure(acks, k - 1);
        assert(acks.take(k).drop_last() =~= acks.take(k - 1));
        if exists|j: int| 0 <= j < k && !acks[j] {
            let j = choose|j: int| 0 <= j < k && !acks[j];
            if j < k - 1 {
                assert(0 <= j < k - 1 && !acks[j]);
            }
        }
    }
}

/// A closed loop stays closed, whatever acknowledgments come later.
pub proof fn forwarding_stays_closed(acks: Seq<bool>, k: int, m: int)
    requires
        0 <= k <= m <= acks.len(),
        closed_after(acks.take(k)),
    ensures
        closed_after(acks.take(m)),
{
    forwarding_stops_at_first_failure(acks, k);
    forwarding_stops_at_first_failure(acks, m);
    let j = choose|j: int| 0 <= j < k && !acks[j];
    assert(0 <= j < m && !acks[j]);
}

/// The forwarding state of one remote session.
#[derive(Debug)]
pub struct RemoteForwarder {
    project_id: u64,
    terminal_id: u64,
    closed: bool,
}

impl RemoteForwarder {
    /// Whether forwarding has ended.
    pub closed spec fn spec_closed(&self) -> bool {
        self.closed
    }

    /// The project whose session this loop forwards to.
    pub closed spec fn spec_project_id(&self) -> u64 {
        self.project_id
    }

    /// The host-assigned id of the session this loop forwards to.
    pub closed spec fn spec_terminal_id(&self) -> u64 {
        self.terminal_id
    }

    /// The project whose session this loop forwards to.
    pub fn project_id(&self) -> (r: u64)
        ensures
            r == self.spec_project_id(),
    {
        self.project_id
    }

    /// The host-assigned id of the session this loop forwards to.
    pub fn terminal_id(&self) -> (r: u64)
        ensures
            r == self.spec_terminal_id(),
    {
        self.terminal_id
    }

    /// An open loop for the remote session `terminal_id` of project `project_id`.
    pub fn new(project_id: u64, terminal_id: u64) -> (r: Self)
        ensures
            r.spec_project_id() == project_id,
            r.spec_terminal_id() == terminal_id,
            !r.spec_closed(),
    {
        RemoteForwarder { project_id, terminal_id, closed: false }
    }

    /// Whether forwarding has ended.
    pub fn is_closed(&self) -> (r: bool)
        ensures
            r == self.spec_closed(),
    {
        self.closed
    }

    /// The request that forwards `data`, or none once the loop is closed.
    pub fn request_for(&self, data: Vec<u8>) -> (r: Option<InputRemoteTerminal>)
        ensures
            self.spec_closed() ==> r.is_none(),
            !self.spec_closed() ==> r == Some(
                (InputRemoteTerminal { project_id: self.spec_project_id(), terminal_id: self.spec_terminal_id(), data }),
            ),
    {
        if self.closed {
            None
        } else {
            Some(InputRemoteTerminal { project_id: self.project_id, terminal_id: self.terminal_id, data })
        }
    }

    /// Takes the host's answer to a request: an acknowledgment lets the loop
    /// go on, a failure ends it for good.
    pub fn on_response(&mut self, acknowledged: bool) -> (r: Flow)
        ensures
            final(self).spec_project_id() == old(self).spec_project_id(),
            final(self).spec_terminal_id() == old(self).spec_terminal_id(),
            final(self).spec_closed() == (old(self).spec_closed() || !acknowledged),
            r == (if final(self).spec_closed() { Flow::Break } else { Flow::Continue }),
    {
        if !acknowledged {
            self.closed = true;
        }
        if self.closed {
            Flow::Break
        } else {
            Flow::Continue
        }
    }
}

/// Starts forwarding for the remote session `terminal_id`, which the host
/// assigned, and records `sender` as the channel for its output. Fails,
/// leaving the registry as it was, when the project has no remote id.
pub fn open_remote_session<S>(
    registry: &mut Terminals<S>,
    remote_id: Option<u64>,
    terminal_id: u64,
    sender: S,
) -> (r: Result<RemoteForwarder, SessionError>)
    ensures
        final(registry).local_sessions() == old(registry).local_sessions(),
        match remote_id {
            None => r == Err::<RemoteForwarder, SessionError>(SessionError::MissingRemoteId)
                && final(registry).remote_sessions() == old(registry).remote_sessions(),
            Some(project_id) => r.is_ok() && r.unwrap().spec_project_id() == project_id
                && r.unwrap().spec_terminal_id() == terminal_id && !r.unwrap().spec_closed()
                && final(registry).remote_sessions() == old(registry).remote_sessions().insert(terminal_id, sender),
        },
{
    match remote_id {
        None => Err(SessionError::MissingRemoteId),
        Some(project_id) => {
            let _replaced = registry.insert_remote(terminal_id, sender);
            Ok(RemoteForwarder::new(project_id, terminal_id))
        },
    }
}

/// Takes the host's answer to a forwarded request; when it ends the loop,
/// the session's output channel leaves the registry.
pub fn handle_response<S>(
    registry: &mut Terminals<S>,
    forwarder: &mut RemoteForwarder,
    acknowledged: bool,
) -> (r: Flow)
    ensures
        final(registry).local_sessions() == old(registry).local_sessions(),
        final(forwarder).spec_project_id() == old(forwarder).spec_project_id(),
        final(forwarder).spec_terminal_id() == old(forwarder).spec_terminal_id(),
        final(forwarder).spec_closed() == (old(forwarder).spec_closed() || !acknowledged),
        r == (if final(forwarder).spec_closed() { Flow::Break } else { Flow::Continue }),
        final(registry).remote_sessions() == (if final(forwarder).spec_closed() {
            old(registry).remote_sessions().remove(old(forwarder).spec_terminal_id())
        } else {
            old(registry).remote_sessions()
        }),
{
    let flow = forwarder.on_response(acknowledged);
    match flow {
        Flow::Break => {
            let _sender = registry.remove_remote(forwarder.terminal_id());
        },
        Flow::Continue => {},
    }
    flow
}

} // verus!
