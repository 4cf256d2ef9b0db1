//! The upstream session lifecycle: one persistent multiplexed connection to
//! the downstream consumer, probed for readiness before each use and replaced
//! lazily — by a fresh handshake — when the probe finds it severed. The
//! transport work itself happens outside; this module is the decision
//! function the serving loop runs, and what it guarantees.

use vstd::prelude::*;

verus! {

/// The session's state: how many handshakes have succeeded so far. The
/// current transport connection, when there is one, is the one the latest
/// handshake produced, and `generation` identifies it.
#[derive(Clone, Copy, Debug, PartialEq, Eq, Structural)]
pub struct SessionState {
    pub generation: u64,
}

/// What probing the current handle's readiness reported.
#[derive(Clone, Copy, Debug, PartialEq, Eq, Structural)]
pub enum Probe {
    /// The connection is still usable.
    Ready,
    /// The connection has failed or closed.
    Closed,
}

/// Whether a fresh connect-and-handshake attempt succeeded.
#[derive(Clone, Copy, Debug, PartialEq, Eq, Structural)]
pub enum Handshake {
    Success,
    Failure,
}

/// What one acquisition gives the dispatch that asked for a handle.
#[derive(Clone, Copy, Debug, PartialEq, Eq, Structural)]
pub enum AcquireOutcome {
    /// A usable handle to the transport connection of this generation. The
    /// handle stays valid for its one use even if the slot is swapped later.
    Handle { generation: u64 },
    /// The connection was severed and the one reconnect attempt failed: the
    /// triggering request is answered with an internal error, not retried.
    Unavailable,
}

/// How acquisition responds to a probe: a ready connection is used as it is;
/// a severed one is replaced by exactly one fresh handshake, whose failure is
/// surfaced rather than retried.
pub open spec fn spec_acquire(
    state: SessionState,
    probe: Probe,
    handshake: Handshake,
) -> (SessionState, AcquireOutcome) {
    match probe {
        Probe::Ready => (state, AcquireOutcome::Handle { generation: state.generation }),
        Probe::Closed => match handshake {
            Handshake::Success => (
                SessionState { generation: (state.generation + 1) as u64 },
                AcquireOutcome::Handle { generation: (state.generation + 1) as u64 },
            ),
            Handshake::Failure => (state, AcquireOutcome::Unavailable),
        },
    }
}

/// Acquire a handle for one dispatch: probe first, then lazily reconnect.
/// `probe` is what readiness probing reported of the current connection, and
/// `handshake` how the fresh connect-and-handshake attempt ended — consulted
/// only when the probe found the connection severed.
pub fn acquire(state: SessionState, probe: Probe, handshake: Handshake) -> (r: (
    SessionState,
    AcquireOutcome,
))
    requires
        state.generation < u64::MAX,
    ensures
        r == spec_acquire(state, probe, handshake),
{
    match probe {
        Probe::Ready => (state, AcquireOutcome::Handle { generation: state.generation }),
        Probe::Closed => match handshake {
            Handshake::Success => (
                SessionState { generation: state.generation + 1 },
                AcquireOutcome::Handle { generation: state.generation + 1 },
            ),
            Handshake::Failure => (state, AcquireOutcome::Unavailable),
        },
    }
}

/// If the upstream connection is severed between two requests, the next
/// acquisition still yields a usable handle — to a brand-new connection —
/// provided the upstream is reachable again; and if it is not, the
/// acquisition reports the failure at once, so the request is answered with
/// an internal error rather than left waiting.
pub proof fn lemma_severed_connection_recovers(state: SessionState, handshake: Handshake)
    ensures
        handshake is Success ==> spec_acquire(state, Probe::Closed, handshake).1 == (
        AcquireOutcome::Handle { generation: (state.generation + 1) as u64 }),
        handshake is Failure ==> spec_acquire(state, Probe::Closed, handshake).1
            == AcquireOutcome::Unavailable,
{
}

/// A handle acquired from a ready connection is the current one, and the
/// state is left untouched: acquisition captures a stable reference and
/// replacement happens only on a severed connection.
pub proof fn lemma_ready_connection_kept(state: SessionState, handshake: Handshake)
    ensures
        spec_acquire(state, Probe::Ready, handshake) == (
            state,
            AcquireOutcome::Handle { generation: state.generation },
        ),
{
}

} // verus!
