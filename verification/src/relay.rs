//! Relay supervision. The two copy directions of a session run
//! independently; this machine records which have stopped and says
//! what must happen when one does: shut down the write half of the
//! socket that direction was writing to, so its reader sees
//! end-of-stream instead of hanging, and close both sockets once
//! both directions have stopped. The byte copying itself is socket
//! I/O and lives in the driver.

use vstd::prelude::*;

verus! {

/// One of the two sockets of a session.
#[derive(Clone, Copy, Debug, PartialEq, Eq, Structural)]
pub enum Peer {
    Client,
    Destination,
}

/// One copy direction of the relay.
#[derive(Clone, Copy, Debug, PartialEq, Eq, Structural)]
pub enum Direction {
    /// Reads from the client, writes to the destination.
    ClientToDestination,
    /// Reads from the destination, writes to the client.
    DestinationToClient,
}

/// The peer a direction writes to.
pub open spec fn spec_writes_to(d: Direction) -> Peer {
    match d {
        Direction::ClientToDestination => Peer::Destination,
        Direction::DestinationToClient => Peer::Client,
    }
}

/// Executable form of `spec_writes_to`.
pub fn writes_to(d: Direction) -> (p: Peer)
    ensures
        p == spec_writes_to(d),
{
    match d {
        Direction::ClientToDestination => Peer::Destination,
        Direction::DestinationToClient => Peer::Client,
    }
}

/// How far a relay has wound down.
#[derive(Clone, Copy, Debug, PartialEq, Eq, Structural)]
pub enum RelayState {
    /// Both directions are running.
    Active,
    /// One direction has stopped; the other still runs.
    HalfClosed { stopped: Direction },
    /// Both directions have stopped.
    Closed,
}

/// What the driver must do after a direction stops.
#[derive(Clone, Copy, Debug, PartialEq, Eq, Structural)]
pub struct RelayAction {
    /// Shut down the write half of this peer's socket, so the peer
    /// sees end-of-stream.
    pub shutdown_write: Peer,
    /// Whether both directions have now stopped and both sockets are
    /// to be closed.
    pub close_both: bool,
}

/// Records that a running direction observed end-of-stream or an
/// error and stopped. The relay becomes half-closed after the first
/// direction stops and closed after the second; each stop shuts down
/// the write half the stopped direction was feeding, and the second
/// stop also closes both sockets.
pub fn relay_step(s: RelayState, stopped: Direction) -> (r: (RelayState, RelayAction))
    requires
        s !is Closed,
        s matches RelayState::HalfClosed { stopped: first } ==> first != stopped,
    ensures
        r.1.shutdown_write == spec_writes_to(stopped),
        s is Active ==> r.0 == (RelayState::HalfClosed { stopped }) && !r.1.close_both,
        s is HalfClosed ==> r.0 is Closed && r.1.close_both,
{
    let target = writes_to(stopped);
    match s {
        RelayState::Active => (
            RelayState::HalfClosed { stopped },
            RelayAction { shutdown_write: target, close_both: false },
        ),
        _ => (RelayState::Closed, RelayAction { shutdown_write: target, close_both: true }),
    }
}

} // verus!
