//! Peer-to-peer rollback sessions: who the local player is, which players are
//! local and which remote, and when a match counts as connected.

use vstd::prelude::*;

verus! {

/// Where the networked match stands.
#[derive(PartialEq, Eq, Structural, Debug, Clone, Copy)]
pub enum NetState {
    Lobby,
    Offline,
    Connected,
}

/// The kind of rollback session that is running.
#[derive(PartialEq, Eq, Structural, Debug, Clone, Copy)]
pub enum SessionKind {
    SyncTest,
    P2P,
    Spectator,
}

/// What a peer-to-peer session reports.
#[derive(PartialEq, Eq, Structural, Debug, Clone, Copy)]
pub enum SessionEvent {
    Synchronized,
    Disconnected,
    NetworkInterrupted,
    DesyncDetected,
    /// Any other report.
    Other,
}

/// The local player's number: the first local handle of a peer-to-peer
/// session, and player 0 in any other session.
pub fn local_player(kind: SessionKind, local_handles: &Vec<usize>) -> (r: usize)
    requires
        kind == SessionKind::P2P ==> local_handles@.len() > 0,
    ensures
        r == (if kind == SessionKind::P2P { local_handles@[0] } else { 0 }),
{
    match kind {
        SessionKind::P2P => local_handles[0],
        _ => 0,
    }
}

/// Some peer reported being synchronized.
pub open spec fn any_synchronized(events: Seq<SessionEvent>) -> bool {
    exists|i: int| 0 <= i < events.len() && events[i] == SessionEvent::Synchronized
}

/// The state that a session's reports move the match to, if any: a
/// peer-to-peer session of one player plays offline; one of several players is
/// connected once a peer is synchronized. Other sessions move nothing.
pub open spec fn transition_of(kind: SessionKind, num_players: usize, events: Seq<SessionEvent>) -> Option<NetState> {
    if kind != SessionKind::P2P {
        None
    } else if num_players <= 1 {
        Some(NetState::Offline)
    } else if any_synchronized(events) {
        Some(NetState::Connected)
    } else {
        None
    }
}

/// The state to move the match to after reading a session's reports.
pub fn match_session_transition(kind: SessionKind, num_players: usize, events: &Vec<SessionEvent>) -> (r: Option<NetState>)
    ensures
        r == transition_of(kind, num_players, events@),
{
    if kind != SessionKind::P2P {
        return None;
    }
    if num_players <= 1 {
        return Some(NetState::Offline);
    }
    let mut next: Option<NetState> = None;
    let mut i: usize = 0;
    while i < events.len()
        invariant
            i <= events@.len(),
            next == (if exists|j: int| 0 <= j < i && events@[j] == SessionEvent::Synchronized {
                Some(NetState::Connected)
            } else {
                None::<NetState>
            }),
        decreases events.len() - i,
    {
        if events[i] == SessionEvent::Synchronized {
            next = Some(NetState::Connected);
        }
        i = i + 1;
    }
    next
}

/// Whether a player of the session plays on this machine or across the network.
#[derive(PartialEq, Eq, Structural, Debug, Clone, Copy)]
pub enum PlayerKind {
    Local,
    Remote,
}

/// The address by which the settings name the player on this machine.
pub open spec fn local_address() -> Seq<char> {
    "localhost"@
}

/// The kind of each player that the settings list, player `i` being the
/// session's handle `i`: the one named `localhost` is local, any other address
/// is remote.
pub fn session_players(players: &Vec<String>) -> (r: Vec<PlayerKind>)
    ensures
        r@.len() == players@.len(),
        forall|i: int|
            0 <= i < players@.len() ==> (#[trigger] r@[i] == PlayerKind::Local
                <==> players@[i]@ == local_address()),
{
    let local = String::from_str("localhost");
    let mut r: Vec<PlayerKind> = Vec::new();
    let mut i: usize = 0;
    while i < players.len()
        invariant
            i <= players@.len(),
            local@ == local_address(),
            r@.len() == i,
            forall|j: int|
                0 <= j < i ==> (#[trigger] r@[j] == PlayerKind::Local <==> players@[j]@
                    == local_address()),
        decreases players.len() - i,
    {
        if players[i] == local {
            r.push(PlayerKind::Local);
        } else {
            r.push(PlayerKind::Remote);
        }
        i = i + 1;
    }
    r
}

} // verus!
