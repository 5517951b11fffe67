//! Client and server bookkeeping for networked play: turning key presses into
//! the input sent each tick, the colour that a player is given, and which
//! entity stands for which connected client.

use std::collections::HashMap;
use vstd::prelude::*;
use vstd::std_specs::hash::group_hash_axioms;

verus! {

broadcast use group_hash_axioms;

/// The directions held down during one tick.
#[derive(PartialEq, Eq, Structural, Debug, Clone, Copy)]
pub struct Direction {
    pub up: bool,
    pub down: bool,
    pub left: bool,
    pub right: bool,
}

impl Direction {
    /// No direction is held.
    pub fn is_none(&self) -> (r: bool)
        ensures
            r == (!self.up && !self.down && !self.left && !self.right),
    {
        !self.up && !self.down && !self.left && !self.right
    }
}

/// The input that a client sends for one tick. `Idle` tells the server that a
/// tick had no input, as opposed to one whose packet was lost.
#[derive(PartialEq, Eq, Structural, Debug, Clone, Copy)]
pub enum Inputs {
    Direction(Direction),
    Delete,
    Spawn,
    Idle,
}

/// The keys that matter to the client's input, as pressed during one tick.
#[derive(PartialEq, Eq, Structural, Debug, Clone, Copy)]
pub struct KeyState {
    /// `W` or the up arrow.
    pub up: bool,
    /// `S` or the down arrow.
    pub down: bool,
    /// `A` or the left arrow.
    pub left: bool,
    /// `D` or the right arrow.
    pub right: bool,
    /// Backspace.
    pub delete: bool,
    /// Space.
    pub spawn: bool,
}

/// The input that a tick's keys give: spawning wins over deleting, deleting
/// over moving, and with none of them the input is `Idle`.
pub open spec fn input_of(keys: KeyState) -> Inputs {
    if keys.spawn {
        Inputs::Spawn
    } else if keys.delete {
        Inputs::Delete
    } else if keys.up || keys.down || keys.left || keys.right {
        Inputs::Direction(Direction { up: keys.up, down: keys.down, left: keys.left, right: keys.right })
    } else {
        Inputs::Idle
    }
}

/// The input to buffer for a tick in which `keys` were pressed.
pub fn input_from_keys(keys: KeyState) -> (r: Inputs)
    ensures
        r == input_of(keys),
{
    let mut input = Inputs::Idle;
    let direction = Direction { up: keys.up, down: keys.down, left: keys.left, right: keys.right };
    if !direction.is_none() {
        input = Inputs::Direction(direction);
    }
    if keys.delete {
        input = Inputs::Delete;
    }
    if keys.spawn {
        input = Inputs::Spawn;
    }
    input
}

/// The hue, in whole degrees, of the colour that a client is drawn in: thirty
/// degrees per client id, wrapping at 2^64 and then at a full turn.
pub fn player_hue_degrees(client_id: u64) -> (r: u64)
    ensures
        r == ((client_id as int * 30) % 0x1_0000_0000_0000_0000) % 360,
        r < 360,
{
    client_id.wrapping_mul(30) % 360
}

/// A message that the server sends to every client.
#[derive(PartialEq, Eq, Structural, Debug, Clone, Copy)]
pub struct Message1(pub usize);

/// The payload that the server broadcasts when asked to.
pub const BROADCAST_PAYLOAD: usize = 5;

/// The message that the server broadcasts in a frame: one while its send key
/// is held, none otherwise.
pub fn message_to_send(send_key_pressed: bool) -> (r: Option<Message1>)
    ensures
        r == (if send_key_pressed { Some(Message1(BROADCAST_PAYLOAD)) } else { None::<Message1> }),
{
    if send_key_pressed {
        Some(Message1(BROADCAST_PAYLOAD))
    } else {
        None
    }
}

/// Which entity stands for which connected client, both by their numeric ids.
pub struct Global {
    pub client_id_to_entity_id: HashMap<u64, u64>,
}

impl Global {
    /// The clients that are mapped, and their entities.
    pub open spec fn view(&self) -> Map<u64, u64> {
        self.client_id_to_entity_id@
    }

    /// No client is mapped.
    pub fn new() -> (r: Global)
        ensures
            r.view() == Map::<u64, u64>::empty(),
    {
        Global { client_id_to_entity_id: HashMap::new() }
    }

    /// A client connected and `entity` was spawned for it.
    pub fn connect(&mut self, client_id: u64, entity: u64)
        ensures
            final(self).view() == old(self).view().insert(client_id, entity),
    {
        self.client_id_to_entity_id.insert(client_id, entity);
    }

    /// A client disconnected: its mapping is dropped, and the entity that
    /// stood for it, if any, is returned to be despawned.
    pub fn disconnect(&mut self, client_id: u64) -> (r: Option<u64>)
        ensures
            final(self).view() == old(self).view().remove(client_id),
            r == (if old(self).view().contains_key(client_id) {
                Some(old(self).view()[client_id])
            } else {
                None::<u64>
            }),
    {
        self.client_id_to_entity_id.remove(&client_id)
    }

    /// The entity that stands for a client, which its inputs move.
    pub fn entity_of(&self, client_id: u64) -> (r: Option<u64>)
        ensures
            r == (if self.view().contains_key(client_id) {
                Some(self.view()[client_id])
            } else {
                None::<u64>
            }),
    {
        match self.client_id_to_entity_id.get(&client_id) {
            Some(e) => Some(*e),
            None => None,
        }
    }
}

} // verus!
