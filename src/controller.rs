//! Which gamepad drives the player. The first gamepad to connect is taken;
//! losing that gamepad frees the slot for the next one.

use vstd::prelude::*;

verus! {

/// A gamepad connecting or disconnecting, by its id.
#[derive(PartialEq, Eq, Structural, Debug, Clone, Copy)]
pub enum GamepadChange {
    Connected(u64),
    Disconnected(u64),
}

/// What to do with the controller slot.
#[derive(PartialEq, Eq, Structural, Debug, Clone, Copy)]
pub enum ControllerCommand {
    /// Take this gamepad as the controller.
    Insert(u64),
    /// Free the slot.
    Remove,
}

/// The command that a change gives, judged against the controller that was
/// set when the frame began: a connection fills an empty slot, and a
/// disconnection frees the slot only if it held that very gamepad.
pub open spec fn command_for(current: Option<u64>, change: GamepadChange) -> Option<ControllerCommand> {
    match change {
        GamepadChange::Connected(id) => if current is None {
            Some(ControllerCommand::Insert(id))
        } else {
            None
        },
        GamepadChange::Disconnected(id) => if current == Some(id) {
            Some(ControllerCommand::Remove)
        } else {
            None
        },
    }
}

/// The slot once `command` has been carried out on it.
pub open spec fn apply_command(slot: Option<u64>, command: Option<ControllerCommand>) -> Option<u64> {
    match command {
        Some(ControllerCommand::Insert(id)) => Some(id),
        Some(ControllerCommand::Remove) => None,
        None => slot,
    }
}

/// The slot after a frame's changes: each change is judged against the
/// controller that the frame began with, and the commands are carried out in
/// order once the frame's changes have all been read.
pub open spec fn controller_after(current: Option<u64>, changes: Seq<GamepadChange>) -> Option<u64>
    decreases changes.len(),
{
    if changes.len() == 0 {
        current
    } else {
        apply_command(
            controller_after(current, changes.drop_last()),
            command_for(current, changes.last()),
        )
    }
}

/// The command that `change` gives while `current` is the controller.
pub fn gamepad_command(current: Option<u64>, change: GamepadChange) -> (r: Option<ControllerCommand>)
    ensures
        r == command_for(current, change),
{
    match change {
        GamepadChange::Connected(id) => {
            if current.is_none() {
                Some(ControllerCommand::Insert(id))
            } else {
                None
            }
        },
        GamepadChange::Disconnected(id) => {
            match current {
                Some(c) => if c == id {
                    Some(ControllerCommand::Remove)
                } else {
                    None
                },
                None => None,
            }
        },
    }
}

/// The controller after a frame in which `changes` were read, starting from
/// `current`.
pub fn controller_after_changes(current: Option<u64>, changes: &Vec<GamepadChange>) -> (r: Option<u64>)
    ensures
        r == controller_after(current, changes@),
{
    let mut slot = current;
    let mut i: usize = 0;
    while i < changes.len()
        invariant
            i <= changes@.len(),
            slot == controller_after(current, changes@.subrange(0, i as int)),
        decreases changes.len() - i,
    {
        let command = gamepad_command(current, changes[i]);
        proof {
            let s = changes@.subrange(0, i + 1);
            assert(s.drop_last() =~= changes@.subrange(0, i as int));
            assert(s.last() == changes@[i as int]);
        }
        match command {
            Some(ControllerCommand::Insert(id)) => {
                slot = Some(id);
            },
            Some(ControllerCommand::Remove) => {
                slot = None;
            },
            None => {},
        }
        i = i + 1;
    }
    proof {
        assert(changes@.subrange(0, changes@.len() as int) =~= changes@);
    }
    slot
}

/// While a gamepad is the controller, other gamepads connecting never take
/// its place: within a frame, only its own disconnection frees the slot.
pub proof fn lemma_controller_kept(id: u64, changes: Seq<GamepadChange>)
    requires
        forall|i: int| 0 <= i < changes.len() ==> changes[i] != GamepadChange::Disconnected(id),
    ensures
        controller_after(Some(id), changes) == Some(id),
    decreases changes.len(),
{
    if changes.len() > 0 {
        lemma_controller_kept(id, changes.drop_last());
        assert(changes.last() == changes[changes.len() - 1]);
    }
}

/// With no controller at the start of a frame, the gamepad that connected
/// last in the frame becomes the controller.
pub proof fn lemma_last_connection_wins(changes: Seq<GamepadChange>, id: u64)
    requires
        changes.len() > 0,
        changes.last() == GamepadChange::Connected(id),
    ensures
        controller_after(None, changes) == Some(id),
{
}

} // verus!
