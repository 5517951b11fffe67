//! The editor's cameras: a free-flying camera steered by six keys, and an
//! orbiting camera turned and raised by the arrow keys, from which the game
//! and editor views are switched.

use vstd::prelude::*;

verus! {

/// The keys that steer the flying camera, as pressed this frame.
#[derive(PartialEq, Eq, Structural, Debug, Clone, Copy)]
pub struct FlyKeys {
    /// `A`.
    pub left: bool,
    /// `D`.
    pub right: bool,
    /// `W`.
    pub forward: bool,
    /// `S`.
    pub back: bool,
    /// `Q`.
    pub up: bool,
    /// `E`.
    pub down: bool,
}

/// How the flying camera moves in a frame, along its own axes: each axis is
/// -1, 0 or 1; the sum is normalised before it is applied.
#[derive(PartialEq, Eq, Structural, Debug, Clone, Copy)]
pub struct FlyStep {
    /// Some steering key is held, which keeps the orbit controls still.
    pub panning: bool,
    /// Towards the camera's right.
    pub right: i8,
    /// Towards the camera's up.
    pub up: i8,
    /// Towards the camera's back.
    pub back: i8,
}

/// One for a held key, zero otherwise.
pub open spec fn unit(b: bool) -> int {
    if b {
        1
    } else {
        0
    }
}

fn step(positive: bool, negative: bool) -> (r: i8)
    ensures
        r == unit(positive) - unit(negative),
{
    let mut r: i8 = 0;
    if positive {
        r = r + 1;
    }
    if negative {
        r = r - 1;
    }
    r
}

/// The step that the held keys give: each opposite pair cancels.
pub fn fly_step(keys: FlyKeys) -> (r: FlyStep)
    ensures
        r.panning == (keys.left || keys.right || keys.forward || keys.back || keys.up || keys.down),
        r.right == unit(keys.right) - unit(keys.left),
        r.up == unit(keys.up) - unit(keys.down),
        r.back == unit(keys.back) - unit(keys.forward),
{
    FlyStep {
        panning: keys.left || keys.right || keys.forward || keys.back || keys.up || keys.down,
        right: step(keys.right, keys.left),
        up: step(keys.up, keys.down),
        back: step(keys.back, keys.forward),
    }
}

/// Which view the application shows.
#[derive(PartialEq, Eq, Structural, Debug, Clone, Copy)]
pub enum ViewMode {
    Game,
    Editor,
    /// Any other state of the application, such as a menu.
    Other,
}

/// The keys that drive the orbiting camera, as pressed this frame.
#[derive(PartialEq, Eq, Structural, Debug, Clone, Copy)]
pub struct OrbitKeys {
    pub arrow_left: bool,
    pub arrow_right: bool,
    pub arrow_up: bool,
    pub arrow_down: bool,
    /// Tab: from the game to the editor.
    pub tab: bool,
    /// Left shift: from the editor to the game.
    pub shift_left: bool,
}

/// What the orbiting camera does in a frame.
#[derive(PartialEq, Eq, Structural, Debug, Clone, Copy)]
pub struct OrbitAction {
    /// The camera turns about its focus: it is placed again on its orbit and
    /// faces the focus.
    pub turn: bool,
    /// Steps along the orbit, one per held arrow: right adds, left takes away.
    pub orbit_steps: i8,
    /// The camera is raised or lowered, and faces the focus again.
    pub lift: bool,
    /// Units of height, one per held arrow: up adds, down takes away.
    pub lift_steps: i8,
    /// The view to switch to, if any.
    pub next_mode: Option<ViewMode>,
}

/// The view that a frame's keys switch to from `mode`.
pub open spec fn mode_switch(mode: ViewMode, keys: OrbitKeys) -> Option<ViewMode> {
    if keys.tab && mode == ViewMode::Game {
        Some(ViewMode::Editor)
    } else if keys.shift_left && mode == ViewMode::Editor {
        Some(ViewMode::Game)
    } else {
        None
    }
}

/// What the orbiting camera does while `mode` is shown. While the flying
/// camera is panning, the orbit controls do nothing.
pub fn orbit_action(panning: bool, mode: ViewMode, keys: OrbitKeys) -> (r: OrbitAction)
    ensures
        panning ==> r == (OrbitAction {
            turn: false,
            orbit_steps: 0,
            lift: false,
            lift_steps: 0,
            next_mode: None,
        }),
        !panning ==> {
            &&& r.turn == (keys.arrow_left || keys.arrow_right)
            &&& r.orbit_steps == unit(keys.arrow_right) - unit(keys.arrow_left)
            &&& r.lift == (keys.arrow_up || keys.arrow_down)
            &&& r.lift_steps == unit(keys.arrow_up) - unit(keys.arrow_down)
            &&& r.next_mode == mode_switch(mode, keys)
        },
{
    if panning {
        return OrbitAction { turn: false, orbit_steps: 0, lift: false, lift_steps: 0, next_mode: None };
    }
    let next_mode = if keys.tab && mode == ViewMode::Game {
        Some(ViewMode::Editor)
    } else if keys.shift_left && mode == ViewMode::Editor {
        Some(ViewMode::Game)
    } else {
        None
    };
    OrbitAction {
        turn: keys.arrow_left || keys.arrow_right,
        orbit_steps: step(keys.arrow_right, keys.arrow_left),
        lift: keys.arrow_up || keys.arrow_down,
        lift_steps: step(keys.arrow_up, keys.arrow_down),
        next_mode,
    }
}

} // verus!
