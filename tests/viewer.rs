use hammerspace::viewer::{fly_step, orbit_action, FlyKeys, OrbitKeys, ViewMode};

fn fly() -> FlyKeys {
    FlyKeys { left: false, right: false, forward: false, back: false, up: false, down: false }
}

fn orbit() -> OrbitKeys {
    OrbitKeys {
        arrow_left: false,
        arrow_right: false,
        arrow_up: false,
        arrow_down: false,
        tab: false,
        shift_left: false,
    }
}

#[test]
fn fly_step_axes() {
    let s = fly_step(fly());
    assert!(!s.panning);
    assert_eq!((s.right, s.up, s.back), (0, 0, 0));
    let s = fly_step(FlyKeys { right: true, forward: true, down: true, ..fly() });
    assert!(s.panning);
    assert_eq!((s.right, s.up, s.back), (1, -1, -1));
    let s = fly_step(FlyKeys { left: true, right: true, ..fly() });
    assert!(s.panning);
    assert_eq!(s.right, 0);
}

#[test]
fn orbit_still_while_panning() {
    let a = orbit_action(true, ViewMode::Game, OrbitKeys { arrow_left: true, tab: true, ..orbit() });
    assert!(!a.turn && !a.lift);
    assert_eq!(a.orbit_steps, 0);
    assert_eq!(a.next_mode, None);
}

#[test]
fn orbit_turn_and_lift() {
    let a = orbit_action(false, ViewMode::Editor, OrbitKeys { arrow_left: true, arrow_up: true, ..orbit() });
    assert!(a.turn && a.lift);
    assert_eq!(a.orbit_steps, -1);
    assert_eq!(a.lift_steps, 1);
    let a = orbit_action(false, ViewMode::Editor, OrbitKeys { arrow_left: true, arrow_right: true, ..orbit() });
    assert!(a.turn);
    assert_eq!(a.orbit_steps, 0);
}

#[test]
fn view_switching() {
    let tab = OrbitKeys { tab: true, ..orbit() };
    let shift = OrbitKeys { shift_left: true, ..orbit() };
    assert_eq!(orbit_action(false, ViewMode::Game, tab).next_mode, Some(ViewMode::Editor));
    assert_eq!(orbit_action(false, ViewMode::Editor, tab).next_mode, None);
    assert_eq!(orbit_action(false, ViewMode::Editor, shift).next_mode, Some(ViewMode::Game));
    assert_eq!(orbit_action(false, ViewMode::Other, shift).next_mode, None);
}
