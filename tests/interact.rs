use hammerspace::interact::Agent;

#[test]
fn new_agent_is_unfocused() {
    let a = Agent::new();
    assert_eq!(a.focused, None);
    assert!(!a.is_locked_on());
}

#[test]
fn unfocused_agent_takes_first_entity() {
    let mut a = Agent::new();
    a.lock_on(vec![11, 12]);
    assert_eq!(a.focused, Some(11));
    assert!(!a.is_locked_on());
}

#[test]
fn focused_agent_locks_on_when_focus_offered() {
    let mut a = Agent::new();
    a.lock_on(vec![11]);
    a.lock_on(vec![20, 21]);
    assert_eq!(a.focused, Some(11));
    assert!(!a.is_locked_on());
    a.lock_on(vec![20, 11]);
    assert_eq!(a.focused, Some(11));
    assert!(a.is_locked_on());
    a.lock_on(vec![]);
    assert!(a.is_locked_on());
}
