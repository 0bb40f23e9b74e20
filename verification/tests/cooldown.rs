use rooney::cooldown::{Cooldown, WINDOW};

#[test]
fn window_is_three_minutes() {
    assert_eq!(WINDOW, 180);
}

#[test]
fn first_call_is_permitted_and_stored() {
    let mut gate = Cooldown::new(WINDOW);
    assert_eq!(gate.get_last_call(), None);
    assert!(!gate.on_cooldown(1000));
    assert_eq!(gate.get_last_call(), Some(1000));
}

#[test]
fn second_call_within_the_window_is_blocked_and_changes_nothing() {
    let mut gate = Cooldown::new(WINDOW);
    assert!(!gate.on_cooldown(1000));
    assert!(gate.on_cooldown(1000));
    assert_eq!(gate.get_last_call(), Some(1000));
    assert!(gate.on_cooldown(1180));
    assert_eq!(gate.get_last_call(), Some(1000));
}

#[test]
fn call_after_the_window_is_permitted_and_stored() {
    let mut gate = Cooldown::new(WINDOW);
    assert!(!gate.on_cooldown(1000));
    assert!(gate.on_cooldown(1180));
    assert!(!gate.on_cooldown(1181));
    assert_eq!(gate.get_last_call(), Some(1181));
    assert!(gate.on_cooldown(1300));
    assert_eq!(gate.get_last_call(), Some(1181));
}

#[test]
fn clock_that_runs_backwards_blocks() {
    let mut gate = Cooldown::new(10);
    assert!(!gate.on_cooldown(500));
    assert!(gate.on_cooldown(100));
    assert_eq!(gate.get_last_call(), Some(500));
}

#[test]
fn checking_does_not_arm() {
    let mut gate = Cooldown::new(0);
    assert!(!gate.is_blocked(7));
    assert_eq!(gate.get_last_call(), None);
    gate.set_last_call(7);
    assert!(gate.is_blocked(7));
    assert!(!gate.is_blocked(8));
    assert!(!gate.on_cooldown(u64::MAX));
    assert!(gate.is_blocked(u64::MAX));
}
