use orbital_fox::collision::PlayerCollis;
use orbital_fox::control::{player_control_system, ControlActions, ControlKeys, IsFly};

fn no_keys() -> ControlKeys {
    ControlKeys {
        toggle_fly: false,
        toggle_spawn_mode: false,
        right: false,
        left: false,
        forward: false,
        forward_just_pressed: false,
        back: false,
    }
}

fn none() -> ControlActions {
    ControlActions {
        step_right: false,
        step_left: false,
        jump: false,
        turn_right: false,
        turn_left: false,
        thrust_forward: false,
        thrust_backward: false,
    }
}

#[test]
fn walking_on_a_surface() {
    let keys = ControlKeys { right: true, forward: true, forward_just_pressed: true, ..no_keys() };
    let mut fly = IsFly(false);
    let mut spawn = false;
    let actions = player_control_system(&keys, &mut fly, &PlayerCollis(true), &mut spawn);
    assert_eq!(actions, ControlActions { step_right: true, jump: true, ..none() });
    assert!(!fly.0);
    assert!(!spawn);
}

#[test]
fn walking_in_the_air_does_nothing() {
    let keys = ControlKeys { right: true, left: true, forward_just_pressed: true, back: true, ..no_keys() };
    let mut fly = IsFly(false);
    let mut spawn = false;
    let actions = player_control_system(&keys, &mut fly, &PlayerCollis(false), &mut spawn);
    assert_eq!(actions, none());
}

#[test]
fn flying_turns_and_thrusts() {
    let keys = ControlKeys { left: true, forward: true, back: true, forward_just_pressed: true, ..no_keys() };
    let mut fly = IsFly(true);
    let mut spawn = false;
    let actions = player_control_system(&keys, &mut fly, &PlayerCollis(true), &mut spawn);
    assert_eq!(
        actions,
        ControlActions { turn_left: true, thrust_forward: true, thrust_backward: true, ..none() }
    );
}

#[test]
fn fly_key_switches_before_the_moves() {
    let keys = ControlKeys { toggle_fly: true, right: true, ..no_keys() };
    let mut fly = IsFly(false);
    let mut spawn = false;
    let actions = player_control_system(&keys, &mut fly, &PlayerCollis(true), &mut spawn);
    assert!(fly.0);
    assert_eq!(actions, ControlActions { turn_right: true, ..none() });
    let actions = player_control_system(&keys, &mut fly, &PlayerCollis(true), &mut spawn);
    assert!(!fly.0);
    assert_eq!(actions, ControlActions { step_right: true, ..none() });
}

#[test]
fn spawn_key_toggles_placement() {
    let keys = ControlKeys { toggle_spawn_mode: true, ..no_keys() };
    let mut fly = IsFly(false);
    let mut spawn = false;
    player_control_system(&keys, &mut fly, &PlayerCollis(false), &mut spawn);
    assert!(spawn);
    player_control_system(&keys, &mut fly, &PlayerCollis(false), &mut spawn);
    assert!(!spawn);
    player_control_system(&no_keys(), &mut fly, &PlayerCollis(false), &mut spawn);
    assert!(!spawn);
}
