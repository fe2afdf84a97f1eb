//! Keyboard control of the player: walking on a surface or flying free, and
//! the switches between modes.

use vstd::prelude::*;
use crate::collision::PlayerCollis;

verus! {

/// Whether the player is in flight mode (free thrust and rotation) rather
/// than walking on a surface.
pub struct IsFly(pub bool);

/// The state of the control keys in one frame.
#[derive(Clone, Copy, Debug)]
pub struct ControlKeys {
    /// `F` was just pressed: switch between walking and flight.
    pub toggle_fly: bool,
    /// `P` was just pressed: switch planet placement by mouse on or off.
    pub toggle_spawn_mode: bool,
    /// `D` is held.
    pub right: bool,
    /// `A` is held.
    pub left: bool,
    /// `W` is held.
    pub forward: bool,
    /// `W` was just pressed.
    pub forward_just_pressed: bool,
    /// `S` is held.
    pub back: bool,
}

/// The pushes the player asks for in one frame; the physics side turns each
/// into a force or a torque.
#[derive(Clone, Copy, Debug, PartialEq, Eq, Structural)]
pub struct ControlActions {
    /// Walk to the right along the surface.
    pub step_right: bool,
    /// Walk to the left along the surface.
    pub step_left: bool,
    /// Jump off the surface.
    pub jump: bool,
    /// Spin clockwise in flight.
    pub turn_right: bool,
    /// Spin counter-clockwise in flight.
    pub turn_left: bool,
    /// Thrust forward in flight.
    pub thrust_forward: bool,
    /// Thrust backward in flight.
    pub thrust_backward: bool,
}

/// The flight flag after a frame's keys.
pub open spec fn fly_after(fly: bool, keys: ControlKeys) -> bool {
    if keys.toggle_fly { !fly } else { fly }
}

/// The planet placement flag after a frame's keys.
pub open spec fn spawn_mode_after(spawn_mode: bool, keys: ControlKeys) -> bool {
    if keys.toggle_spawn_mode { !spawn_mode } else { spawn_mode }
}

/// The pushes that the keys ask for, given the flight flag in force for the
/// frame and whether the player touches a surface. Walking moves need
/// contact with a surface; flight moves need flight mode.
pub open spec fn actions_for(fly: bool, touching: bool, keys: ControlKeys) -> ControlActions {
    let walking = !fly && touching;
    ControlActions {
        step_right: walking && keys.right,
        step_left: walking && keys.left,
        jump: walking && keys.forward_just_pressed,
        turn_right: fly && keys.right,
        turn_left: fly && keys.left,
        thrust_forward: fly && keys.forward,
        thrust_backward: fly && keys.back,
    }
}

/// Whether any walking move is asked for.
pub open spec fn any_walk(a: ControlActions) -> bool {
    a.step_right || a.step_left || a.jump
}

/// Whether any flight move is asked for.
pub open spec fn any_flight(a: ControlActions) -> bool {
    a.turn_right || a.turn_left || a.thrust_forward || a.thrust_backward
}

/// Applies one frame of keyboard input: switches flight and planet placement
/// as asked, then returns the pushes for the mode now in force.
pub fn player_control_system(
    keys: &ControlKeys,
    fly: &mut IsFly,
    is_collis: &PlayerCollis,
    planet_spawn_mode: &mut bool,
) -> (actions: ControlActions)
    ensures
        final(fly).0 == fly_after(old(fly).0, *keys),
        *final(planet_spawn_mode) == spawn_mode_after(*old(planet_spawn_mode), *keys),
        actions == actions_for(final(fly).0, is_collis.0, *keys),
        final(fly).0 == (old(fly).0 != keys.toggle_fly),
        *final(planet_spawn_mode) == (*old(planet_spawn_mode) != keys.toggle_spawn_mode),
        actions.step_right == (!final(fly).0 && is_collis.0 && keys.right),
        actions.step_left == (!final(fly).0 && is_collis.0 && keys.left),
        actions.jump == (!final(fly).0 && is_collis.0 && keys.forward_just_pressed),
        actions.turn_right == (final(fly).0 && keys.right),
        actions.turn_left == (final(fly).0 && keys.left),
        actions.thrust_forward == (final(fly).0 && keys.forward),
        actions.thrust_backward == (final(fly).0 && keys.back),
{
    if keys.toggle_fly {
        fly.0 = !fly.0;
    }
    let walking = !fly.0 && is_collis.0;
    let flying = fly.0;
    let actions = ControlActions {
        step_right: walking && keys.right,
        step_left: walking && keys.left,
        jump: walking && keys.forward_just_pressed,
        turn_right: flying && keys.right,
        turn_left: flying && keys.left,
        thrust_forward: flying && keys.forward,
        thrust_backward: flying && keys.back,
    };
    if keys.toggle_spawn_mode {
        *planet_spawn_mode = !*planet_spawn_mode;
    }
    actions
}

/// Walking and flying never mix: a frame asks either for walking moves, or
/// for flight moves, or for neither.
pub proof fn lemma_modes_exclusive(fly: bool, touching: bool, keys: ControlKeys)
    ensures
        !(any_walk(actions_for(fly, touching, keys)) && any_flight(actions_for(fly, touching, keys))),
        !fly ==> !any_flight(actions_for(fly, touching, keys)),
        fly ==> !any_walk(actions_for(fly, touching, keys)),
{
}

/// A walking player that touches nothing cannot move by the keys.
pub proof fn lemma_no_walk_in_the_air(touching: bool, keys: ControlKeys)
    requires
        !touching,
    ensures
        !any_walk(actions_for(false, touching, keys)),
        !any_flight(actions_for(false, touching, keys)),
{
}

/// Pressing `F` in two frames returns to the mode one started in; the same
/// holds of `P` and planet placement.
pub proof fn lemma_toggles_undo(fly: bool, spawn_mode: bool, first: ControlKeys, second: ControlKeys)
    requires
        first.toggle_fly && second.toggle_fly,
        first.toggle_spawn_mode && second.toggle_spawn_mode,
    ensures
        fly_after(fly_after(fly, first), second) == fly,
        spawn_mode_after(spawn_mode_after(spawn_mode, first), second) == spawn_mode,
{
}

/// Only `F` switches flight: the flag changes exactly when `F` was pressed,
/// whatever else was pressed with it.
pub proof fn lemma_only_fly_key_switches_flight(fly: bool, keys: ControlKeys, other: ControlKeys)
    requires
        other.toggle_fly == keys.toggle_fly,
    ensures
        (fly_after(fly, keys) != fly) == keys.toggle_fly,
        fly_after(fly, keys) == fly_after(fly, other),
{
}

/// Only `P` switches planet placement: the flag changes exactly when `P` was
/// pressed, whatever else was pressed with it.
pub proof fn lemma_only_spawn_key_switches_placement(spawn_mode: bool, keys: ControlKeys, other: ControlKeys)
    requires
        other.toggle_spawn_mode == keys.toggle_spawn_mode,
    ensures
        (spawn_mode_after(spawn_mode, keys) != spawn_mode) == keys.toggle_spawn_mode,
        spawn_mode_after(spawn_mode, keys) == spawn_mode_after(spawn_mode, other),
{
}

/// A jump is asked for exactly on the frame `W` is first pressed by a walking
/// player on a surface; holding `W` without a fresh press never jumps.
pub proof fn lemma_jump_on_fresh_press(fly: bool, touching: bool, keys: ControlKeys)
    ensures
        actions_for(fly, touching, keys).jump == (!fly && touching && keys.forward_just_pressed),
        !keys.forward_just_pressed ==> !actions_for(fly, touching, keys).jump,
{
}

/// A walking player on a surface steps left exactly while `A` is held and
/// right exactly while `D` is held.
pub proof fn lemma_walking_steps(fly: bool, touching: bool, keys: ControlKeys)
    ensures
        actions_for(fly, touching, keys).step_left == (!fly && touching && keys.left),
        actions_for(fly, touching, keys).step_right == (!fly && touching && keys.right),
{
}

/// Walking moves depend only on `A`, `D` and a fresh `W`: holding `W` or `S`
/// changes none of them.
pub proof fn lemma_walking_ignores_held_thrust_keys(fly: bool, touching: bool, keys: ControlKeys, other: ControlKeys)
    requires
        other.left == keys.left,
        other.right == keys.right,
        other.forward_just_pressed == keys.forward_just_pressed,
    ensures
        actions_for(fly, touching, other).step_left == actions_for(fly, touching, keys).step_left,
        actions_for(fly, touching, other).step_right == actions_for(fly, touching, keys).step_right,
        actions_for(fly, touching, other).jump == actions_for(fly, touching, keys).jump,
{
}

/// In flight `A` and `D` turn, `W` held thrusts forward and `S` held thrusts
/// backward, with or without contact.
pub proof fn lemma_flight_moves(touching: bool, keys: ControlKeys)
    ensures
        actions_for(true, touching, keys).turn_left == keys.left,
        actions_for(true, touching, keys).turn_right == keys.right,
        actions_for(true, touching, keys).thrust_forward == keys.forward,
        actions_for(true, touching, keys).thrust_backward == keys.back,
{
}

} // verus!
