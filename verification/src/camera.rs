//! Camera view modes and what each mode aims the camera at.

use vstd::prelude::*;

verus! {

/// Number of distinct camera view modes; the mode key steps through them in turn.
pub const MODE_COUNT: u32 = 3;

/// The current view mode of a camera.
pub struct CameraMode(pub u32);

/// Where a camera turns to in a frame.
#[derive(Clone, Copy, Debug, PartialEq, Eq, Structural)]
pub enum CameraAim {
    /// Rotate against the player so that the player appears upright.
    FollowPlayer,
    /// Keep the world axes: no rotation.
    Upright,
    /// Turn the view upside down (half a turn).
    Inverted,
    /// A mode outside the cycle: the camera keeps its rotation.
    Unchanged,
}

/// The mode that follows `mode` in the cycle.
pub open spec fn next_mode(mode: u32) -> int {
    (mode + 1) % (MODE_COUNT as int)
}

/// What a camera in mode `mode` aims at.
pub open spec fn aim_of(mode: u32) -> CameraAim {
    if mode == 0 {
        CameraAim::FollowPlayer
    } else if mode == 1 {
        CameraAim::Upright
    } else if mode == 2 {
        CameraAim::Inverted
    } else {
        CameraAim::Unchanged
    }
}

/// Advances the camera mode when the mode key was just pressed.
pub fn change_camera_mode(just_pressed: bool, mode: &mut CameraMode)
    requires
        just_pressed ==> old(mode).0 < u32::MAX,
    ensures
        just_pressed ==> final(mode).0 == next_mode(old(mode).0),
        !just_pressed ==> final(mode).0 == old(mode).0,
        just_pressed && old(mode).0 + 1 < MODE_COUNT ==> final(mode).0 == old(mode).0 + 1,
        just_pressed && old(mode).0 + 1 == MODE_COUNT ==> final(mode).0 == 0,
        just_pressed ==> final(mode).0 < MODE_COUNT,
{
    if just_pressed {
        mode.0 = (mode.0 + 1) % MODE_COUNT;
    }
}

/// Chooses the rotation target of a camera from its mode.
pub fn camera_aim(mode: &CameraMode) -> (aim: CameraAim)
    ensures
        aim == aim_of(mode.0),
        mode.0 == 0 ==> aim == CameraAim::FollowPlayer,
        mode.0 == 1 ==> aim == CameraAim::Upright,
        mode.0 == 2 ==> aim == CameraAim::Inverted,
        mode.0 >= MODE_COUNT ==> aim == CameraAim::Unchanged,
{
    if mode.0 == 0 {
        CameraAim::FollowPlayer
    } else if mode.0 == 1 {
        CameraAim::Upright
    } else if mode.0 == 2 {
        CameraAim::Inverted
    } else {
        CameraAim::Unchanged
    }
}

/// Stepping the mode always lands inside the cycle, so every mode the key
/// produces aims the camera somewhere.
pub proof fn lemma_next_mode_in_cycle(mode: u32)
    ensures
        0 <= next_mode(mode) < MODE_COUNT,
        next_mode(mode) < u32::MAX,
        aim_of(next_mode(mode) as u32) != CameraAim::Unchanged,
{
}

/// Pressing the mode key once per mode brings a camera in the cycle back to
/// the mode it started from.
pub proof fn lemma_mode_cycle_returns(mode: u32)
    requires
        mode < MODE_COUNT,
    ensures
        next_mode(next_mode(next_mode(mode) as u32) as u32) == mode,
{
}

/// Each press moves a camera in the cycle to a different mode.
pub proof fn lemma_press_changes_mode(mode: u32)
    requires
        mode < MODE_COUNT,
    ensures
        next_mode(mode) != mode,
{
}

/// A press moves a camera in the cycle to the following mode, and from the
/// last mode back to the first.
pub proof fn lemma_press_advances(mode: u32)
    requires
        mode < MODE_COUNT,
    ensures
        mode + 1 < MODE_COUNT ==> next_mode(mode) == mode + 1,
        mode + 1 == MODE_COUNT ==> next_mode(mode) == 0,
{
}

/// Each mode of the cycle aims the camera its own way, and every mode past
/// the cycle leaves the camera as it is.
pub proof fn lemma_aims_of_modes(mode: u32, other: u32)
    requires
        mode < MODE_COUNT,
        other < MODE_COUNT,
        mode != other,
    ensures
        aim_of(mode) != aim_of(other),
        aim_of(mode) != CameraAim::Unchanged,
        aim_of(0) == CameraAim::FollowPlayer,
        aim_of(1) == CameraAim::Upright,
        aim_of(2) == CameraAim::Inverted,
        forall|m: u32| m >= MODE_COUNT ==> aim_of(m) == CameraAim::Unchanged,
{
}

} // verus!
