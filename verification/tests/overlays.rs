use orbital_fox::visibility::{
    any_frame_shown, click_planet, toggle_frames, visibility_control_handler, PlanetOverlay,
    Visibility,
};
use Visibility::{Hidden, Inherited, Visible};

#[test]
fn frame_key_flips_frames_and_hides_panels() {
    let mut frames = vec![Visible, Hidden, Inherited];
    let mut infos = vec![Visible, Hidden, Visible];
    toggle_frames(&mut frames, &mut infos);
    assert_eq!(frames, vec![Hidden, Visible, Inherited]);
    assert_eq!(infos, vec![Hidden, Hidden, Hidden]);
}

#[test]
fn showing_frames_keeps_panels() {
    let mut frames = vec![Hidden, Hidden];
    let mut infos = vec![Visible, Hidden];
    toggle_frames(&mut frames, &mut infos);
    assert_eq!(frames, vec![Visible, Visible]);
    assert_eq!(infos, vec![Visible, Hidden]);
}

#[test]
fn frame_key_twice_restores_frames() {
    let start = vec![Visible, Hidden, Inherited, Visible];
    let mut frames = start.clone();
    let mut infos = vec![Visible];
    toggle_frames(&mut frames, &mut infos);
    toggle_frames(&mut frames, &mut infos);
    assert_eq!(frames, start);
    assert_eq!(infos, vec![Hidden]);
}

#[test]
fn frame_shown_looks_only_at_listed_frames() {
    let frames = vec![Hidden, Visible];
    assert!(any_frame_shown(&frames, &vec![1]));
    assert!(!any_frame_shown(&frames, &vec![0]));
    assert!(!any_frame_shown(&frames, &vec![5]));
    assert!(!any_frame_shown(&frames, &vec![]));
}

#[test]
fn click_toggles_panels_of_a_framed_planet() {
    let mut infos = vec![Visible, Hidden, Inherited];
    click_planet(&mut infos, &vec![0, 1, 2, 9], true);
    assert_eq!(infos, vec![Hidden, Visible, Inherited]);
    click_planet(&mut infos, &vec![0, 1, 2, 9], true);
    assert_eq!(infos, vec![Visible, Hidden, Inherited]);
}

#[test]
fn click_without_frame_only_hides() {
    let mut infos = vec![Visible, Hidden];
    click_planet(&mut infos, &vec![0, 1], false);
    assert_eq!(infos, vec![Hidden, Hidden]);
}

#[test]
fn handler_key_then_click() {
    let mut frames = vec![Hidden, Visible];
    let mut infos = vec![Hidden, Visible];
    let planets = vec![
        PlanetOverlay { frames: vec![0], infos: vec![0], cursor_inside: true },
        PlanetOverlay { frames: vec![1], infos: vec![1], cursor_inside: true },
    ];
    visibility_control_handler(true, true, &mut frames, &mut infos, &planets);
    assert_eq!(frames, vec![Visible, Hidden]);
    // the key hid every panel; the click shows the first planet's panel only,
    // since the second planet's frame is hidden now
    assert_eq!(infos, vec![Visible, Hidden]);
}

#[test]
fn handler_click_outside_changes_nothing() {
    let mut frames = vec![Visible];
    let mut infos = vec![Hidden];
    let planets = vec![PlanetOverlay { frames: vec![0], infos: vec![0], cursor_inside: false }];
    visibility_control_handler(false, true, &mut frames, &mut infos, &planets);
    assert_eq!(frames, vec![Visible]);
    assert_eq!(infos, vec![Hidden]);
}

#[test]
fn handler_without_input_changes_nothing() {
    let mut frames = vec![Visible, Hidden];
    let mut infos = vec![Visible, Hidden];
    let planets = vec![PlanetOverlay { frames: vec![0], infos: vec![0], cursor_inside: true }];
    visibility_control_handler(false, false, &mut frames, &mut infos, &planets);
    assert_eq!(frames, vec![Visible, Hidden]);
    assert_eq!(infos, vec![Visible, Hidden]);
}
