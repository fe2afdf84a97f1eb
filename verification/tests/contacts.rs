use orbital_fox::collision::{collision_handler, ContactEvent, PlayerCollis};

#[test]
fn start_of_a_player_contact_sets_the_flag() {
    let mut flag = PlayerCollis(false);
    collision_handler(&vec![ContactEvent::Started { first_is_player: true }], &mut flag);
    assert!(flag.0);
}

#[test]
fn end_of_a_player_contact_clears_the_flag() {
    let mut flag = PlayerCollis(true);
    collision_handler(&vec![ContactEvent::Stopped { first_is_player: true }], &mut flag);
    assert!(!flag.0);
}

#[test]
fn events_of_other_bodies_leave_the_flag() {
    let events = vec![
        ContactEvent::Started { first_is_player: false },
        ContactEvent::Stopped { first_is_player: false },
    ];
    let mut on = PlayerCollis(true);
    collision_handler(&events, &mut on);
    assert!(on.0);
    let mut off = PlayerCollis(false);
    collision_handler(&events, &mut off);
    assert!(!off.0);
}

#[test]
fn the_last_player_event_decides() {
    let events = vec![
        ContactEvent::Started { first_is_player: true },
        ContactEvent::Stopped { first_is_player: true },
        ContactEvent::Started { first_is_player: true },
        ContactEvent::Stopped { first_is_player: false },
    ];
    let mut flag = PlayerCollis(false);
    collision_handler(&events, &mut flag);
    assert!(flag.0);
}

#[test]
fn no_events_no_change() {
    let mut flag = PlayerCollis(true);
    collision_handler(&vec![], &mut flag);
    assert!(flag.0);
}

#[test]
fn two_frames_equal_one_frame_with_all_events() {
    let first = vec![ContactEvent::Started { first_is_player: true }];
    let second = vec![ContactEvent::Stopped { first_is_player: false }];
    let mut split = PlayerCollis(false);
    collision_handler(&first, &mut split);
    collision_handler(&second, &mut split);
    let mut joined = PlayerCollis(false);
    let mut all = first.clone();
    all.extend(second.iter().copied());
    collision_handler(&all, &mut joined);
    assert_eq!(split.0, joined.0);
}
