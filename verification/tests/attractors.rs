use orbital_fox::attractor::{
    classify_master, gravity_zone_source, master_name, nearest_planet, strongest_pull, Master,
    ZoneSource,
};

#[test]
fn strongest_pull_picks_the_first_maximum() {
    assert_eq!(strongest_pull(&vec![3, 9, 2, 9]), Some(1));
    assert_eq!(strongest_pull(&vec![0, 0, 5]), Some(2));
}

#[test]
fn no_pull_no_pick() {
    assert_eq!(strongest_pull(&vec![]), None);
    assert_eq!(strongest_pull(&vec![0, 0]), None);
}

#[test]
fn float_pulls_order_by_their_bits() {
    // positive floats order as their bit patterns
    let pulls: Vec<f32> = vec![1.5, 1e9, 0.25, f32::NAN, -4.0];
    let keys: Vec<u32> = pulls.iter().map(|p| if *p > 0.0 { p.to_bits() } else { 0 }).collect();
    assert_eq!(strongest_pull(&keys), Some(1));
}

#[test]
fn nearest_planet_picks_the_first_minimum() {
    assert_eq!(nearest_planet(&vec![Some(7), None, Some(3), Some(3)]), Some(2));
    assert_eq!(nearest_planet(&vec![None, Some(u32::MAX)]), Some(1));
    assert_eq!(nearest_planet(&vec![None, None]), None);
    assert_eq!(nearest_planet(&vec![]), None);
}

#[test]
fn master_kinds_and_names() {
    assert_eq!(classify_master(true, false), Master::Star);
    assert_eq!(classify_master(false, true), Master::Planet);
    assert_eq!(classify_master(true, true), Master::Planet);
    assert_eq!(classify_master(false, false), Master::Unknown);
    assert_eq!(master_name(Master::Star), "star");
    assert_eq!(master_name(Master::Planet), "planet");
    assert_eq!(master_name(Master::Unknown), "");
}

#[test]
fn gravity_zone_sources() {
    assert_eq!(gravity_zone_source(true, false, true, false), ZoneSource::SubjectZone);
    assert_eq!(gravity_zone_source(false, true, true, true), ZoneSource::AttractorZone);
    assert_eq!(gravity_zone_source(false, true, true, false), ZoneSource::NoGravity);
    assert_eq!(gravity_zone_source(true, true, true, false), ZoneSource::SubjectZone);
    assert_eq!(gravity_zone_source(true, true, true, true), ZoneSource::AttractorZone);
    assert_eq!(gravity_zone_source(true, false, false, true), ZoneSource::NoGravity);
}
