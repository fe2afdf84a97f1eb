//! Choosing the body that dominates a point: the strongest pull for a new
//! planet, the closest planet for the player, and how the chosen body's
//! gravity parameter is taken.
//!
//! Pulls and distances are compared through keys: a key orders as the
//! positive quantity it stands for, and a key of zero (or no key) stands for
//! a quantity that can never win.

use vstd::prelude::*;

verus! {

/// Index `i` holds the strongest pull: a positive key no other key exceeds,
/// and the first such.
pub open spec fn is_strongest(pulls: Seq<u32>, i: int) -> bool {
    &&& 0 <= i < pulls.len()
    &&& pulls[i] > 0
    &&& forall|j: int| 0 <= j < pulls.len() ==> pulls[j] <= pulls[i]
    &&& forall|j: int| 0 <= j < i ==> pulls[j] < pulls[i]
}

/// Index `i` holds the closest body: a present key no other present key is
/// below, and the first such.
pub open spec fn is_closest(ranges: Seq<Option<u32>>, i: int) -> bool {
    &&& 0 <= i < ranges.len()
    &&& ranges[i] is Some
    &&& forall|j: int| 0 <= j < ranges.len() && ranges[j] is Some ==> ranges[i]->0 <= ranges[j]->0
    &&& forall|j: int| 0 <= j < i && ranges[j] is Some ==> ranges[i]->0 < ranges[j]->0
}

/// Picks the body with the strongest pull. Only a positive pull counts, and
/// of equal pulls the first wins; no body is picked when none pulls.
pub fn strongest_pull(pulls: &Vec<u32>) -> (picked: Option<usize>)
    ensures
        match picked {
            Some(i) => is_strongest(pulls@, i as int),
            None => forall|j: int| 0 <= j < pulls@.len() ==> pulls@[j] == 0,
        },
{
    let n = pulls.len();
    let mut best: u32 = 0;
    let mut picked: Option<usize> = None;
    let mut i: usize = 0;
    while i < n
        invariant
            n == pulls@.len(),
            i <= n,
            forall|j: int| 0 <= j < i ==> pulls@[j] <= best,
            match picked {
                Some(b) => {
                    &&& b < i
                    &&& pulls@[b as int] == best
                    &&& best > 0
                    &&& forall|j: int| 0 <= j < b ==> pulls@[j] < best
                },
                None => best == 0,
            },
        decreases n - i,
    {
        if pulls[i] > best {
            best = pulls[i];
            picked = Some(i);
        }
        i = i + 1;
    }
    picked
}

/// Picks the closest body among those with a distance key; of equal
/// distances the first wins.
pub fn nearest_planet(ranges: &Vec<Option<u32>>) -> (picked: Option<usize>)
    ensures
        match picked {
            Some(i) => is_closest(ranges@, i as int),
            None => forall|j: int| 0 <= j < ranges@.len() ==> ranges@[j] is None,
        },
{
    let n = ranges.len();
    let mut picked: Option<usize> = None;
    let mut best: u32 = 0;
    let mut i: usize = 0;
    while i < n
        invariant
            n == ranges@.len(),
            i <= n,
            match picked {
                Some(b) => {
                    &&& b < i
                    &&& ranges@[b as int] == Some(best)
                    &&& forall|j: int| 0 <= j < i && ranges@[j] is Some ==> best <= ranges@[j]->0
                    &&& forall|j: int| 0 <= j < b && ranges@[j] is Some ==> best < ranges@[j]->0
                },
                None => forall|j: int| 0 <= j < i ==> ranges@[j] is None,
            },
        decreases n - i,
    {
        match ranges[i] {
            Some(r) => {
                if picked.is_none() || r < best {
                    best = r;
                    picked = Some(i);
                }
            },
            None => {},
        }
        i = i + 1;
    }
    picked
}

/// The kind of body that dominates a planet, as the information panel names it.
#[derive(Clone, Copy, Debug, PartialEq, Eq, Structural)]
pub enum Master {
    /// No dominating body was found.
    Unknown,
    /// The central star.
    Star,
    /// Another planet.
    Planet,
}

/// The kind of the dominating body: a body that is a planet counts as a
/// planet even when it is also marked as a star.
pub open spec fn master_of(is_star: bool, is_planet: bool) -> Master {
    if is_planet {
        Master::Planet
    } else if is_star {
        Master::Star
    } else {
        Master::Unknown
    }
}

/// Names the kind of the dominating body from the markers it carries.
pub fn classify_master(is_star: bool, is_planet: bool) -> (m: Master)
    ensures
        m == master_of(is_star, is_planet),
        (m == Master::Planet) == is_planet,
        (m == Master::Star) == (is_star && !is_planet),
        (m == Master::Unknown) == (!is_star && !is_planet),
{
    if is_planet {
        Master::Planet
    } else if is_star {
        Master::Star
    } else {
        Master::Unknown
    }
}

/// The word the information panel shows for a kind of body.
pub open spec fn master_label(m: Master) -> Seq<char> {
    match m {
        Master::Unknown => seq![],
        Master::Star => seq!['s', 't', 'a', 'r'],
        Master::Planet => seq!['p', 'l', 'a', 'n', 'e', 't'],
    }
}

/// The word the information panel shows for a kind of body: `star`,
/// `planet`, or nothing.
pub fn master_name(m: Master) -> (name: String)
    ensures
        name@ == master_label(m),
{
    match m {
        Master::Unknown => {
            let s = "";
            proof {
                reveal_strlit("");
            }
            s.to_owned()
        },
        Master::Star => {
            let s = "star";
            proof {
                reveal_strlit("star");
            }
            s.to_owned()
        },
        Master::Planet => {
            let s = "planet";
            proof {
                reveal_strlit("planet");
            }
            s.to_owned()
        },
    }
}

/// Which zone radius scales the gravity parameter of the dominating body.
#[derive(Clone, Copy, Debug, PartialEq, Eq, Structural)]
pub enum ZoneSource {
    /// The body has no gravity parameter: the parameter is zero.
    NoGravity,
    /// A star: its parameter is scaled by the zone of the body it dominates.
    SubjectZone,
    /// A planet: its parameter is scaled by its own zone.
    AttractorZone,
}

/// How the gravity parameter of the dominating body is formed from the
/// components it carries. A planet with a zone and a parameter uses its own
/// zone; otherwise a star with a parameter uses the zone of the dominated
/// body; otherwise there is no parameter.
pub open spec fn zone_source_of(is_star: bool, is_planet: bool, has_gravity: bool, has_zone: bool) -> ZoneSource {
    if is_planet && has_zone && has_gravity {
        ZoneSource::AttractorZone
    } else if is_star && has_gravity {
        ZoneSource::SubjectZone
    } else {
        ZoneSource::NoGravity
    }
}

/// Decides how the gravity parameter of the dominating body is formed.
pub fn gravity_zone_source(is_star: bool, is_planet: bool, has_gravity: bool, has_zone: bool) -> (src: ZoneSource)
    ensures
        src == zone_source_of(is_star, is_planet, has_gravity, has_zone),
        (src == ZoneSource::AttractorZone) == (is_planet && has_zone && has_gravity),
        (src == ZoneSource::SubjectZone) == (is_star && has_gravity && !(is_planet && has_zone)),
        (src == ZoneSource::NoGravity) == (!has_gravity || (!is_star && !(is_planet && has_zone))),
{
    let mut src = ZoneSource::NoGravity;
    if is_star {
        if has_gravity {
            src = ZoneSource::SubjectZone;
        }
    }
    if is_planet {
        if has_zone && has_gravity {
            src = ZoneSource::AttractorZone;
        }
    }
    src
}

/// The strongest pull is unique: two indices that both hold it are the same.
pub proof fn lemma_strongest_unique(pulls: Seq<u32>, i: int, j: int)
    requires
        is_strongest(pulls, i),
        is_strongest(pulls, j),
    ensures
        i == j,
{
}

/// The closest body is unique: two indices that both hold it are the same.
pub proof fn lemma_closest_unique(ranges: Seq<Option<u32>>, i: int, j: int)
    requires
        is_closest(ranges, i),
        is_closest(ranges, j),
    ensures
        i == j,
{
}

/// A star that is not a planet scales its parameter by the zone of the body
/// it dominates, whatever zone it carries itself; only a planet ever uses its
/// own zone, and only a body with a parameter has one.
pub proof fn lemma_star_uses_subject_zone(is_star: bool, is_planet: bool, has_gravity: bool, has_zone: bool)
    ensures
        is_star && !is_planet && has_gravity ==> zone_source_of(is_star, is_planet, has_gravity, has_zone)
            == ZoneSource::SubjectZone,
        zone_source_of(is_star, is_planet, has_gravity, has_zone) == ZoneSource::AttractorZone ==> is_planet
            && has_zone,
        !has_gravity ==> zone_source_of(is_star, is_planet, has_gravity, has_zone) == ZoneSource::NoGravity,
        is_planet && has_zone && has_gravity ==> zone_source_of(is_star, is_planet, has_gravity, has_zone)
            == ZoneSource::AttractorZone,
{
}

/// A planet is named a planet even when it is also marked a star; a body
/// with neither marker is unknown.
pub proof fn lemma_master_kinds(is_star: bool, is_planet: bool)
    ensures
        (master_of(is_star, is_planet) == Master::Planet) == is_planet,
        (master_of(is_star, is_planet) == Master::Star) == (is_star && !is_planet),
        (master_of(is_star, is_planet) == Master::Unknown) == (!is_star && !is_planet),
{
}

} // verus!
