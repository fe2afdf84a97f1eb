//! Showing and hiding the planet overlays: the frame drawn round each planet
//! and the text panel with its figures.

use vstd::prelude::*;

verus! {

/// Whether an overlay entity is drawn.
#[derive(Clone, Copy, Debug, PartialEq, Eq, Structural)]
pub enum Visibility {
    /// Drawn as its parent is.
    Inherited,
    /// Not drawn.
    Hidden,
    /// Drawn.
    Visible,
}

/// The overlay entities of one planet, as positions in the lists of all
/// frames and all text panels, and whether the mouse cursor lies inside the
/// planet. A position past the end of its list names nothing.
#[derive(Debug)]
pub struct PlanetOverlay {
    pub frames: Vec<usize>,
    pub infos: Vec<usize>,
    pub cursor_inside: bool,
}

/// A frame after the frame key: shown frames hide, hidden ones show.
pub open spec fn flip(v: Visibility) -> Visibility {
    match v {
        Visibility::Visible => Visibility::Hidden,
        Visibility::Hidden => Visibility::Visible,
        Visibility::Inherited => Visibility::Inherited,
    }
}

/// All frames after the frame key.
pub open spec fn frames_after_key(frames: Seq<Visibility>) -> Seq<Visibility> {
    Seq::new(frames.len(), |i: int| flip(frames[i]))
}

/// All text panels after the frame key: hiding any frame hides every panel.
pub open spec fn infos_after_key(frames: Seq<Visibility>, infos: Seq<Visibility>) -> Seq<Visibility> {
    if frames.contains(Visibility::Visible) {
        Seq::new(infos.len(), |i: int| Visibility::Hidden)
    } else {
        infos
    }
}

/// Whether one of the listed frames is shown.
pub open spec fn frame_shown(frames: Seq<Visibility>, idx: Seq<usize>) -> bool {
    exists|j: int| 0 <= j < idx.len() && idx[j] < frames.len() && frames[idx[j] as int] == Visibility::Visible
}

/// A text panel after a click on its planet: a shown panel hides; a hidden
/// one shows only while the planet's frame is shown.
pub open spec fn after_click(v: Visibility, shown: bool) -> Visibility {
    match v {
        Visibility::Visible => Visibility::Hidden,
        Visibility::Hidden => if shown { Visibility::Visible } else { Visibility::Hidden },
        Visibility::Inherited => Visibility::Inherited,
    }
}

/// The text panels after a click reaches the listed ones, in order.
pub open spec fn click_infos(infos: Seq<Visibility>, idx: Seq<usize>, shown: bool) -> Seq<Visibility>
    decreases idx.len(),
{
    if idx.len() == 0 {
        infos
    } else {
        let prev = click_infos(infos, idx.drop_last(), shown);
        let k = idx.last();
        if k < prev.len() {
            prev.update(k as int, after_click(prev[k as int], shown))
        } else {
            prev
        }
    }
}

/// The text panels after a click, planet by planet in order: only planets
/// under the cursor react.
pub open spec fn clicks(
    infos: Seq<Visibility>,
    frames: Seq<Visibility>,
    planets: Seq<PlanetOverlay>,
) -> Seq<Visibility>
    decreases planets.len(),
{
    if planets.len() == 0 {
        infos
    } else {
        let prev = clicks(infos, frames, planets.drop_last());
        let p = planets.last();
        if p.cursor_inside {
            click_infos(prev, p.infos@, frame_shown(frames, p.frames@))
        } else {
            prev
        }
    }
}

proof fn lemma_click_infos_len(infos: Seq<Visibility>, idx: Seq<usize>, shown: bool)
    ensures
        click_infos(infos, idx, shown).len() == infos.len(),
    decreases idx.len(),
{
    if idx.len() > 0 {
        lemma_click_infos_len(infos, idx.drop_last(), shown);
    }
}

/// The frame key: every frame flips, and if a shown frame was hidden by it,
/// every text panel hides too.
pub fn toggle_frames(frames: &mut Vec<Visibility>, infos: &mut Vec<Visibility>)
    ensures
        final(frames)@ == frames_after_key(old(frames)@),
        final(infos)@ == infos_after_key(old(frames)@, old(infos)@),
{
    let ghost frames0 = frames@;
    let ghost infos0 = infos@;
    let n = frames.len();
    let m = infos.len();
    let mut hid_any = false;
    let mut i: usize = 0;
    while i < n
        invariant
            n == frames@.len(),
            n == frames0.len(),
            m == infos@.len(),
            m == infos0.len(),
            i <= n,
            forall|j: int| 0 <= j < i ==> frames@[j] == flip(frames0[j]),
            forall|j: int| i <= j < n ==> frames@[j] == frames0[j],
            hid_any == frames0.take(i as int).contains(Visibility::Visible),
            hid_any ==> forall|j: int| 0 <= j < m ==> infos@[j] == Visibility::Hidden,
            !hid_any ==> infos@ == infos0,
        decreases n - i,
    {
        let v = frames[i];
        if v == Visibility::Visible {
            let mut k: usize = 0;
            while k < m
                invariant
                    m == infos@.len(),
                    k <= m,
                    forall|j: int| 0 <= j < k ==> infos@[j] == Visibility::Hidden,
                decreases m - k,
            {
                infos.set(k, Visibility::Hidden);
                k = k + 1;
            }
            frames.set(i, Visibility::Hidden);
            hid_any = true;
            assert(frames0.take(i + 1)[i as int] == Visibility::Visible);
        } else {
            if v == Visibility::Hidden {
                frames.set(i, Visibility::Visible);
            }
            proof {
                let next = frames0.take(i + 1);
                assert(next =~= frames0.take(i as int).push(v));
                if next.contains(Visibility::Visible) {
                    let w = choose|w: int| 0 <= w < next.len() && next[w] == Visibility::Visible;
                    assert(frames0.take(i as int)[w] == Visibility::Visible);
                }
            }
        }
        i = i + 1;
    }
    assert(frames0.take(n as int) =~= frames0);
    assert(frames@ =~= frames_after_key(frames0));
    assert(infos@ =~= infos_after_key(frames0, infos0));
}

/// Whether one of the listed frames is shown.
pub fn any_frame_shown(frames: &Vec<Visibility>, idx: &Vec<usize>) -> (shown: bool)
    ensures
        shown == frame_shown(frames@, idx@),
{
    let n = idx.len();
    let mut j: usize = 0;
    while j < n
        invariant
            n == idx@.len(),
            j <= n,
            forall|t: int| 0 <= t < j ==> !(idx@[t] < frames@.len() && frames@[idx@[t] as int] == Visibility::Visible),
        decreases n - j,
    {
        let k = idx[j];
        if k < frames.len() && frames[k] == Visibility::Visible {
            return true;
        }
        j = j + 1;
    }
    false
}

/// A click on a planet: each of its text panels reacts in turn.
pub fn click_planet(infos: &mut Vec<Visibility>, idx: &Vec<usize>, shown: bool)
    ensures
        final(infos)@ == click_infos(old(infos)@, idx@, shown),
{
    let ghost infos0 = infos@;
    let n = idx.len();
    let mut j: usize = 0;
    while j < n
        invariant
            n == idx@.len(),
            j <= n,
            infos@ == click_infos(infos0, idx@.take(j as int), shown),
        decreases n - j,
    {
        let k = idx[j];
        assert(idx@.take(j + 1).drop_last() =~= idx@.take(j as int));
        assert(idx@.take(j + 1).last() == k);
        if k < infos.len() {
            let v = infos[k];
            let w = match v {
                Visibility::Visible => Visibility::Hidden,
                Visibility::Hidden => if shown { Visibility::Visible } else { Visibility::Hidden },
                Visibility::Inherited => Visibility::Inherited,
            };
            infos.set(k, w);
        }
        j = j + 1;
    }
    assert(idx@.take(n as int) =~= idx@);
}

/// One frame of overlay control. The frame key flips every frame (and hides
/// every text panel when it hides a frame); then a click toggles the text
/// panels of each planet under the cursor, showing a panel only while its
/// planet's frame is shown.
pub fn visibility_control_handler(
    frame_key_pressed: bool,
    clicked: bool,
    frames: &mut Vec<Visibility>,
    infos: &mut Vec<Visibility>,
    planets: &Vec<PlanetOverlay>,
)
    ensures
        final(frames)@ == (if frame_key_pressed { frames_after_key(old(frames)@) } else { old(frames)@ }),
        ({
            let infos1 = if frame_key_pressed {
                infos_after_key(old(frames)@, old(infos)@)
            } else {
                old(infos)@
            };
            final(infos)@ == (if clicked { clicks(infos1, final(frames)@, planets@) } else { infos1 })
        }),
{
    if frame_key_pressed {
        toggle_frames(frames, infos);
    }
    if clicked {
        let ghost infos1 = infos@;
        let n = planets.len();
        let mut p: usize = 0;
        while p < n
            invariant
                n == planets@.len(),
                p <= n,
                infos@ == clicks(infos1, frames@, planets@.take(p as int)),
            decreases n - p,
        {
            let planet = &planets[p];
            assert(planets@.take(p + 1).drop_last() =~= planets@.take(p as int));
            assert(planets@.take(p + 1).last() == *planet);
            if planet.cursor_inside {
                let shown = any_frame_shown(frames, &planet.frames);
                click_planet(infos, &planet.infos, shown);
            }
            p = p + 1;
        }
        assert(planets@.take(n as int) =~= planets@);
    }
}

/// No entry of `idx` occurs twice.
pub open spec fn distinct(idx: Seq<usize>) -> bool {
    forall|a: int, b: int| 0 <= a < b < idx.len() ==> idx[a] != idx[b]
}

/// The frame key twice in a row puts every frame back as it was.
pub proof fn lemma_frame_key_twice(frames: Seq<Visibility>)
    ensures
        frames_after_key(frames_after_key(frames)) == frames,
{
    assert(frames_after_key(frames_after_key(frames)) =~= frames);
}

/// When the frame key hides a shown frame, no text panel stays shown.
pub proof fn lemma_frame_key_hides_panels(frames: Seq<Visibility>, infos: Seq<Visibility>)
    requires
        frames.contains(Visibility::Visible),
    ensures
        infos_after_key(frames, infos).len() == infos.len(),
        !infos_after_key(frames, infos).contains(Visibility::Visible),
{
}

/// A click on a planet whose frame is not shown shows no text panel that was
/// not shown before.
pub proof fn lemma_click_needs_shown_frame(infos: Seq<Visibility>, idx: Seq<usize>, k: int)
    requires
        0 <= k < click_infos(infos, idx, false).len(),
        click_infos(infos, idx, false)[k] == Visibility::Visible,
    ensures
        k < infos.len(),
        infos[k] == Visibility::Visible,
    decreases idx.len(),
{
    lemma_click_infos_len(infos, idx, false);
    if idx.len() > 0 {
        let prev = click_infos(infos, idx.drop_last(), false);
        lemma_click_infos_len(infos, idx.drop_last(), false);
        if idx.last() as int == k {
            assert(prev[k] == Visibility::Visible);
        }
        lemma_click_needs_shown_frame(infos, idx.drop_last(), k);
    }
}

/// Whether position `k` is listed in `idx`.
pub open spec fn listed(idx: Seq<usize>, k: int) -> bool {
    exists|w: int| 0 <= w < idx.len() && idx[w] as int == k
}

/// With each panel listed once, a click changes exactly the listed panels,
/// each as `after_click` says.
pub proof fn lemma_click_infos_pointwise(infos: Seq<Visibility>, idx: Seq<usize>, shown: bool, k: int)
    requires
        distinct(idx),
        0 <= k < infos.len(),
    ensures
        click_infos(infos, idx, shown).len() == infos.len(),
        click_infos(infos, idx, shown)[k] == (if listed(idx, k) {
            after_click(infos[k], shown)
        } else {
            infos[k]
        }),
        !listed(idx, k) ==> click_infos(infos, idx, shown)[k] == infos[k],
        listed(idx, k) && infos[k] == Visibility::Visible ==> click_infos(infos, idx, shown)[k]
            == Visibility::Hidden,
        listed(idx, k) && infos[k] == Visibility::Hidden ==> click_infos(infos, idx, shown)[k]
            == (if shown { Visibility::Visible } else { Visibility::Hidden }),
        listed(idx, k) && infos[k] == Visibility::Inherited ==> click_infos(infos, idx, shown)[k]
            == Visibility::Inherited,
    decreases idx.len(),
{
    lemma_click_infos_len(infos, idx, shown);
    if idx.len() > 0 {
        let rest = idx.drop_last();
        assert(distinct(rest));
        lemma_click_infos_pointwise(infos, rest, shown, k);
        lemma_click_infos_len(infos, rest, shown);
        let n = idx.len() - 1;
        if idx[n] as int == k {
            assert(listed(idx, k));
            if listed(rest, k) {
                let w = choose|w: int| 0 <= w < rest.len() && rest[w] as int == k;
                assert(idx[w] == idx[n]);
            }
        } else {
            if listed(idx, k) {
                let w = choose|w: int| 0 <= w < idx.len() && idx[w] as int == k;
                assert(w != n);
                assert(rest[w] as int == k);
            }
            if listed(rest, k) {
                let w = choose|w: int| 0 <= w < rest.len() && rest[w] as int == k;
                assert(idx[w] as int == k);
            }
        }
    }
}

/// Clicking twice on a planet whose frame is shown puts its text panels back
/// as they were, when each panel is listed once.
pub proof fn lemma_click_twice(infos: Seq<Visibility>, idx: Seq<usize>)
    requires
        distinct(idx),
    ensures
        click_infos(click_infos(infos, idx, true), idx, true) == infos,
{
    let once = click_infos(infos, idx, true);
    let twice = click_infos(once, idx, true);
    lemma_click_infos_len(infos, idx, true);
    lemma_click_infos_len(once, idx, true);
    assert forall|k: int| 0 <= k < infos.len() implies twice[k] == infos[k] by {
        lemma_click_infos_pointwise(infos, idx, true, k);
        lemma_click_infos_pointwise(once, idx, true, k);
    }
    assert(twice =~= infos);
}

/// The frame key turns each shown frame hidden and each hidden frame shown,
/// and leaves inherited frames alone.
pub proof fn lemma_frame_key_pointwise(frames: Seq<Visibility>, i: int)
    requires
        0 <= i < frames.len(),
    ensures
        frames_after_key(frames).len() == frames.len(),
        frames[i] == Visibility::Visible ==> frames_after_key(frames)[i] == Visibility::Hidden,
        frames[i] == Visibility::Hidden ==> frames_after_key(frames)[i] == Visibility::Visible,
        frames[i] == Visibility::Inherited ==> frames_after_key(frames)[i] == Visibility::Inherited,
{
}

/// When no frame is shown, the frame key leaves every text panel as it was;
/// when one is, every panel ends hidden.
pub proof fn lemma_frame_key_panels(frames: Seq<Visibility>, infos: Seq<Visibility>)
    ensures
        infos_after_key(frames, infos).len() == infos.len(),
        (forall|i: int| 0 <= i < frames.len() ==> frames[i] != Visibility::Visible)
            ==> infos_after_key(frames, infos) == infos,
        (exists|i: int| 0 <= i < frames.len() && frames[i] == Visibility::Visible)
            ==> forall|j: int| 0 <= j < infos.len() ==> infos_after_key(frames, infos)[j] == Visibility::Hidden,
{
    if exists|i: int| 0 <= i < frames.len() && frames[i] == Visibility::Visible {
        let i = choose|i: int| 0 <= i < frames.len() && frames[i] == Visibility::Visible;
        assert(frames.contains(Visibility::Visible));
    }
}

/// A click on one planet: outside the planet, or for a panel that is not the
/// planet's, nothing changes. Under the cursor, each of the planet's panels
/// (listed once) that is shown becomes hidden, and one that is hidden becomes
/// shown exactly when one of the planet's frames is shown.
pub proof fn lemma_click_one_planet(infos: Seq<Visibility>, frames: Seq<Visibility>, p: PlanetOverlay, k: int)
    requires
        distinct(p.infos@),
        0 <= k < infos.len(),
    ensures
        clicks(infos, frames, seq![p]).len() == infos.len(),
        !p.cursor_inside ==> clicks(infos, frames, seq![p])[k] == infos[k],
        !listed(p.infos@, k) ==> clicks(infos, frames, seq![p])[k] == infos[k],
        p.cursor_inside && listed(p.infos@, k) && infos[k] == Visibility::Visible
            ==> clicks(infos, frames, seq![p])[k] == Visibility::Hidden,
        p.cursor_inside && listed(p.infos@, k) && infos[k] == Visibility::Inherited
            ==> clicks(infos, frames, seq![p])[k] == Visibility::Inherited,
        p.cursor_inside && listed(p.infos@, k) && infos[k] == Visibility::Hidden
            ==> (clicks(infos, frames, seq![p])[k] == Visibility::Visible) == (exists|j: int|
                0 <= j < p.frames@.len() && p.frames@[j] < frames.len() && frames[p.frames@[j] as int]
                    == Visibility::Visible),
        p.cursor_inside && listed(p.infos@, k) && infos[k] == Visibility::Hidden
            ==> clicks(infos, frames, seq![p])[k] != Visibility::Inherited,
{
    let ps = seq![p];
    assert(ps.drop_last() =~= Seq::<PlanetOverlay>::empty());
    assert(ps.last() == p);
    assert(clicks(infos, frames, ps.drop_last()) == infos);
    let shown = frame_shown(frames, p.frames@);
    lemma_click_infos_pointwise(infos, p.infos@, shown, k);
}

/// A click where the cursor lies over no planet changes no text panel.
pub proof fn lemma_click_elsewhere(infos: Seq<Visibility>, frames: Seq<Visibility>, planets: Seq<PlanetOverlay>)
    requires
        forall|i: int| 0 <= i < planets.len() ==> !(#[trigger] planets[i]).cursor_inside,
    ensures
        clicks(infos, frames, planets) == infos,
    decreases planets.len(),
{
    if planets.len() > 0 {
        let rest = planets.drop_last();
        assert forall|i: int| 0 <= i < rest.len() implies !(#[trigger] rest[i]).cursor_inside by {
            assert(rest[i] == planets[i]);
        }
        lemma_click_elsewhere(infos, frames, rest);
        assert(!planets[planets.len() - 1].cursor_inside);
    }
}

} // verus!
