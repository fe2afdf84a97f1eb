//! Tracking whether the player touches something, from the physics engine's
//! contact events.

use vstd::prelude::*;

verus! {

/// Whether the player currently touches another body.
pub struct PlayerCollis(pub bool);

/// A contact event as the physics engine reports it, reduced to what the
/// player's contact flag depends on: whether the first of the two colliders
/// is the player.
#[derive(Clone, Copy, Debug, PartialEq, Eq, Structural)]
pub enum ContactEvent {
    /// Two colliders started touching.
    Started { first_is_player: bool },
    /// Two colliders stopped touching.
    Stopped { first_is_player: bool },
}

/// Whether the event is about the player (the player is its first collider).
pub open spec fn concerns_player(event: ContactEvent) -> bool {
    match event {
        ContactEvent::Started { first_is_player } => first_is_player,
        ContactEvent::Stopped { first_is_player } => first_is_player,
    }
}

/// Whether the event is the start of a contact.
pub open spec fn is_start(event: ContactEvent) -> bool {
    event is Started
}

/// The contact flag after one event.
pub open spec fn contact_after_event(touching: bool, event: ContactEvent) -> bool {
    if concerns_player(event) {
        is_start(event)
    } else {
        touching
    }
}

/// The contact flag after a sequence of events, taken in order.
pub open spec fn contact_after(touching: bool, events: Seq<ContactEvent>) -> bool
    decreases events.len(),
{
    if events.len() == 0 {
        touching
    } else {
        contact_after_event(contact_after(touching, events.drop_last()), events.last())
    }
}

/// Updates the player's contact flag from the contact events of a frame.
pub fn collision_handler(events: &Vec<ContactEvent>, is_collis: &mut PlayerCollis)
    ensures
        final(is_collis).0 == contact_after(old(is_collis).0, events@),
{
    let ghost start = is_collis.0;
    let n = events.len();
    let mut i: usize = 0;
    while i < n
        invariant
            n == events@.len(),
            i <= n,
            is_collis.0 == contact_after(start, events@.take(i as int)),
        decreases n - i,
    {
        let event = events[i];
        match event {
            ContactEvent::Started { first_is_player } => {
                if first_is_player {
                    is_collis.0 = true;
                }
            },
            ContactEvent::Stopped { first_is_player } => {
                if first_is_player {
                    is_collis.0 = false;
                }
            },
        }
        assert(events@.take(i + 1).drop_last() =~= events@.take(i as int));
        i = i + 1;
    }
    assert(events@.take(n as int) =~= events@);
}

/// Events that are not about the player leave the flag as it was.
pub proof fn lemma_unrelated_events_keep_flag(touching: bool, events: Seq<ContactEvent>)
    requires
        forall|i: int| 0 <= i < events.len() ==> !concerns_player(#[trigger] events[i]),
    ensures
        contact_after(touching, events) == touching,
    decreases events.len(),
{
    if events.len() > 0 {
        lemma_unrelated_events_keep_flag(touching, events.drop_last());
        assert(!concerns_player(events[events.len() - 1]));
    }
}

/// The last event about the player decides the flag: touching after a start,
/// not touching after a stop, whatever came before.
pub proof fn lemma_last_player_event_decides(touching: bool, events: Seq<ContactEvent>, k: int)
    requires
        0 <= k < events.len(),
        concerns_player(events[k]),
        forall|i: int| k < i < events.len() ==> !concerns_player(#[trigger] events[i]),
    ensures
        contact_after(touching, events) == (events[k] is Started),
    decreases events.len(),
{
    if k < events.len() - 1 {
        let prefix = events.drop_last();
        assert forall|i: int| k < i < prefix.len() implies !concerns_player(#[trigger] prefix[i]) by {
            assert(prefix[i] == events[i]);
        }
        lemma_last_player_event_decides(touching, prefix, k);
        assert(!concerns_player(events[events.len() - 1]));
    }
}

/// Feeding the events of two frames one after the other is the same as
/// feeding them together.
pub proof fn lemma_contact_after_concat(touching: bool, first: Seq<ContactEvent>, second: Seq<ContactEvent>)
    ensures
        contact_after(contact_after(touching, first), second) == contact_after(touching, first + second),
    decreases second.len(),
{
    if second.len() == 0 {
        assert(first + second =~= first);
    } else {
        lemma_contact_after_concat(touching, first, second.drop_last());
        assert((first + second).drop_last() =~= first + second.drop_last());
    }
}

/// One event: the start of a contact of the player sets the flag, the end of
/// one clears it, and an event of other bodies leaves it.
pub proof fn lemma_single_event(touching: bool, event: ContactEvent)
    ensures
        event == (ContactEvent::Started { first_is_player: true }) ==> contact_after(touching, seq![event]),
        event == (ContactEvent::Stopped { first_is_player: true }) ==> !contact_after(touching, seq![event]),
        event == (ContactEvent::Started { first_is_player: false }) ==> contact_after(touching, seq![event])
            == touching,
        event == (ContactEvent::Stopped { first_is_player: false }) ==> contact_after(touching, seq![event])
            == touching,
{
    let one = seq![event];
    assert(one.drop_last() =~= Seq::<ContactEvent>::empty());
    assert(one.last() == event);
    assert(contact_after(touching, one.drop_last()) == touching);
    assert(contact_after(touching, one) == contact_after_event(touching, event));
}

} // verus!
