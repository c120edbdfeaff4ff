//! The grounded-state resolver: derives the player's `is_grounded` flag from
//! the tick's collision-event stream.
//!
//! Grounding is level-triggered strictly by contact started/ended edges, not
//! by polling distance: the flag is sticky until an event contradicts it.
//! Within one tick the first event pairing the player's body with a
//! floor-tagged body governs, and later (possibly contradictory) events are
//! ignored.

use vstd::prelude::*;

use crate::model::{BodyId, CollisionEvent, ContactPhase, Player};

verus! {

/// Does `e` pair the player's body with a floor-tagged body? The pairing is
/// unordered, so both orderings are tested.
pub open spec fn pairs_player_and_floor(
    e: CollisionEvent,
    player_body: BodyId,
    floors: Seq<BodyId>,
) -> bool {
    (e.body_a == player_body && floors.contains(e.body_b))
        || (e.body_b == player_body && floors.contains(e.body_a))
}

/// The grounded flag after scanning `events` in delivery order, starting
/// from `prior`: the first event pairing the player with a floor decides
/// (true on `Started`, false on `Ended`) and the rest of the tick's events
/// are ignored; when no event qualifies the prior value persists.
pub open spec fn grounded_after(
    prior: bool,
    player_body: BodyId,
    floors: Seq<BodyId>,
    events: Seq<CollisionEvent>,
) -> bool
    decreases events.len(),
{
    if events.len() == 0 {
        prior
    } else if pairs_player_and_floor(events[0], player_body, floors) {
        events[0].phase == ContactPhase::Started
    } else {
        grounded_after(prior, player_body, floors, events.subrange(1, events.len() as int))
    }
}

/// Membership test against the registry of floor-tagged bodies.
pub fn is_floor_body(floors: &Vec<BodyId>, body: BodyId) -> (r: bool)
    ensures
        r == floors@.contains(body),
{
    let n: usize = floors.len();
    let mut i: usize = 0;
    while i < n
        invariant
            i <= n,
            n == floors@.len(),
            forall|j: int| 0 <= j < i ==> floors@[j] != body,
        decreases n - i,
    {
        if floors[i] == body {
            return true;
        }
        i = i + 1;
    }
    false
}

/// Scan the tick's events in delivery order and return the new grounded
/// flag; first-match-wins, and `prior` persists when nothing qualifies.
pub fn resolve_grounded(
    prior: bool,
    player_body: BodyId,
    floors: &Vec<BodyId>,
    events: &Vec<CollisionEvent>,
) -> (grounded: bool)
    ensures
        grounded == grounded_after(prior, player_body, floors@, events@),
{
    let n: usize = events.len();
    let mut i: usize = 0;
    proof {
        assert(events@.subrange(0, n as int) =~= events@);
    }
    while i < n
        invariant
            i <= n,
            n == events@.len(),
            grounded_after(prior, player_body, floors@, events@) == grounded_after(
                prior,
                player_body,
                floors@,
                events@.subrange(i as int, n as int),
            ),
        decreases n - i,
    {
        let e = events[i];
        let a_is_floor = is_floor_body(floors, e.body_a);
        let b_is_floor = is_floor_body(floors, e.body_b);
        proof {
            assert(events@.subrange(i as int, n as int)[0] == events@[i as int]);
        }
        if (e.body_a == player_body && b_is_floor) || (e.body_b == player_body && a_is_floor) {
            return e.phase == ContactPhase::Started;
        }
        proof {
            assert(events@.subrange(i as int, n as int).subrange(
                1,
                events@.subrange(i as int, n as int).len() as int,
            ) =~= events@.subrange(i as int + 1, n as int));
        }
        i = i + 1;
    }
    prior
}

/// The grounded-state resolver system: the sole writer of the player's
/// grounded flag.
pub fn player_grounded_system(
    player: &mut Player,
    player_body: BodyId,
    floors: &Vec<BodyId>,
    events: &Vec<CollisionEvent>,
)
    ensures
        final(player).is_grounded == grounded_after(
            old(player).is_grounded,
            player_body,
            floors@,
            events@,
        ),
{
    player.is_grounded = resolve_grounded(player.is_grounded, player_body, floors, events);
}

/// A tick whose first qualifying event is `Started` grounds the player,
/// whatever the flag was before.
pub proof fn lemma_started_event_grounds(
    prior: bool,
    player_body: BodyId,
    floors: Seq<BodyId>,
    e: CollisionEvent,
)
    requires
        pairs_player_and_floor(e, player_body, floors),
        e.phase == ContactPhase::Started,
    ensures
        grounded_after(prior, player_body, floors, seq![e]),
{
    assert(seq![e][0] == e);
}

/// A tick whose first qualifying event is `Ended` clears the flag, whatever
/// it was before — in particular in the tick after a grounding contact.
pub proof fn lemma_ended_event_clears(
    prior: bool,
    player_body: BodyId,
    floors: Seq<BodyId>,
    e: CollisionEvent,
)
    requires
        pairs_player_and_floor(e, player_body, floors),
        e.phase == ContactPhase::Ended,
    ensures
        !grounded_after(prior, player_body, floors, seq![e]),
{
    assert(seq![e][0] == e);
}

/// When no event this tick pairs the player with a floor, the grounded flag
/// persists unchanged from the prior tick.
pub proof fn lemma_no_event_persists(
    prior: bool,
    player_body: BodyId,
    floors: Seq<BodyId>,
    events: Seq<CollisionEvent>,
)
    requires
        forall|i: int|
            0 <= i < events.len() ==> !pairs_player_and_floor(events[i], player_body, floors),
    ensures
        grounded_after(prior, player_body, floors, events) == prior,
    decreases events.len(),
{
    if events.len() > 0 {
        let rest = events.subrange(1, events.len() as int);
        assert forall|i: int|
            0 <= i < rest.len() implies !pairs_player_and_floor(rest[i], player_body, floors) by {
            assert(rest[i] == events[i + 1]);
        }
        lemma_no_event_persists(prior, player_body, floors, rest);
    }
}

/// First-match-wins under multi-contact: with an `Ended` event delivered
/// before a `Started` one, both pairing the player with (possibly different)
/// floors, the resolver goes by the first alone and the flag ends up false.
pub proof fn lemma_first_match_wins(
    prior: bool,
    player_body: BodyId,
    floors: Seq<BodyId>,
    first: CollisionEvent,
    second: CollisionEvent,
)
    requires
        pairs_player_and_floor(first, player_body, floors),
        first.phase == ContactPhase::Ended,
        pairs_player_and_floor(second, player_body, floors),
    ensures
        !grounded_after(prior, player_body, floors, seq![first, second]),
{
    assert(seq![first, second][0] == first);
}

} // verus!
