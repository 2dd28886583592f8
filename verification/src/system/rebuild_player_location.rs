//! The stage that rebuilds the spatial index from the poses of the players.

use evenio::entity::EntityId;
use vstd::prelude::*;

use crate::bvh::{Bvh, LookupData, height_bound, LEAF_SIZE};
use crate::components::pose::FullEntityPose;
use crate::singleton::player_aabb_lookup::PlayerBoundingBoxes;

verus! {

/// A player and its pose, as the stage reads them.
#[derive(Clone, Copy, Debug)]
pub struct EntityQuery {
    /// The player.
    pub id: EntityId,
    /// The pose of the player.
    pub pose: FullEntityPose,
}

/// What the index holds of a player: the player and its bounding box.
pub open spec fn element_of(query: EntityQuery) -> LookupData {
    LookupData { id: query.id, aabb: query.pose.bounding }
}

/// Rebuilds the index from the players as they now stand: every player,
/// whatever the state of its connection, with its bounding box.
pub fn rebuild_player_location(lookup: &mut PlayerBoundingBoxes, entities: &Vec<EntityQuery>)
    ensures
        final(lookup).query.entries().to_multiset() == entities@.map_values(
            |query: EntityQuery| element_of(query),
        ).to_multiset(),
        final(lookup).query.height() <= height_bound(entities@.len()),
        final(lookup).query.largest_leaf() <= LEAF_SIZE,
{
    let mut elements: Vec<LookupData> = Vec::new();
    let mut i: usize = 0;
    while i < entities.len()
        invariant
            0 <= i <= entities@.len(),
            elements@ == entities@.take(i as int).map_values(
                |query: EntityQuery| element_of(query),
            ),
        decreases entities@.len() - i,
    {
        elements.push(LookupData { id: entities[i].id, aabb: entities[i].pose.bounding });
        assert(entities@.take(i + 1).map_values(|query: EntityQuery| element_of(query))
            == entities@.take(i as int).map_values(|query: EntityQuery| element_of(query)).push(
            element_of(entities@[i as int]),
        ));
        i = i + 1;
    }
    assert(entities@.take(entities@.len() as int) == entities@);
    lookup.query = Bvh::build(elements);
}

} // verus!
