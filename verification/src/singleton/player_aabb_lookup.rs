//! Where the players are, for the stages that look for who is near.

use vstd::prelude::*;

use crate::aabb::Aabb;
use crate::bvh::{Bvh, LookupData, hits};

verus! {

/// The boxes of all players. It is rebuilt once per tick, after everything
/// has moved, and only read until the tick ends.
pub struct PlayerBoundingBoxes {
    /// The spatial index over the boxes.
    pub query: Bvh,
}

impl PlayerBoundingBoxes {
    /// The players whose boxes overlap or touch `aabb`.
    pub fn get_collisions(&self, aabb: &Aabb) -> (found: Vec<LookupData>)
        ensures
            found@ == self.query.entries().filter(hits(*aabb)),
    {
        self.query.query(aabb)
    }
}

impl Default for PlayerBoundingBoxes {
    /// No players.
    fn default() -> (boxes: PlayerBoundingBoxes)
        ensures
            boxes.query.entries() == Seq::<LookupData>::empty(),
    {
        PlayerBoundingBoxes { query: Bvh::default() }
    }
}

} // verus!
