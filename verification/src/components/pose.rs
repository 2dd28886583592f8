//! Where an entity stands, which way it looks, and the box it fills.

use vstd::prelude::*;

use crate::aabb::{Aabb, Vec3, half_of};
use crate::components::EntityReaction;

verus! {

/// Angle units per degree.
pub const UNITS_PER_DEGREE: i32 = 1000;

/// The width and depth of a player: six tenths of a block.
pub const PLAYER_WIDTH: i64 = 600;

/// The height of a player: one block and eight tenths.
pub const PLAYER_HEIGHT: i64 = 1800;

/// Where a player first stands: seventy blocks above the origin.
pub const PLAYER_SPAWN_Y: i64 = 70_000;

/// The full pose of an entity, player or not.
#[derive(Clone, Copy, Debug, PartialEq, Eq, Structural)]
pub struct FullEntityPose {
    /// Where the feet of the entity are.
    pub position: Vec3,
    /// The yaw of the entity, `UNITS_PER_DEGREE` to the degree.
    pub yaw: i32,
    /// The pitch of the entity, `UNITS_PER_DEGREE` to the degree.
    pub pitch: i32,
    /// The bounding box of the entity.
    pub bounding: Aabb,
}

impl FullEntityPose {
    /// Whether the bounding box is the one that its own width and height
    /// give around the position: centred on the feet along x and z, and
    /// rising from the feet along y.
    pub open spec fn consistent(self) -> bool {
        &&& 0 <= self.bounding.width() <= i64::MAX
        &&& 0 <= self.bounding.height() <= i64::MAX
        &&& Aabb::fits(
            self.position,
            self.bounding.width() as i64,
            self.bounding.height() as i64,
        )
        &&& self.bounding == Aabb::around(
            self.position,
            self.bounding.width() as i64,
            self.bounding.height() as i64,
        )
    }

    /// The pose of a player that has just been created.
    pub open spec fn spawn() -> FullEntityPose {
        let position = Vec3 { x: 0, y: PLAYER_SPAWN_Y, z: 0 };
        FullEntityPose {
            position,
            yaw: 0,
            pitch: 0,
            bounding: Aabb::around(position, PLAYER_WIDTH, PLAYER_HEIGHT),
        }
    }

    /// The pose after a move by `offset`: position and box shift alike.
    pub open spec fn moved_by(self, offset: Vec3) -> FullEntityPose {
        FullEntityPose {
            position: self.position.plus(offset),
            bounding: self.bounding.shifted(offset),
            ..self
        }
    }

    /// The pose after a teleport to `position`: the box stands around the
    /// new position, with the height it had and with half the width it had,
    /// rounded towards zero, on each side. A box that was consistent with its
    /// position has an even width and keeps it.
    pub open spec fn moved_to(self, position: Vec3) -> FullEntityPose {
        FullEntityPose {
            position,
            bounding: Aabb::around(
                position,
                self.bounding.width() as i64,
                self.bounding.height() as i64,
            ),
            ..self
        }
    }

    /// Whether the pose moved by `offset` can be held.
    pub open spec fn can_move_by(self, offset: Vec3) -> bool {
        self.position.can_add(offset) && self.bounding.can_shift(offset)
    }

    /// Whether the pose teleported to `position` can be held.
    pub open spec fn can_move_to(self, position: Vec3) -> bool {
        &&& self.bounding.measurable()
        &&& Aabb::fits(position, self.bounding.width() as i64, self.bounding.height() as i64)
    }

    /// Whether the pose moved by `offset` can be held.
    pub fn fits_move_by(&self, offset: &Vec3) -> (fits: bool)
        ensures
            fits == self.can_move_by(*offset),
    {
        self.position.fits_add(offset) && self.bounding.fits_shift(offset)
    }

    /// Whether the pose teleported to `position` can be held.
    pub fn fits_move_to(&self, position: &Vec3) -> (fits: bool)
        ensures
            fits == self.can_move_to(*position),
    {
        self.bounding.fits_measures() && Aabb::fits_around(
            position,
            self.bounding.max.x - self.bounding.min.x,
            self.bounding.max.y - self.bounding.min.y,
        )
    }

    /// The pose of a player that has just been created.
    pub fn player() -> (pose: FullEntityPose)
        ensures
            pose == FullEntityPose::spawn(),
            pose.consistent(),
    {
        let position = Vec3::new(0, PLAYER_SPAWN_Y, 0);
        FullEntityPose {
            position,
            yaw: 0,
            pitch: 0,
            bounding: Aabb::create(position, PLAYER_WIDTH, PLAYER_HEIGHT),
        }
    }

    /// Moves the pose by the given vector.
    pub fn move_by(&mut self, vec: Vec3)
        requires
            old(self).can_move_by(vec),
        ensures
            *final(self) == old(self).moved_by(vec),
            old(self).consistent() ==> final(self).consistent(),
    {
        self.position = self.position.add(vec);
        self.bounding = self.bounding.move_by(vec);
    }

    /// Takes up what the collisions of this tick have added up to: moves
    /// the pose by the velocity of `reaction` and sets that velocity to zero.
    pub fn apply_reaction(&mut self, reaction: &mut EntityReaction)
        requires
            old(self).can_move_by(old(reaction).velocity),
        ensures
            *final(self) == old(self).moved_by(old(reaction).velocity),
            final(reaction).velocity == (Vec3 { x: 0, y: 0, z: 0 }),
            old(self).consistent() ==> final(self).consistent(),
    {
        self.move_by(reaction.velocity);
        reaction.velocity = Vec3::zero();
    }

    /// Teleports the pose to the given position. The box keeps its height.
    /// It keeps its width where that is even, as it is in every consistent
    /// pose; a box of odd width comes out one unit narrower.
    pub fn move_to(&mut self, pos: Vec3)
        requires
            old(self).can_move_to(pos),
        ensures
            *final(self) == old(self).moved_to(pos),
            final(self).bounding.width() == 2 * half_of(old(self).bounding.width() as i64),
            final(self).bounding.height() == old(self).bounding.height(),
            old(self).consistent() ==> final(self).bounding.width() == old(
                self,
            ).bounding.width(),
            old(self).bounding.wf() ==> final(self).consistent(),
    {
        self.bounding = self.bounding.move_to(pos);
        self.position = pos;
    }
}

/// One change of an entity's pose.
pub enum PoseOp {
    /// `move_by` the offset.
    MoveBy(Vec3),
    /// `move_to` the position.
    MoveTo(Vec3),
}

impl PoseOp {
    /// Whether the pose after this change can be held.
    pub open spec fn fits(self, pose: FullEntityPose) -> bool {
        match self {
            PoseOp::MoveBy(offset) => pose.can_move_by(offset),
            PoseOp::MoveTo(position) => pose.can_move_to(position),
        }
    }

    /// The pose after this change.
    pub open spec fn apply(self, pose: FullEntityPose) -> FullEntityPose {
        match self {
            PoseOp::MoveBy(offset) => pose.moved_by(offset),
            PoseOp::MoveTo(position) => pose.moved_to(position),
        }
    }
}

/// The pose after `ops`, applied in order to `start`.
pub open spec fn run_ops(start: FullEntityPose, ops: Seq<PoseOp>) -> FullEntityPose
    decreases ops.len(),
{
    if ops.len() == 0 {
        start
    } else {
        ops.last().apply(run_ops(start, ops.drop_last()))
    }
}

/// Whether every pose on the way from `start` through `ops` can be held.
pub open spec fn all_fit(start: FullEntityPose, ops: Seq<PoseOp>) -> bool
    decreases ops.len(),
{
    ops.len() > 0 ==> all_fit(start, ops.drop_last()) && ops.last().fits(
        run_ops(start, ops.drop_last()),
    )
}

/// However an entity is moved and teleported, its bounding box stays the one
/// that its width and height give around its position.
pub proof fn lemma_bounding_follows_position(start: FullEntityPose, ops: Seq<PoseOp>)
    requires
        start.consistent(),
        all_fit(start, ops),
    ensures
        run_ops(start, ops).consistent(),
    decreases ops.len(),
{
    if ops.len() > 0 {
        lemma_bounding_follows_position(start, ops.drop_last());
    }
}

/// A move and the move that undoes it leave the position and the bounding
/// box exactly as they were.
pub proof fn lemma_move_there_and_back(pose: FullEntityPose, offset: Vec3)
    requires
        pose.can_move_by(offset),
        offset.can_negate(),
    ensures
        pose.moved_by(offset).can_move_by(offset.negated()),
        pose.moved_by(offset).moved_by(offset.negated()) == pose,
{
}

} // verus!
