//! The stages of a tick and the order in which they run.

use vstd::prelude::*;

verus! {

/// The number of stages in a tick.
pub const STAGE_COUNT: u8 = 10;

/// What sets a stage going.
#[derive(Clone, Copy, Debug, PartialEq, Eq, Structural)]
pub enum Trigger {
    /// The tick begins.
    Gametick,
    /// What the tick has produced is to be sent.
    Egress,
}

/// One stage of a tick. Within a tick the stages run one after the other,
/// in the order in which they stand here.
#[derive(Clone, Copy, Debug, PartialEq, Eq, Structural)]
pub enum Stage {
    /// Drains what has come in from the network, moves connections on in
    /// their lifecycle, and creates and destroys the entities of players.
    Ingress,
    /// Advances the tick of the global context.
    UpdateTime,
    /// Probes the clients of the players and gives up those that are silent.
    KeepAlive,
    /// Sets the velocities of entities that move by themselves.
    EntityMoveLogic,
    /// Rebuilds the spatial index from the poses of the players.
    RebuildPlayerLocation,
    /// Finds collisions and writes their effect into the reactions.
    EntityDetectCollisions,
    /// Folds the reactions into the poses and resets them.
    ApplyReactions,
    /// Regenerates, applies damage, and respawns the dead.
    UpdateHealth,
    /// Turns what has changed into packets.
    GenerateEgressPackets,
    /// Hands the packets to the network.
    Egress,
}

impl Stage {
    /// The place of the stage in the tick, from 1 to `STAGE_COUNT`.
    pub open spec fn position(self) -> nat {
        match self {
            Stage::Ingress => 1,
            Stage::UpdateTime => 2,
            Stage::KeepAlive => 3,
            Stage::EntityMoveLogic => 4,
            Stage::RebuildPlayerLocation => 5,
            Stage::EntityDetectCollisions => 6,
            Stage::ApplyReactions => 7,
            Stage::UpdateHealth => 8,
            Stage::GenerateEgressPackets => 9,
            Stage::Egress => 10,
        }
    }

    /// Whether the work of the stage may be spread over entities that are
    /// handled at the same time. It may where the stage writes nothing but
    /// records of the entity at hand, and reads of the others only what no
    /// stage writes meanwhile: the poses and the spatial index.
    pub open spec fn per_entity(self) -> bool {
        self == Stage::EntityMoveLogic || self == Stage::EntityDetectCollisions
    }

    /// What sets the stage going: the last stage waits for the order to send,
    /// all others start with the tick.
    pub open spec fn started_by(self) -> Trigger {
        if self == Stage::Egress {
            Trigger::Egress
        } else {
            Trigger::Gametick
        }
    }

    /// The place of the stage in the tick, from 1 to `STAGE_COUNT`.
    pub fn place(&self) -> (position: u8)
        ensures
            position == self.position(),
            1 <= position <= STAGE_COUNT,
    {
        match self {
            Stage::Ingress => 1,
            Stage::UpdateTime => 2,
            Stage::KeepAlive => 3,
            Stage::EntityMoveLogic => 4,
            Stage::RebuildPlayerLocation => 5,
            Stage::EntityDetectCollisions => 6,
            Stage::ApplyReactions => 7,
            Stage::UpdateHealth => 8,
            Stage::GenerateEgressPackets => 9,
            Stage::Egress => 10,
        }
    }

    /// The stage at the place `position`, if there is one.
    pub fn at(position: u8) -> (stage: Option<Stage>)
        ensures
            match stage {
                Some(stage) => stage.position() == position,
                None => position == 0 || position > STAGE_COUNT,
            },
    {
        match position {
            1 => Some(Stage::Ingress),
            2 => Some(Stage::UpdateTime),
            3 => Some(Stage::KeepAlive),
            4 => Some(Stage::EntityMoveLogic),
            5 => Some(Stage::RebuildPlayerLocation),
            6 => Some(Stage::EntityDetectCollisions),
            7 => Some(Stage::ApplyReactions),
            8 => Some(Stage::UpdateHealth),
            9 => Some(Stage::GenerateEgressPackets),
            10 => Some(Stage::Egress),
            _ => None,
        }
    }

    /// The first stage of a tick.
    pub fn first() -> (stage: Stage)
        ensures
            stage.position() == 1,
    {
        Stage::Ingress
    }

    /// The stage that runs after this one, if the tick is not over.
    pub fn next(&self) -> (stage: Option<Stage>)
        ensures
            match stage {
                Some(stage) => stage.position() == self.position() + 1,
                None => self.position() == STAGE_COUNT,
            },
    {
        Stage::at(self.place() + 1)
    }

    /// Whether the work of the stage may be spread over entities.
    pub fn parallel_per_entity(&self) -> (parallel: bool)
        ensures
            parallel == self.per_entity(),
    {
        match self {
            Stage::EntityMoveLogic => true,
            Stage::EntityDetectCollisions => true,
            _ => false,
        }
    }

    /// What sets the stage going.
    pub fn trigger(&self) -> (trigger: Trigger)
        ensures
            trigger == self.started_by(),
    {
        match self {
            Stage::Egress => Trigger::Egress,
            _ => Trigger::Gametick,
        }
    }
}

} // verus!
