//! The attribute records that make up an entity.

use vstd::prelude::*;

use crate::aabb::Vec3;
use crate::global::Global;

pub mod pose;
pub mod vitals;

verus! {

/// The name under which a player is seen in the game. It never changes.
#[derive(Clone, Debug)]
pub struct InGameName {
    name: String,
}

impl View for InGameName {
    type V = Seq<char>;

    closed spec fn view(&self) -> Seq<char> {
        self.name@
    }
}

impl InGameName {
    /// The name that reads `name`.
    pub fn new(name: String) -> (in_game_name: InGameName)
        ensures
            in_game_name@ == name@,
    {
        InGameName { name }
    }

    /// Whether the name reads `name`.
    pub fn reads(&self, name: &String) -> (same: bool)
        ensures
            same == (self@ == name@),
    {
        self.name == *name
    }

    /// The name as a string slice.
    pub fn as_str(&self) -> (name: &str)
        ensures
            name@ == self@,
    {
        self.name.as_str()
    }
}

/// The last keep-alive that went out to a player, and whether it was answered.
#[derive(Clone, Copy, Debug, PartialEq, Eq, Structural)]
pub struct KeepAlive {
    /// When the last keep-alive was sent, in nanoseconds, if one ever was.
    pub last_sent: Option<u64>,
    /// Whether a keep-alive has been sent that the client has not answered.
    pub unresponded: bool,
}

impl KeepAlive {
    /// Only a keep-alive that was sent can be unanswered.
    pub open spec fn wf(self) -> bool {
        self.unresponded ==> self.last_sent is Some
    }
}

impl Default for KeepAlive {
    fn default() -> (keep_alive: KeepAlive)
        ensures
            keep_alive == (KeepAlive { last_sent: None, unresponded: false }),
    {
        KeepAlive { last_sent: None, unresponded: false }
    }
}

/// Marks an entity as a player.
#[derive(Clone, Copy, Debug, PartialEq, Eq, Structural)]
pub struct Player;

/// The phase of a connection's protocol lifecycle.
#[derive(Clone, Copy, Debug, PartialEq, Eq, Structural)]
pub enum LoginState {
    Handshake,
    Status,
    Login,
    TransitioningPlay,
    Play,
    Terminate,
}

impl LoginState {
    /// The place of the phase in the lifecycle: `Handshake` comes first and
    /// `Terminate` last.
    pub open spec fn rank(self) -> nat {
        match self {
            LoginState::Handshake => 0,
            LoginState::Status => 1,
            LoginState::Login => 2,
            LoginState::TransitioningPlay => 3,
            LoginState::Play => 4,
            LoginState::Terminate => 5,
        }
    }

    /// Whether a connection in this phase may be in `next` afterwards: it
    /// may stay where it is or move on, and never goes back. `Terminate`
    /// can follow every phase and is followed by itself alone.
    pub open spec fn may_become(self, next: LoginState) -> bool {
        self.rank() <= next.rank()
    }

    /// The place of the phase in the lifecycle.
    pub fn order(&self) -> (rank: u8)
        ensures
            rank == self.rank(),
    {
        match self {
            LoginState::Handshake => 0,
            LoginState::Status => 1,
            LoginState::Login => 2,
            LoginState::TransitioningPlay => 3,
            LoginState::Play => 4,
            LoginState::Terminate => 5,
        }
    }

    /// Moves the connection to `next` where the lifecycle allows it, and
    /// says whether it does. A move backwards is refused and changes nothing.
    pub fn advance(&mut self, next: LoginState) -> (allowed: bool)
        ensures
            allowed == old(self).may_become(next),
            *final(self) == if allowed {
                next
            } else {
                *old(self)
            },
    {
        if self.order() <= next.order() {
            *self = next;
            true
        } else {
            false
        }
    }
}

/// Where a connection has been, one phase after the other, is never back
/// where it was before unless it has not moved at all in between.
pub proof fn lemma_login_progression_acyclic(path: Seq<LoginState>, from: int, to: int)
    requires
        forall|i: int| 0 <= i < path.len() - 1 ==> (#[trigger] path[i]).may_become(path[i + 1]),
        0 <= from <= to < path.len(),
        path[from] == path[to],
    ensures
        forall|i: int| from <= i <= to ==> path[i] == path[from],
{
    assert forall|i: int| from <= i <= to implies path[i] == path[from] by {
        lemma_login_rank_never_falls(path, from, i);
        lemma_login_rank_never_falls(path, i, to);
    }
}

/// Along the phases that a connection has been in, the rank never falls.
pub proof fn lemma_login_rank_never_falls(path: Seq<LoginState>, from: int, to: int)
    requires
        forall|i: int| 0 <= i < path.len() - 1 ==> (#[trigger] path[i]).may_become(path[i + 1]),
        0 <= from <= to < path.len(),
    ensures
        path[from].rank() <= path[to].rank(),
    decreases to - from,
{
    if from < to {
        lemma_login_rank_never_falls(path, from, to - 1);
        assert(path[to - 1].may_become(path[to - 1 + 1]));
    }
}

/// Whether an entity has been made invincible for good.
#[derive(Clone, Copy, Debug, PartialEq, Eq, Structural)]
pub struct HasInvincibility(pub bool);

/// The window during which an entity ignores damage.
#[derive(Clone, Copy, Debug, PartialEq, Eq, Structural)]
pub struct ImmuneStatus {
    /// The first tick at which damage is taken again.
    pub until: u64,
}

impl ImmuneStatus {
    /// Whether damage is ignored at the context's current tick.
    pub fn is_invincible(&self, global: &Global) -> (invincible: bool)
        ensures
            invincible == (global.tick < self.until),
    {
        global.tick < self.until
    }
}

impl Default for ImmuneStatus {
    fn default() -> (status: ImmuneStatus)
        ensures
            status.until == 0,
    {
        ImmuneStatus { until: 0 }
    }
}

/// The unique identifier of an entity, most often of a player: its 128 bits
/// as one number. It is the same for as long as the entity lives.
#[derive(Clone, Copy, Debug, PartialEq, Eq, Structural)]
pub struct Uuid(pub u128);

/// Marks a living entity that is not a player, such as a zombie.
#[derive(Clone, Copy, Debug, PartialEq, Eq, Structural)]
pub struct MinecraftEntity;

/// How far an entity runs in one tick, in coordinate units.
#[derive(Clone, Copy, Debug, PartialEq, Eq, Structural)]
pub struct RunningSpeed(pub i64);

/// A tenth of a block per tick.
pub const DEFAULT_RUNNING_SPEED: i64 = 100;

impl RunningSpeed {
    /// A running speed is above zero.
    pub open spec fn wf(self) -> bool {
        self.0 > 0
    }
}

impl Default for RunningSpeed {
    fn default() -> (speed: RunningSpeed)
        ensures
            speed.0 == DEFAULT_RUNNING_SPEED,
            speed.wf(),
    {
        RunningSpeed(DEFAULT_RUNNING_SPEED)
    }
}

/// Marks an entity that other entities may pick as a target.
#[derive(Clone, Copy, Debug, PartialEq, Eq, Structural)]
pub struct AiTargetable;

/// What collisions do to an entity within one tick. Collisions are found
/// while every pose is read and none is written; the reaction is what is
/// written instead, and the pose takes it up afterwards.
#[derive(Clone, Copy, Debug, PartialEq, Eq, Structural)]
pub struct EntityReaction {
    /// The velocity that the collisions of this tick add up to.
    pub velocity: Vec3,
}

impl Default for EntityReaction {
    fn default() -> (reaction: EntityReaction)
        ensures
            reaction.velocity == (Vec3 { x: 0, y: 0, z: 0 }),
    {
        EntityReaction { velocity: Vec3 { x: 0, y: 0, z: 0 } }
    }
}

} // verus!
