//! The game state as a mathematical value: what a gateway's contract speaks of.

use vstd::prelude::*;

use crate::physics::StarData;
use crate::repo_interfaces::{zero_vector, MissileId, PlayerId, ScalarData, Vec2Data, ZERO};

verus! {

/// Any physical body: a player's ship or a missile.
#[derive(Clone, Copy, Debug, PartialEq)]
pub struct MovingObject {
    pub position: Vec2Data,
    pub angle: ScalarData,
    pub velocity: Vec2Data,
    pub acceleration: Vec2Data,
}

/// A body at rest at the origin, facing along the x axis.
pub open spec fn resting_object() -> MovingObject {
    MovingObject {
        position: zero_vector(),
        angle: ZERO,
        velocity: zero_vector(),
        acceleration: zero_vector(),
    }
}

/// A player: its own ship, and the missiles it has fired, oldest first.
pub struct PlayerRecord {
    pub body: MovingObject,
    pub missiles: Seq<MovingObject>,
}

/// The whole game state: the stars, and the players by their ids.
pub struct World {
    pub stars: Seq<StarData>,
    pub players: Map<PlayerId, PlayerRecord>,
}

impl World {
    /// The player `id` exists.
    pub open spec fn has_player(self, id: PlayerId) -> bool {
        self.players.dom().contains(id)
    }

    /// Player `id` exists and has a missile at index `missile`.
    pub open spec fn has_missile(self, id: PlayerId, missile: MissileId) -> bool {
        self.has_player(id) && missile < self.players[id].missiles.len()
    }

    /// This world with the ship of player `id` replaced.
    pub open spec fn with_body(self, id: PlayerId, body: MovingObject) -> World {
        World {
            players: self.players.insert(
                id,
                PlayerRecord { body, missiles: self.players[id].missiles },
            ),
            ..self
        }
    }

    /// This world with missile `missile` of player `id` replaced.
    pub open spec fn with_missile(self, id: PlayerId, missile: MissileId, body: MovingObject)
        -> World {
        World {
            players: self.players.insert(
                id,
                PlayerRecord {
                    body: self.players[id].body,
                    missiles: self.players[id].missiles.update(missile as int, body),
                },
            ),
            ..self
        }
    }

    /// This world with one more missile at the end of the list of player `id`.
    pub open spec fn with_new_missile(self, id: PlayerId, body: MovingObject) -> World {
        World {
            players: self.players.insert(
                id,
                PlayerRecord {
                    body: self.players[id].body,
                    missiles: self.players[id].missiles.push(body),
                },
            ),
            ..self
        }
    }

    /// This world with the orientation of player `id` set.
    pub open spec fn with_orientation(self, id: PlayerId, orientation: ScalarData) -> World {
        self.with_body(id, MovingObject { angle: orientation, ..self.players[id].body })
    }

    /// This world with the acceleration of player `id` set.
    pub open spec fn with_acceleration(self, id: PlayerId, acceleration: Vec2Data) -> World {
        self.with_body(id, MovingObject { acceleration, ..self.players[id].body })
    }

    /// This world with position, velocity and acceleration of player `id` set.
    pub open spec fn with_motion(
        self,
        id: PlayerId,
        position: Vec2Data,
        velocity: Vec2Data,
        acceleration: Vec2Data,
    ) -> World {
        self.with_body(
            id,
            MovingObject { position, velocity, acceleration, ..self.players[id].body },
        )
    }

    /// This world with the acceleration of one missile set.
    pub open spec fn with_missile_acceleration(
        self,
        id: PlayerId,
        missile: MissileId,
        acceleration: Vec2Data,
    ) -> World {
        self.with_missile(
            id,
            missile,
            MovingObject { acceleration, ..self.players[id].missiles[missile as int] },
        )
    }

    /// This world with position, velocity and acceleration of one missile set.
    pub open spec fn with_missile_motion(
        self,
        id: PlayerId,
        missile: MissileId,
        position: Vec2Data,
        velocity: Vec2Data,
        acceleration: Vec2Data,
    ) -> World {
        self.with_missile(
            id,
            missile,
            MovingObject {
                position,
                velocity,
                acceleration,
                ..self.players[id].missiles[missile as int]
            },
        )
    }

    /// This world after the accelerations in `updates` were set, first to last.
    pub open spec fn with_accelerations(self, updates: Seq<(PlayerId, Vec2Data)>) -> World
        decreases updates.len(),
    {
        if updates.len() == 0 {
            self
        } else {
            let u = updates.last();
            self.with_accelerations(updates.drop_last()).with_acceleration(u.0, u.1)
        }
    }

    /// This world after the missile accelerations in `updates` were set, first
    /// to last.
    pub open spec fn with_missile_accelerations(
        self,
        updates: Seq<(PlayerId, MissileId, Vec2Data)>,
    ) -> World
        decreases updates.len(),
    {
        if updates.len() == 0 {
            self
        } else {
            let u = updates.last();
            self.with_missile_accelerations(updates.drop_last()).with_missile_acceleration(
                u.0,
                u.1,
                u.2,
            )
        }
    }

    /// This world after the entries of `data` were written to the players'
    /// ships, first to last.
    pub open spec fn with_motions(
        self,
        data: Seq<(PlayerId, Vec2Data, Vec2Data, Vec2Data)>,
    ) -> World
        decreases data.len(),
    {
        if data.len() == 0 {
            self
        } else {
            let d = data.last();
            self.with_motions(data.drop_last()).with_motion(d.0, d.1, d.2, d.3)
        }
    }

    /// This world after the entries of `data` were written to the missiles,
    /// first to last.
    pub open spec fn with_missile_motions(
        self,
        data: Seq<(PlayerId, MissileId, Vec2Data, Vec2Data, Vec2Data)>,
    ) -> World
        decreases data.len(),
    {
        if data.len() == 0 {
            self
        } else {
            let d = data.last();
            self.with_missile_motions(data.drop_last()).with_missile_motion(
                d.0,
                d.1,
                d.2,
                d.3,
                d.4,
            )
        }
    }

    /// `other` has the same players as this world, each with as many missiles.
    pub open spec fn same_shape(self, other: World) -> bool {
        &&& self.players.dom() == other.players.dom()
        &&& forall|id: PlayerId| #[trigger]
            self.has_player(id) ==> self.players[id].missiles.len()
                == other.players[id].missiles.len()
    }

    /// `ids` names every player, each once.
    pub open spec fn is_roster(self, ids: Seq<PlayerId>) -> bool {
        &&& ids.no_duplicates()
        &&& forall|i: int| 0 <= i < ids.len() ==> self.has_player(#[trigger] ids[i])
        &&& forall|id: PlayerId| self.has_player(id) ==> ids.contains(id)
    }

    /// `keys` names every missile of every player, each once.
    pub open spec fn is_missile_roster(self, keys: Seq<(PlayerId, MissileId)>) -> bool {
        &&& keys.no_duplicates()
        &&& forall|i: int|
            0 <= i < keys.len() ==> self.has_missile((#[trigger] keys[i]).0, keys[i].1)
        &&& forall|id: PlayerId, missile: MissileId|
            self.has_missile(id, missile) ==> keys.contains((id, missile))
    }
}

/// A store of game state, seen as the world it holds.
pub trait WorldView {
    /// The world that the store holds. A store written outside of verification
    /// leaves this unsaid.
    open spec fn world(&self) -> World {
        arbitrary()
    }
}


impl MovingObject {
    /// Set the acceleration, and hand the body on for the next change.
    pub fn set_acceleration(&mut self, acceleration: Vec2Data) -> (this: &mut Self)
        ensures
            *this == (MovingObject { acceleration, ..*old(self) }),
            *final(self) == *final(this),
    {
        self.acceleration = acceleration;
        self
    }

    /// Set the velocity, and hand the body on for the next change.
    pub fn set_velocity(&mut self, velocity: Vec2Data) -> (this: &mut Self)
        ensures
            *this == (MovingObject { velocity, ..*old(self) }),
            *final(self) == *final(this),
    {
        self.velocity = velocity;
        self
    }

    /// Set the position, and hand the body on for the next change.
    pub fn set_position(&mut self, position: Vec2Data) -> (this: &mut Self)
        ensures
            *this == (MovingObject { position, ..*old(self) }),
            *final(self) == *final(this),
    {
        self.position = position;
        self
    }

    /// Set the orientation, and hand the body on for the next change.
    pub fn set_angle(&mut self, angle: ScalarData) -> (this: &mut Self)
        ensures
            *this == (MovingObject { angle, ..*old(self) }),
            *final(self) == *final(this),
    {
        self.angle = angle;
        self
    }
}

impl Default for MovingObject {
    /// A body at rest at the origin.
    fn default() -> (body: Self)
        ensures
            body == resting_object(),
    {
        MovingObject {
            position: [ZERO, ZERO],
            angle: ZERO,
            velocity: [ZERO, ZERO],
            acceleration: [ZERO, ZERO],
        }
    }
}

/// Where no player occurs twice in `updates`, setting the accelerations one
/// after the other gives each player named the acceleration of its entry, and
/// changes nothing else.
pub proof fn lemma_with_accelerations(world: World, updates: Seq<(PlayerId, Vec2Data)>)
    requires
        forall|i: int| 0 <= i < updates.len() ==> world.has_player((#[trigger] updates[i]).0),
        forall|i: int, j: int|
            0 <= i < j < updates.len() ==> (#[trigger] updates[i]).0 != (#[trigger] updates[j]).0,
    ensures
        world.with_accelerations(updates).stars == world.stars,
        world.same_shape(world.with_accelerations(updates)),
        forall|id: PlayerId| #[trigger]
            world.has_player(id) ==> world.with_accelerations(updates).players[id].missiles
                == world.players[id].missiles,
        forall|k: int|
            0 <= k < updates.len() ==> world.with_accelerations(updates).players[(
            #[trigger] updates[k]).0].body == (MovingObject {
                acceleration: updates[k].1,
                ..world.players[updates[k].0].body
            }),
        forall|id: PlayerId|
            world.has_player(id) && (forall|k: int|
                0 <= k < updates.len() ==> (#[trigger] updates[k]).0 != id)
                ==> #[trigger] world.with_accelerations(updates).players[id] == world.players[id],
    decreases updates.len(),
{
    if updates.len() > 0 {
        let earlier = updates.drop_last();
        let u = updates.last();
        lemma_with_accelerations(world, earlier);
        let after = world.with_accelerations(updates);
        assert(after.players.dom() =~= world.players.dom());
        assert(forall|k: int| 0 <= k < earlier.len() ==> (#[trigger] earlier[k]).0 != u.0);
        assert forall|k: int| 0 <= k < updates.len() implies after.players[(
        #[trigger] updates[k]).0].body == (MovingObject {
            acceleration: updates[k].1,
            ..world.players[updates[k].0].body
        }) by {
            if k < earlier.len() {
                assert(earlier[k] == updates[k]);
            }
        }
    }
}

/// Where no missile occurs twice in `updates`, setting the accelerations one
/// after the other gives each missile named the acceleration of its entry, and
/// changes nothing else.
pub proof fn lemma_with_missile_accelerations(
    world: World,
    updates: Seq<(PlayerId, MissileId, Vec2Data)>,
)
    requires
        forall|i: int|
            0 <= i < updates.len() ==> world.has_missile((#[trigger] updates[i]).0, updates[i].1),
        forall|i: int, j: int|
            0 <= i < j < updates.len() ==> ((#[trigger] updates[i]).0, updates[i].1) != ((
            #[trigger] updates[j]).0, updates[j].1),
    ensures
        world.with_missile_accelerations(updates).stars == world.stars,
        world.same_shape(world.with_missile_accelerations(updates)),
        forall|id: PlayerId| #[trigger]
            world.has_player(id) ==> world.with_missile_accelerations(updates).players[id].body
                == world.players[id].body,
        forall|k: int|
            0 <= k < updates.len() ==> world.with_missile_accelerations(updates).players[(
            #[trigger] updates[k]).0].missiles[updates[k].1 as int] == (MovingObject {
                acceleration: updates[k].2,
                ..world.players[updates[k].0].missiles[updates[k].1 as int]
            }),
        forall|id: PlayerId, m: MissileId|
            world.has_missile(id, m) && (forall|k: int|
                0 <= k < updates.len() ==> ((#[trigger] updates[k]).0, updates[k].1) != (id, m))
                ==> #[trigger] world.with_missile_accelerations(
                updates,
            ).players[id].missiles[m as int] == world.players[id].missiles[m as int],
    decreases updates.len(),
{
    if updates.len() > 0 {
        let earlier = updates.drop_last();
        let u = updates.last();
        lemma_with_missile_accelerations(world, earlier);
        let after = world.with_missile_accelerations(updates);
        assert(after.players.dom() =~= world.players.dom());
        assert forall|k: int| 0 <= k < earlier.len() implies ((#[trigger] earlier[k]).0, earlier[k].1)
            != (u.0, u.1) by {
            assert((updates[k].0, updates[k].1) != (
                updates[updates.len() - 1].0,
                updates[updates.len() - 1].1,
            ));
        }
        assert forall|k: int| 0 <= k < updates.len() implies after.players[(
        #[trigger] updates[k]).0].missiles[updates[k].1 as int] == (MovingObject {
            acceleration: updates[k].2,
            ..world.players[updates[k].0].missiles[updates[k].1 as int]
        }) by {
            if k < earlier.len() {
                assert(earlier[k] == updates[k]);
                assert((updates[k].0, updates[k].1) != (
                    updates[updates.len() - 1].0,
                    updates[updates.len() - 1].1,
                ));
            }
        }
    }
}

/// Where no player occurs twice in `data`, writing the entries one after the
/// other gives each player named the position, velocity and acceleration of
/// its entry, and changes nothing else.
pub proof fn lemma_with_motions(world: World, data: Seq<(PlayerId, Vec2Data, Vec2Data, Vec2Data)>)
    requires
        forall|i: int| 0 <= i < data.len() ==> world.has_player((#[trigger] data[i]).0),
        forall|i: int, j: int|
            0 <= i < j < data.len() ==> (#[trigger] data[i]).0 != (#[trigger] data[j]).0,
    ensures
        world.with_motions(data).stars == world.stars,
        world.same_shape(world.with_motions(data)),
        forall|id: PlayerId| #[trigger]
            world.has_player(id) ==> world.with_motions(data).players[id].missiles
                == world.players[id].missiles,
        forall|k: int|
            0 <= k < data.len() ==> world.with_motions(data).players[(#[trigger] data[k]).0].body
                == (MovingObject {
                position: data[k].1,
                velocity: data[k].2,
                acceleration: data[k].3,
                ..world.players[data[k].0].body
            }),
        forall|id: PlayerId|
            world.has_player(id) && (forall|k: int|
                0 <= k < data.len() ==> (#[trigger] data[k]).0 != id)
                ==> #[trigger] world.with_motions(data).players[id] == world.players[id],
    decreases data.len(),
{
    if data.len() > 0 {
        let earlier = data.drop_last();
        let d = data.last();
        lemma_with_motions(world, earlier);
        let after = world.with_motions(data);
        assert(after.players.dom() =~= world.players.dom());
        assert(forall|k: int| 0 <= k < earlier.len() ==> (#[trigger] earlier[k]).0 != d.0);
        assert forall|k: int| 0 <= k < data.len() implies after.players[(#[trigger] data[k]).0].body
            == (MovingObject {
            position: data[k].1,
            velocity: data[k].2,
            acceleration: data[k].3,
            ..world.players[data[k].0].body
        }) by {
            if k < earlier.len() {
                assert(earlier[k] == data[k]);
            }
        }
    }
}

/// Where no missile occurs twice in `data`, writing the entries one after the
/// other gives each missile named the position, velocity and acceleration of
/// its entry, and changes nothing else.
pub proof fn lemma_with_missile_motions(
    world: World,
    data: Seq<(PlayerId, MissileId, Vec2Data, Vec2Data, Vec2Data)>,
)
    requires
        forall|i: int| 0 <= i < data.len() ==> world.has_missile((#[trigger] data[i]).0, data[i].1),
        forall|i: int, j: int|
            0 <= i < j < data.len() ==> ((#[trigger] data[i]).0, data[i].1) != ((
            #[trigger] data[j]).0, data[j].1),
    ensures
        world.with_missile_motions(data).stars == world.stars,
        world.same_shape(world.with_missile_motions(data)),
        forall|id: PlayerId| #[trigger]
            world.has_player(id) ==> world.with_missile_motions(data).players[id].body
                == world.players[id].body,
        forall|k: int|
            0 <= k < data.len() ==> world.with_missile_motions(data).players[(
            #[trigger] data[k]).0].missiles[data[k].1 as int] == (MovingObject {
                position: data[k].2,
                velocity: data[k].3,
                acceleration: data[k].4,
                ..world.players[data[k].0].missiles[data[k].1 as int]
            }),
        forall|id: PlayerId, m: MissileId|
            world.has_missile(id, m) && (forall|k: int|
                0 <= k < data.len() ==> ((#[trigger] data[k]).0, data[k].1) != (id, m))
                ==> #[trigger] world.with_missile_motions(data).players[id].missiles[m as int]
                == world.players[id].missiles[m as int],
    decreases data.len(),
{
    if data.len() > 0 {
        let earlier = data.drop_last();
        let d = data.last();
        lemma_with_missile_motions(world, earlier);
        let after = world.with_missile_motions(data);
        assert(after.players.dom() =~= world.players.dom());
        assert(forall|k: int| 0 <= k < earlier.len() ==> ((#[trigger] earlier[k]).0, earlier[k].1) != (d.0, d.1));
        assert forall|k: int| 0 <= k < data.len() implies after.players[(
        #[trigger] data[k]).0].missiles[data[k].1 as int] == (MovingObject {
            position: data[k].2,
            velocity: data[k].3,
            acceleration: data[k].4,
            ..world.players[data[k].0].missiles[data[k].1 as int]
        }) by {
            if k < earlier.len() {
                assert(earlier[k] == data[k]);
            }
        }
    }
}

} // verus!
