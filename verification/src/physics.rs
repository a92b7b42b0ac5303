//! Physics engine

use vstd::prelude::*;

use crate::repo_interfaces::{
    zero, zero_vector, MissileIdData, PlayerIdData, ScalarData, Vec2Data,
};
use crate::world::{
    lemma_with_accelerations, lemma_with_missile_accelerations, lemma_with_missile_motions,
    lemma_with_motions, MovingObject, World, WorldView,
};

verus! {

/// Data representation of a star: where it stands and its mass.
///
/// Stars exert gravitational attraction on ships and missiles.
#[derive(Clone, Copy, Debug, PartialEq)]
pub struct StarData {
    pub pos: Vec2Data,
    pub mass: ScalarData,
}

impl StarData {
    /// A star at `position` with mass `mass`.
    pub fn new(position: Vec2Data, mass: ScalarData) -> (star: Self)
        ensures
            star.pos == position,
            star.mass == mass,
    {
        StarData { pos: position, mass }
    }
}

/// Position and acceleration of a player's ship, under the player's id.
pub type PlayerPosAcc = (PlayerIdData, Vec2Data, Vec2Data);

/// Position and acceleration of a missile, under its player's id and its index.
pub type MissilePosAcc = (PlayerIdData, MissileIdData, Vec2Data, Vec2Data);

/// `list` gives position and acceleration of every player's ship, each player
/// once.
pub open spec fn lists_player_pos_and_acc(world: World, list: Seq<PlayerPosAcc>) -> bool {
    &&& world.is_roster(list.map_values(|e: PlayerPosAcc| e.0))
    &&& forall|i: int|
        0 <= i < list.len() ==> {
            let e = #[trigger] list[i];
            e.1 == world.players[e.0].body.position && e.2 == world.players[e.0].body.acceleration
        }
}

/// `list` gives position and acceleration of every missile, each missile once.
pub open spec fn lists_missile_pos_and_acc(world: World, list: Seq<MissilePosAcc>) -> bool {
    &&& world.is_missile_roster(list.map_values(|e: MissilePosAcc| (e.0, e.1)))
    &&& forall|i: int|
        0 <= i < list.len() ==> {
            let e = #[trigger] list[i];
            let m = world.players[e.0].missiles[e.1 as int];
            e.2 == m.position && e.3 == m.acceleration
        }
}

/// Data repository interface for gravity use case.
pub trait GravityDataGateway: WorldView {
    /// Get all stars.
    fn get_stars_position_and_mass(&self) -> (stars: Vec<StarData>)
        ensures
            stars@ == self.world().stars,
    ;

    /// Get position and acceleration of all player objects, in any order.
    fn get_player_pos_and_acc(&self) -> (list: Vec<PlayerPosAcc>)
        ensures
            lists_player_pos_and_acc(self.world(), list@),
    ;

    /// Get position and acceleration of all missile objects, in any order.
    fn get_missile_pos_and_acc(&self) -> (list: Vec<MissilePosAcc>)
        ensures
            lists_missile_pos_and_acc(self.world(), list@),
    ;

    /// Update acceleration of player objects. Every id must be that of a player.
    fn set_acceleration_for_player(&mut self, updates: Vec<(PlayerIdData, Vec2Data)>)
        requires
            forall|i: int|
                0 <= i < updates@.len() ==> old(self).world().has_player((#[trigger] updates@[i]).0),
        ensures
            final(self).world() == old(self).world().with_accelerations(updates@),
    ;

    /// Update acceleration of missile objects. Every entry must name a missile
    /// that exists.
    fn set_acceleration_for_missiles(
        &mut self,
        updates: Vec<(PlayerIdData, MissileIdData, Vec2Data)>,
    )
        requires
            forall|i: int|
                0 <= i < updates@.len() ==> old(self).world().has_missile(
                    (#[trigger] updates@[i]).0,
                    updates@[i].1,
                ),
        ensures
            final(self).world() == old(self).world().with_missile_accelerations(updates@),
    ;
}

/// Gravity use-case
///
/// This use case adds the acceleration by gravity to all player and missile
/// objects. It holds the arithmetic it needs: `pull` gives the acceleration
/// that an attractant at a position and of a mass causes in a body at another
/// position, `add` adds two vectors.
pub struct Gravity<Pull, Add> {
    pub pull: Pull,
    pub add: Add,
}

impl<
    Pull: Fn(Vec2Data, ScalarData, Vec2Data) -> Vec2Data,
    Add: Fn(Vec2Data, Vec2Data) -> Vec2Data,
> Gravity<Pull, Add> {
    /// Create use case object
    pub fn new(pull: Pull, add: Add) -> (gravity: Self)
        ensures
            gravity.pull == pull,
            gravity.add == add,
    {
        Self { pull, add }
    }

    /// The arithmetic accepts every argument.
    pub open spec fn total(&self) -> bool {
        &&& forall|at: Vec2Data, mass: ScalarData, body: Vec2Data| #[trigger]
            call_requires(self.pull, (at, mass, body))
        &&& forall|a: Vec2Data, b: Vec2Data| #[trigger] call_requires(self.add, (a, b))
    }

    /// `next` is `earlier` plus the pull of `star` on a body at `position`.
    pub open spec fn adds_pull(
        &self,
        star: StarData,
        position: Vec2Data,
        earlier: Vec2Data,
        next: Vec2Data,
    ) -> bool {
        exists|pulled: Vec2Data|
            {
                &&& call_ensures(self.pull, (star.pos, star.mass, position), pulled)
                &&& #[trigger] call_ensures(self.add, (earlier, pulled), next)
            }
    }

    /// `sum` is the sum of the pulls of `stars` on a body at `position`: the
    /// pulls are added to the zero vector one by one, first star first.
    pub open spec fn sums_to(&self, stars: Seq<StarData>, position: Vec2Data, sum: Vec2Data) -> bool {
        exists|running: Seq<Vec2Data>|
            {
                &&& #[trigger] running.len() == stars.len() + 1
                &&& running[0] == zero_vector()
                &&& running[stars.len() as int] == sum
                &&& forall|i: int|
                    0 <= i < stars.len() ==> #[trigger] self.adds_pull(
                        stars[i],
                        position,
                        running[i],
                        running[i + 1],
                    )
            }
    }

    /// `result` is `acceleration` plus the sum of the pulls of `stars` on a body
    /// at `position`.
    pub open spec fn attracts(
        &self,
        stars: Seq<StarData>,
        position: Vec2Data,
        acceleration: Vec2Data,
        result: Vec2Data,
    ) -> bool {
        exists|sum: Vec2Data|
            {
                &&& self.sums_to(stars, position, sum)
                &&& #[trigger] call_ensures(self.add, (acceleration, sum), result)
            }
    }

    /// `after` is the body `before` with the pull of `stars` added to its
    /// acceleration, and nothing else changed.
    pub open spec fn pulls(&self, stars: Seq<StarData>, before: MovingObject, after: MovingObject) -> bool {
        &&& after == (MovingObject { acceleration: after.acceleration, ..before })
        &&& self.attracts(stars, before.position, before.acceleration, after.acceleration)
    }

    /// `after` is the world `before` with the pull of its stars added to the
    /// acceleration of every ship and of every missile, each from where it was
    /// in `before`, and nothing else changed.
    pub open spec fn applied(&self, before: World, after: World) -> bool {
        &&& after.stars == before.stars
        &&& before.same_shape(after)
        &&& forall|id: PlayerIdData| #[trigger]
            before.has_player(id) ==> self.pulls(
                before.stars,
                before.players[id].body,
                after.players[id].body,
            )
        &&& forall|id: PlayerIdData, m: MissileIdData| #[trigger]
            before.has_missile(id, m) ==> self.pulls(
                before.stars,
                before.players[id].missiles[m as int],
                after.players[id].missiles[m as int],
            )
    }

    /// Add gravitational acceleration to all player and missile objects
    pub fn execute<Repo: GravityDataGateway>(&self, repo: &mut Repo)
        requires
            self.total(),
        ensures
            self.applied(old(repo).world(), final(repo).world()),
    {
        let stars = repo.get_stars_position_and_mass();
        self.apply_gravitation_to_players(repo, &stars);
        let ghost between = repo.world();
        self.apply_gravitation_to_missiles(repo, &stars);
        proof {
            let before = old(repo).world();
            let after = repo.world();
            assert forall|id: PlayerIdData| #[trigger] before.has_player(id) implies self.pulls(
                before.stars,
                before.players[id].body,
                after.players[id].body,
            ) by {
                assert(between.has_player(id));
            }
            assert forall|id: PlayerIdData, m: MissileIdData| #[trigger]
                before.has_missile(id, m) implies self.pulls(
                before.stars,
                before.players[id].missiles[m as int],
                after.players[id].missiles[m as int],
            ) by {
                assert(between.has_missile(id, m));
            }
            assert forall|id: PlayerIdData| #[trigger] before.has_player(id) implies before.players[id].missiles.len()
                == after.players[id].missiles.len() by {
                assert(between.has_player(id));
            }
        }
    }

    /// The acceleration of a body at `position` that had `acceleration`, with
    /// the pull of `stars` added.
    pub fn attraction(&self, stars: &Vec<StarData>, position: Vec2Data, acceleration: Vec2Data) -> (result:
        Vec2Data)
        requires
            self.total(),
        ensures
            self.attracts(stars@, position, acceleration, result),
    {
        let mut sum = zero();
        let ghost mut running: Seq<Vec2Data> = seq![zero_vector()];
        for i in 0..stars.len()
            invariant
                self.total(),
                running.len() == i + 1,
                running[0] == zero_vector(),
                running[i as int] == sum,
                forall|k: int|
                    0 <= k < i ==> #[trigger] self.adds_pull(
                        stars@[k],
                        position,
                        running[k],
                        running[k + 1],
                    ),
        {
            let star = stars[i];
            let pulled = (self.pull)(star.pos, star.mass, position);
            let next = (self.add)(sum, pulled);
            proof {
                running = running.push(next);
            }
            sum = next;
        }
        (self.add)(acceleration, sum)
    }

    /// Add gravitation acceleration to player objects
    pub fn apply_gravitation_to_players<Repo: GravityDataGateway>(
        &self,
        repo: &mut Repo,
        stars: &Vec<StarData>,
    )
        requires
            self.total(),
            stars@ == old(repo).world().stars,
        ensures
            final(repo).world().stars == old(repo).world().stars,
            old(repo).world().same_shape(final(repo).world()),
            forall|id: PlayerIdData| #[trigger]
                old(repo).world().has_player(id) ==> {
                    &&& final(repo).world().players[id].missiles == old(
                        repo,
                    ).world().players[id].missiles
                    &&& self.pulls(
                        stars@,
                        old(repo).world().players[id].body,
                        final(repo).world().players[id].body,
                    )
                },
    {
        let players = repo.get_player_pos_and_acc();
        let ghost ids = players@.map_values(|e: PlayerPosAcc| e.0);
        let mut acc_updates: Vec<(PlayerIdData, Vec2Data)> = Vec::new();
        for i in 0..players.len()
            invariant
                self.total(),
                acc_updates@.len() == i,
                forall|k: int|
                    0 <= k < i ==> {
                        &&& (#[trigger] acc_updates@[k]).0 == players@[k].0
                        &&& self.attracts(stars@, players@[k].1, players@[k].2, acc_updates@[k].1)
                    },
        {
            let (id, player_pos, player_acc) = players[i];
            acc_updates.push((id, self.attraction(stars, player_pos, player_acc)));
        }
        proof {
            let world = repo.world();
            assert forall|k: int| 0 <= k < acc_updates@.len() implies world.has_player(
                (#[trigger] acc_updates@[k]).0,
            ) by {
                assert(ids[k] == players@[k].0);
            }
            assert forall|i: int, j: int| 0 <= i < j < acc_updates@.len() implies (
            #[trigger] acc_updates@[i]).0 != (#[trigger] acc_updates@[j]).0 by {
                assert(ids[i] == players@[i].0);
                assert(ids[j] == players@[j].0);
            }
            lemma_with_accelerations(world, acc_updates@);
        }
        repo.set_acceleration_for_player(acc_updates);
        proof {
            let before = old(repo).world();
            let after = repo.world();
            assert forall|id: PlayerIdData| #[trigger] before.has_player(id) implies self.pulls(
                stars@,
                before.players[id].body,
                after.players[id].body,
            ) by {
                let k = choose|k: int| 0 <= k < ids.len() && ids[k] == id;
                assert(acc_updates@[k].0 == id);
            }
        }
    }

    /// Add gravitational acceleration to missile objects
    pub fn apply_gravitation_to_missiles<Repo: GravityDataGateway>(
        &self,
        repo: &mut Repo,
        stars: &Vec<StarData>,
    )
        requires
            self.total(),
            stars@ == old(repo).world().stars,
        ensures
            final(repo).world().stars == old(repo).world().stars,
            old(repo).world().same_shape(final(repo).world()),
            forall|id: PlayerIdData| #[trigger]
                old(repo).world().has_player(id) ==> final(repo).world().players[id].body == old(
                    repo,
                ).world().players[id].body,
            forall|id: PlayerIdData, m: MissileIdData| #[trigger]
                old(repo).world().has_missile(id, m) ==> self.pulls(
                    stars@,
                    old(repo).world().players[id].missiles[m as int],
                    final(repo).world().players[id].missiles[m as int],
                ),
    {
        let missiles = repo.get_missile_pos_and_acc();
        let ghost keys = missiles@.map_values(|e: MissilePosAcc| (e.0, e.1));
        let mut acc_updates: Vec<(PlayerIdData, MissileIdData, Vec2Data)> = Vec::new();
        for i in 0..missiles.len()
            invariant
                self.total(),
                acc_updates@.len() == i,
                forall|k: int|
                    0 <= k < i ==> {
                        &&& (#[trigger] acc_updates@[k]).0 == missiles@[k].0
                        &&& acc_updates@[k].1 == missiles@[k].1
                        &&& self.attracts(stars@, missiles@[k].2, missiles@[k].3, acc_updates@[k].2)
                    },
        {
            let (player_id, missile_id, pos, acc) = missiles[i];
            acc_updates.push((player_id, missile_id, self.attraction(stars, pos, acc)));
        }
        proof {
            let world = repo.world();
            assert forall|k: int| 0 <= k < acc_updates@.len() implies world.has_missile(
                (#[trigger] acc_updates@[k]).0,
                acc_updates@[k].1,
            ) by {
                assert(keys[k] == (missiles@[k].0, missiles@[k].1));
            }
            assert forall|i: int, j: int| 0 <= i < j < acc_updates@.len() implies ((
            #[trigger] acc_updates@[i]).0, acc_updates@[i].1) != ((#[trigger] acc_updates@[j]).0, acc_updates@[j].1) by {
                assert(keys[i] == (missiles@[i].0, missiles@[i].1));
                assert(keys[j] == (missiles@[j].0, missiles@[j].1));
            }
            lemma_with_missile_accelerations(world, acc_updates@);
        }
        repo.set_acceleration_for_missiles(acc_updates);
        proof {
            let before = old(repo).world();
            let after = repo.world();
            assert forall|id: PlayerIdData, m: MissileIdData| #[trigger]
                before.has_missile(id, m) implies self.pulls(
                stars@,
                before.players[id].missiles[m as int],
                after.players[id].missiles[m as int],
            ) by {
                let k = choose|k: int| 0 <= k < keys.len() && keys[k] == (id, m);
                assert(acc_updates@[k].0 == id && acc_updates@[k].1 == m);
            }
        }
    }
}

/// Position, velocity and acceleration of a player's ship, under the player's id.
pub type PlayerInfoData = (PlayerIdData, Vec2Data, Vec2Data, Vec2Data);

/// Position, velocity and acceleration of a missile, under its player's id and
/// its index.
pub type MissileInfoData = (PlayerIdData, MissileIdData, Vec2Data, Vec2Data, Vec2Data);

/// `list` gives position, velocity and acceleration of every player's ship,
/// each player once.
pub open spec fn lists_player_info(world: World, list: Seq<PlayerInfoData>) -> bool {
    &&& world.is_roster(list.map_values(|e: PlayerInfoData| e.0))
    &&& forall|i: int|
        0 <= i < list.len() ==> {
            let e = #[trigger] list[i];
            let b = world.players[e.0].body;
            e.1 == b.position && e.2 == b.velocity && e.3 == b.acceleration
        }
}

/// `list` gives position, velocity and acceleration of every missile, each
/// missile once.
pub open spec fn lists_missile_info(world: World, list: Seq<MissileInfoData>) -> bool {
    &&& world.is_missile_roster(list.map_values(|e: MissileInfoData| (e.0, e.1)))
    &&& forall|i: int|
        0 <= i < list.len() ==> {
            let e = #[trigger] list[i];
            let m = world.players[e.0].missiles[e.1 as int];
            e.2 == m.position && e.3 == m.velocity && e.4 == m.acceleration
        }
}

/// Data repository interface for the integration use case.
pub trait IntegrateDataGateway: WorldView {
    /// Return `(id, position, velocity, acceleration)` for all player
    fn get_player_info(&self) -> (list: Vec<PlayerInfoData>)
        ensures
            lists_player_info(self.world(), list@),
    ;

    /// Return `(player_id, missile_id, position, velocity, acceleration)` for all missiles
    fn get_missile_info(&self) -> (list: Vec<MissileInfoData>)
        ensures
            lists_missile_info(self.world(), list@),
    ;

    /// Update position, velocity and acceleration for all player
    fn set_player_info(&mut self, data: Vec<PlayerInfoData>)
        requires
            forall|i: int|
                0 <= i < data@.len() ==> old(self).world().has_player((#[trigger] data@[i]).0),
        ensures
            final(self).world() == old(self).world().with_motions(data@),
    ;

    /// Update position, velocity and acceleration for all missiles
    fn set_missile_info(&mut self, data: Vec<MissileInfoData>)
        requires
            forall|i: int|
                0 <= i < data@.len() ==> old(self).world().has_missile(
                    (#[trigger] data@[i]).0,
                    data@[i].1,
                ),
        ensures
            final(self).world() == old(self).world().with_missile_motions(data@),
    ;
}

/// Integrate use-case
///
/// Integrates position and velocity of all objects. This will also set the
/// acceleration to zero. It holds the arithmetic it needs: `add` adds two
/// vectors, `scale` multiplies a vector by a scalar.
pub struct Integrate<Add, Scale> {
    pub add: Add,
    pub scale: Scale,
}

impl<
    Add: Fn(Vec2Data, Vec2Data) -> Vec2Data,
    Scale: Fn(Vec2Data, ScalarData) -> Vec2Data,
> Integrate<Add, Scale> {
    /// Create a new integration use case
    pub fn new(add: Add, scale: Scale) -> (integrate: Self)
        ensures
            integrate.add == add,
            integrate.scale == scale,
    {
        Self { add, scale }
    }

    /// The arithmetic accepts every argument.
    pub open spec fn total(&self) -> bool {
        &&& forall|a: Vec2Data, b: Vec2Data| #[trigger] call_requires(self.add, (a, b))
        &&& forall|v: Vec2Data, by: ScalarData| #[trigger] call_requires(self.scale, (v, by))
    }

    /// `result` is `v` plus `inc` times `delta_time`: one step of Euler's method.
    pub open spec fn integrates(
        &self,
        v: Vec2Data,
        inc: Vec2Data,
        delta_time: ScalarData,
        result: Vec2Data,
    ) -> bool {
        exists|step: Vec2Data|
            {
                &&& call_ensures(self.scale, (inc, delta_time), step)
                &&& #[trigger] call_ensures(self.add, (v, step), result)
            }
    }

    /// `after` is the body `before` one step of `delta_time` later: moved by its
    /// velocity, sped up by its acceleration, its acceleration used up, and
    /// facing as before.
    pub open spec fn advances(
        &self,
        delta_time: ScalarData,
        before: MovingObject,
        after: MovingObject,
    ) -> bool {
        &&& self.integrates(before.position, before.velocity, delta_time, after.position)
        &&& self.integrates(before.velocity, before.acceleration, delta_time, after.velocity)
        &&& after.acceleration == zero_vector()
        &&& after.angle == before.angle
    }

    /// `after` is the world `before` with every ship and every missile advanced
    /// by one step of `delta_time`, and nothing else changed.
    pub open spec fn stepped(&self, delta_time: ScalarData, before: World, after: World) -> bool {
        &&& after.stars == before.stars
        &&& before.same_shape(after)
        &&& forall|id: PlayerIdData| #[trigger]
            before.has_player(id) ==> self.advances(
                delta_time,
                before.players[id].body,
                after.players[id].body,
            )
        &&& forall|id: PlayerIdData, m: MissileIdData| #[trigger]
            before.has_missile(id, m) ==> self.advances(
                delta_time,
                before.players[id].missiles[m as int],
                after.players[id].missiles[m as int],
            )
    }

    /// Run the use case
    pub fn execute<Repo: IntegrateDataGateway>(&self, repo: &mut Repo, delta_time: ScalarData)
        requires
            self.total(),
        ensures
            self.stepped(delta_time, old(repo).world(), final(repo).world()),
    {
        self.integrate_player(repo, delta_time);
        let ghost between = repo.world();
        self.integrate_missiles(repo, delta_time);
        proof {
            let before = old(repo).world();
            let after = repo.world();
            assert forall|id: PlayerIdData| #[trigger] before.has_player(id) implies self.advances(
                delta_time,
                before.players[id].body,
                after.players[id].body,
            ) by {
                assert(between.has_player(id));
            }
            assert forall|id: PlayerIdData, m: MissileIdData| #[trigger]
                before.has_missile(id, m) implies self.advances(
                delta_time,
                before.players[id].missiles[m as int],
                after.players[id].missiles[m as int],
            ) by {
                assert(between.has_missile(id, m));
            }
            assert forall|id: PlayerIdData| #[trigger] before.has_player(id) implies before.players[id].missiles.len()
                == after.players[id].missiles.len() by {
                assert(between.has_player(id));
            }
        }
    }

    /// Integrate a vector in time using eulers method
    pub fn integrate(&self, v: Vec2Data, inc: Vec2Data, delta_time: ScalarData) -> (result: Vec2Data)
        requires
            self.total(),
        ensures
            self.integrates(v, inc, delta_time, result),
    {
        let step = (self.scale)(inc, delta_time);
        (self.add)(v, step)
    }

    /// Integrate position and velocity and set acceleration to zero
    pub fn integrate_pos_vel_and_acc(
        &self,
        pos: Vec2Data,
        vel: Vec2Data,
        acc: Vec2Data,
        delta_time: ScalarData,
    ) -> (next: (Vec2Data, Vec2Data, Vec2Data))
        requires
            self.total(),
        ensures
            self.integrates(pos, vel, delta_time, next.0),
            self.integrates(vel, acc, delta_time, next.1),
            next.2 == zero_vector(),
    {
        (self.integrate(pos, vel, delta_time), self.integrate(vel, acc, delta_time), zero())
    }

    /// Integrate position and velocity of all player objects. Also set acceleration to zero.
    pub fn integrate_player<Repo: IntegrateDataGateway>(&self, repo: &mut Repo, delta_time: ScalarData)
        requires
            self.total(),
        ensures
            final(repo).world().stars == old(repo).world().stars,
            old(repo).world().same_shape(final(repo).world()),
            forall|id: PlayerIdData| #[trigger]
                old(repo).world().has_player(id) ==> {
                    &&& final(repo).world().players[id].missiles == old(
                        repo,
                    ).world().players[id].missiles
                    &&& self.advances(
                        delta_time,
                        old(repo).world().players[id].body,
                        final(repo).world().players[id].body,
                    )
                },
    {
        let players = repo.get_player_info();
        let ghost ids = players@.map_values(|e: PlayerInfoData| e.0);
        let mut data: Vec<PlayerInfoData> = Vec::new();
        for i in 0..players.len()
            invariant
                self.total(),
                data@.len() == i,
                forall|k: int|
                    0 <= k < i ==> {
                        &&& (#[trigger] data@[k]).0 == players@[k].0
                        &&& self.integrates(players@[k].1, players@[k].2, delta_time, data@[k].1)
                        &&& self.integrates(players@[k].2, players@[k].3, delta_time, data@[k].2)
                        &&& data@[k].3 == zero_vector()
                    },
        {
            let (id, pos, vel, acc) = players[i];
            let (pos, vel, acc) = self.integrate_pos_vel_and_acc(pos, vel, acc, delta_time);
            data.push((id, pos, vel, acc));
        }
        proof {
            let world = repo.world();
            assert forall|k: int| 0 <= k < data@.len() implies world.has_player(
                (#[trigger] data@[k]).0,
            ) by {
                assert(ids[k] == players@[k].0);
            }
            assert forall|i: int, j: int| 0 <= i < j < data@.len() implies (#[trigger] data@[i]).0 != (
            #[trigger] data@[j]).0 by {
                assert(ids[i] == players@[i].0);
                assert(ids[j] == players@[j].0);
            }
            lemma_with_motions(world, data@);
        }
        repo.set_player_info(data);
        proof {
            let before = old(repo).world();
            let after = repo.world();
            assert forall|id: PlayerIdData| #[trigger] before.has_player(id) implies self.advances(
                delta_time,
                before.players[id].body,
                after.players[id].body,
            ) by {
                let k = choose|k: int| 0 <= k < ids.len() && ids[k] == id;
                assert(data@[k].0 == id);
            }
        }
    }

    /// Integrate position and velocity of all missile objects. Also set acceleration to zero.
    pub fn integrate_missiles<Repo: IntegrateDataGateway>(&self, repo: &mut Repo, delta_time: ScalarData)
        requires
            self.total(),
        ensures
            final(repo).world().stars == old(repo).world().stars,
            old(repo).world().same_shape(final(repo).world()),
            forall|id: PlayerIdData| #[trigger]
                old(repo).world().has_player(id) ==> final(repo).world().players[id].body == old(
                    repo,
                ).world().players[id].body,
            forall|id: PlayerIdData, m: MissileIdData| #[trigger]
                old(repo).world().has_missile(id, m) ==> self.advances(
                    delta_time,
                    old(repo).world().players[id].missiles[m as int],
                    final(repo).world().players[id].missiles[m as int],
                ),
    {
        let missiles = repo.get_missile_info();
        let ghost keys = missiles@.map_values(|e: MissileInfoData| (e.0, e.1));
        let mut data: Vec<MissileInfoData> = Vec::new();
        for i in 0..missiles.len()
            invariant
                self.total(),
                data@.len() == i,
                forall|k: int|
                    0 <= k < i ==> {
                        &&& (#[trigger] data@[k]).0 == missiles@[k].0
                        &&& data@[k].1 == missiles@[k].1
                        &&& self.integrates(missiles@[k].2, missiles@[k].3, delta_time, data@[k].2)
                        &&& self.integrates(missiles@[k].3, missiles@[k].4, delta_time, data@[k].3)
                        &&& data@[k].4 == zero_vector()
                    },
        {
            let (pid, mid, pos, vel, acc) = missiles[i];
            let (pos, vel, acc) = self.integrate_pos_vel_and_acc(pos, vel, acc, delta_time);
            data.push((pid, mid, pos, vel, acc));
        }
        proof {
            let world = repo.world();
            assert forall|k: int| 0 <= k < data@.len() implies world.has_missile(
                (#[trigger] data@[k]).0,
                data@[k].1,
            ) by {
                assert(keys[k] == (missiles@[k].0, missiles@[k].1));
            }
            assert forall|i: int, j: int| 0 <= i < j < data@.len() implies ((#[trigger] data@[i]).0, data@[i].1)
                != ((#[trigger] data@[j]).0, data@[j].1) by {
                assert(keys[i] == (missiles@[i].0, missiles@[i].1));
                assert(keys[j] == (missiles@[j].0, missiles@[j].1));
            }
            lemma_with_missile_motions(world, data@);
        }
        repo.set_missile_info(data);
        proof {
            let before = old(repo).world();
            let after = repo.world();
            assert forall|id: PlayerIdData, m: MissileIdData| #[trigger]
                before.has_missile(id, m) implies self.advances(
                delta_time,
                before.players[id].missiles[m as int],
                after.players[id].missiles[m as int],
            ) by {
                let k = choose|k: int| 0 <= k < keys.len() && keys[k] == (id, m);
                assert(data@[k].0 == id && data@[k].1 == m);
            }
        }
    }
}

/// `after` is the body `before` one frame later: the pull of `stars` was added
/// to its acceleration, and a step of `delta_time` has then moved it by its
/// velocity, sped it up by that acceleration and used the acceleration up.
pub open spec fn pulled_then_advanced<Pull, Add, StepAdd, Scale>(
    gravity: Gravity<Pull, Add>,
    integrate: Integrate<StepAdd, Scale>,
    stars: Seq<StarData>,
    delta_time: ScalarData,
    before: MovingObject,
    after: MovingObject,
) -> bool where
    Pull: Fn(Vec2Data, ScalarData, Vec2Data) -> Vec2Data,
    Add: Fn(Vec2Data, Vec2Data) -> Vec2Data,
    StepAdd: Fn(Vec2Data, Vec2Data) -> Vec2Data,
    Scale: Fn(Vec2Data, ScalarData) -> Vec2Data,
 {
    exists|acceleration: Vec2Data|
        {
            &&& #[trigger] gravity.attracts(
                stars,
                before.position,
                before.acceleration,
                acceleration,
            )
            &&& integrate.integrates(before.position, before.velocity, delta_time, after.position)
            &&& integrate.integrates(before.velocity, acceleration, delta_time, after.velocity)
            &&& after.acceleration == zero_vector()
            &&& after.angle == before.angle
        }
}

/// Gravity and then integration make one frame: every ship and every missile
/// is moved by the velocity it had, sped up by the acceleration it had
/// together with the pull of the stars on it where it was, and left without
/// acceleration. Stars, players and the number of their missiles stay.
pub proof fn lemma_gravity_then_integrate<Pull, Add, StepAdd, Scale>(
    gravity: Gravity<Pull, Add>,
    integrate: Integrate<StepAdd, Scale>,
    delta_time: ScalarData,
    before: World,
    between: World,
    after: World,
) where
    Pull: Fn(Vec2Data, ScalarData, Vec2Data) -> Vec2Data,
    Add: Fn(Vec2Data, Vec2Data) -> Vec2Data,
    StepAdd: Fn(Vec2Data, Vec2Data) -> Vec2Data,
    Scale: Fn(Vec2Data, ScalarData) -> Vec2Data,

    requires
        gravity.applied(before, between),
        integrate.stepped(delta_time, between, after),
    ensures
        after.stars == before.stars,
        before.same_shape(after),
        forall|id: PlayerIdData| #[trigger]
            before.has_player(id) ==> pulled_then_advanced(
                gravity,
                integrate,
                before.stars,
                delta_time,
                before.players[id].body,
                after.players[id].body,
            ),
        forall|id: PlayerIdData, m: MissileIdData| #[trigger]
            before.has_missile(id, m) ==> pulled_then_advanced(
                gravity,
                integrate,
                before.stars,
                delta_time,
                before.players[id].missiles[m as int],
                after.players[id].missiles[m as int],
            ),
{
    assert forall|id: PlayerIdData| #[trigger] before.has_player(id) implies {
        &&& before.players[id].missiles.len() == after.players[id].missiles.len()
        &&& pulled_then_advanced(
            gravity,
            integrate,
            before.stars,
            delta_time,
            before.players[id].body,
            after.players[id].body,
        )
    } by {
        assert(between.has_player(id));
        let halfway = between.players[id].body;
        assert(gravity.attracts(
            before.stars,
            before.players[id].body.position,
            before.players[id].body.acceleration,
            halfway.acceleration,
        ));
    }
    assert forall|id: PlayerIdData, m: MissileIdData| #[trigger]
        before.has_missile(id, m) implies pulled_then_advanced(
        gravity,
        integrate,
        before.stars,
        delta_time,
        before.players[id].missiles[m as int],
        after.players[id].missiles[m as int],
    ) by {
        assert(between.has_missile(id, m));
        let halfway = between.players[id].missiles[m as int];
        assert(gravity.attracts(
            before.stars,
            before.players[id].missiles[m as int].position,
            before.players[id].missiles[m as int].acceleration,
            halfway.acceleration,
        ));
    }
}

} // verus!
