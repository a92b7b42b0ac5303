//! Missile launch.

use vstd::prelude::*;

use crate::repo_interfaces::{
    along_x, along_x_axis, zero_vector, PlayerId, PlayerIdData, ScalarData, Vec2Data,
};
use crate::user_input::InputCommand;
use crate::world::{MovingObject, World, WorldView};

verus! {

/// Position, orientation and velocity of an object
#[derive(Clone, Copy, PartialEq, Debug)]
pub struct ObjectPosAndVelocityData {
    pub pos: Vec2Data,
    pub angle: ScalarData,
    pub velocity: Vec2Data,
}

/// Position, orientation and velocity of the player object
pub type PlayerPosAndVelocityData = ObjectPosAndVelocityData;

/// Position, orientation and velocity of a missile object
pub type MissileLaunchData = PlayerPosAndVelocityData;

/// Position, orientation and velocity of a body.
pub open spec fn pose_of(body: MovingObject) -> ObjectPosAndVelocityData {
    ObjectPosAndVelocityData { pos: body.position, angle: body.angle, velocity: body.velocity }
}

/// The missile that a launch creates: as launched, and not yet accelerated.
pub open spec fn launched(missile: MissileLaunchData) -> MovingObject {
    MovingObject {
        position: missile.pos,
        angle: missile.angle,
        velocity: missile.velocity,
        acceleration: zero_vector(),
    }
}

/// Missile related configuration
#[derive(Clone, Copy)]
pub struct MissileConfig {
    /// Maximum number of missile a player may have
    max: usize,
    /// Relative speed of missile when fired
    initial_speed: ScalarData,
    /// Initial distance of missile to player object
    initial_distance: ScalarData,
}

impl MissileConfig {
    /// Create a new missile config
    pub fn new(max_missile: usize, initial_speed: ScalarData, initial_distance: ScalarData) -> (config:
        MissileConfig)
        ensures
            config.max_missile_spec() == max_missile,
            config.initial_speed_spec() == initial_speed,
            config.initial_distance_spec() == initial_distance,
    {
        MissileConfig { max: max_missile, initial_speed, initial_distance }
    }

    /// Maximum number of missile a player may have
    pub closed spec fn max_missile_spec(&self) -> usize {
        self.max
    }

    /// Relative speed of missile when fired
    pub closed spec fn initial_speed_spec(&self) -> ScalarData {
        self.initial_speed
    }

    /// Initial distance of missile to player object
    pub closed spec fn initial_distance_spec(&self) -> ScalarData {
        self.initial_distance
    }

    /// Maximum number of missile a player may have
    #[verifier::when_used_as_spec(max_missile_spec)]
    pub fn get_max_missile(&self) -> (max: usize)
        ensures
            max == self.max_missile_spec(),
    {
        self.max
    }

    /// Relative speed of missile when fired
    #[verifier::when_used_as_spec(initial_speed_spec)]
    pub fn get_initial_speed(&self) -> (speed: ScalarData)
        ensures
            speed == self.initial_speed_spec(),
    {
        self.initial_speed
    }

    /// Initial distance of missile to player object
    #[verifier::when_used_as_spec(initial_distance_spec)]
    pub fn get_initial_distance(&self) -> (distance: ScalarData)
        ensures
            distance == self.initial_distance_spec(),
    {
        self.initial_distance
    }
}

/// Interface of data gateway for shoot use-case. The player asked for must
/// exist.
pub trait ShootDataGateway: WorldView {
    /// Return position, orientation and velocity of player
    fn get_player_pos_and_velocity(&self, id: PlayerIdData) -> (pose: PlayerPosAndVelocityData)
        requires
            self.world().has_player(id),
        ensures
            pose == pose_of(self.world().players[id].body),
    ;

    /// Return number of active missiles of a player
    fn get_player_missile_count(&self, id: PlayerIdData) -> (count: usize)
        requires
            self.world().has_player(id),
        ensures
            count == self.world().players[id].missiles.len(),
    ;

    /// Save missile for a player: it becomes the last of the player's missiles.
    fn create_missile_for_player(&mut self, id: PlayerIdData, missile: MissileLaunchData)
        requires
            old(self).world().has_player(id),
        ensures
            final(self).world() == old(self).world().with_new_missile(id, launched(missile)),
    ;
}

/// Factory for shoot command use cases.
///
/// It holds the vector arithmetic that a launch needs: `rotate` turns a vector
/// by an angle, `add` adds two vectors, `angle` gives the angle of a vector
/// with the x axis.
pub struct ShootCommandFactory<Rotate, Add, Angle> {
    pub config: MissileConfig,
    pub rotate: Rotate,
    pub add: Add,
    pub angle: Angle,
}

impl<
    Rotate: Fn(Vec2Data, ScalarData) -> Vec2Data,
    Add: Fn(Vec2Data, Vec2Data) -> Vec2Data,
    Angle: Fn(Vec2Data) -> ScalarData,
> ShootCommandFactory<Rotate, Add, Angle> {
    /// Create factory for shoot command use case
    pub fn new(config: MissileConfig, rotate: Rotate, add: Add, angle: Angle) -> (factory: Self)
        ensures
            factory.config == config,
            factory.rotate == rotate,
            factory.add == add,
            factory.angle == angle,
    {
        ShootCommandFactory { config, rotate, add, angle }
    }

    /// The arithmetic accepts every argument.
    pub open spec fn total(&self) -> bool {
        &&& forall|v: Vec2Data, a: ScalarData| #[trigger] call_requires(self.rotate, (v, a))
        &&& forall|a: Vec2Data, b: Vec2Data| #[trigger] call_requires(self.add, (a, b))
        &&& forall|v: Vec2Data| #[trigger] call_requires(self.angle, (v,))
    }

    /// `missile` is what a ship in `pose` launches: it starts at the configured
    /// distance ahead of the ship, it has the ship's velocity and the
    /// configured speed along the ship's orientation, and it faces the way it
    /// flies.
    pub open spec fn launches(
        &self,
        pose: PlayerPosAndVelocityData,
        missile: MissileLaunchData,
    ) -> bool {
        exists|offset: Vec2Data, boost: Vec2Data|
            {
                &&& call_ensures(
                    self.rotate,
                    (along_x_axis(self.config.initial_distance_spec()), pose.angle),
                    offset,
                )
                &&& #[trigger] call_ensures(self.add, (pose.pos, offset), missile.pos)
                &&& call_ensures(
                    self.rotate,
                    (along_x_axis(self.config.initial_speed_spec()), pose.angle),
                    boost,
                )
                &&& #[trigger] call_ensures(self.add, (pose.velocity, boost), missile.velocity)
                &&& call_ensures(self.angle, (missile.velocity,), missile.angle)
            }
    }

    /// Create a new shoot command use case
    pub fn make_shoot_command(&self, player_id: PlayerId) -> (command: ShootCommand<
        '_,
        Rotate,
        Add,
        Angle,
    >)
        ensures
            command.player_id == player_id,
            command.factory == self,
    {
        ShootCommand { player_id, factory: self }
    }
}

/// Shoot command use-case integrator
pub struct ShootCommand<'a, Rotate, Add, Angle> {
    pub player_id: PlayerId,
    pub factory: &'a ShootCommandFactory<Rotate, Add, Angle>,
}

impl<
    'a,
    Rotate: Fn(Vec2Data, ScalarData) -> Vec2Data,
    Add: Fn(Vec2Data, Vec2Data) -> Vec2Data,
    Angle: Fn(Vec2Data) -> ScalarData,
> ShootCommand<'a, Rotate, Add, Angle> {
    /// What the command does to a world: nothing where the player has as many
    /// missiles as the configuration allows, or more; else one missile more
    /// for the player, launched from the ship.
    pub open spec fn shot(&self, before: World, after: World) -> bool {
        let player = before.players[self.player_id];
        if player.missiles.len() < self.factory.config.max_missile_spec() {
            exists|missile: MissileLaunchData|
                {
                    &&& #[trigger] self.factory.launches(pose_of(player.body), missile)
                    &&& after == before.with_new_missile(self.player_id, launched(missile))
                }
        } else {
            after == before
        }
    }

    /// A shot never takes a player beyond the configured number of missiles: a
    /// player below it gets one missile more, and for a player who has reached
    /// it nothing changes at all.
    pub proof fn lemma_shot_respects_cap(&self, before: World, after: World)
        requires
            before.has_player(self.player_id),
            self.shot(before, after),
        ensures
            before.players[self.player_id].missiles.len() < self.factory.config.max_missile_spec()
                ==> after.players[self.player_id].missiles.len()
                == before.players[self.player_id].missiles.len() + 1,
            before.players[self.player_id].missiles.len() >= self.factory.config.max_missile_spec()
                ==> after == before,
            before.players[self.player_id].missiles.len() <= self.factory.config.max_missile_spec()
                ==> after.players[self.player_id].missiles.len()
                <= self.factory.config.max_missile_spec(),
    {
    }

    /// A shot below the cap puts one missile behind those that the player has.
    /// The missile starts at the ship's position plus a vector of the
    /// configured distance along the ship's orientation; its velocity is the
    /// ship's plus a vector of the configured speed along that orientation; it
    /// faces the way it flies and has no acceleration.
    pub proof fn lemma_shot_launches_from_ship(&self, before: World, after: World)
        requires
            before.has_player(self.player_id),
            before.players[self.player_id].missiles.len()
                < self.factory.config.max_missile_spec(),
            self.shot(before, after),
        ensures
            after.players[self.player_id].missiles.drop_last()
                == before.players[self.player_id].missiles,
            exists|offset: Vec2Data|
                {
                    &&& call_ensures(
                        self.factory.rotate,
                        (
                            along_x_axis(self.factory.config.initial_distance_spec()),
                            before.players[self.player_id].body.angle,
                        ),
                        offset,
                    )
                    &&& #[trigger] call_ensures(
                        self.factory.add,
                        (before.players[self.player_id].body.position, offset),
                        after.players[self.player_id].missiles.last().position,
                    )
                },
            exists|boost: Vec2Data|
                {
                    &&& call_ensures(
                        self.factory.rotate,
                        (
                            along_x_axis(self.factory.config.initial_speed_spec()),
                            before.players[self.player_id].body.angle,
                        ),
                        boost,
                    )
                    &&& #[trigger] call_ensures(
                        self.factory.add,
                        (before.players[self.player_id].body.velocity, boost),
                        after.players[self.player_id].missiles.last().velocity,
                    )
                },
            call_ensures(
                self.factory.angle,
                (after.players[self.player_id].missiles.last().velocity,),
                after.players[self.player_id].missiles.last().angle,
            ),
            after.players[self.player_id].missiles.last().acceleration == zero_vector(),
    {
        let missile = choose|missile: MissileLaunchData|
            {
                &&& #[trigger] self.factory.launches(
                    pose_of(before.players[self.player_id].body),
                    missile,
                )
                &&& after == before.with_new_missile(self.player_id, launched(missile))
            };
        let pose = pose_of(before.players[self.player_id].body);
        let (offset, boost) = choose|offset: Vec2Data, boost: Vec2Data|
            {
                &&& call_ensures(
                    self.factory.rotate,
                    (along_x_axis(self.factory.config.initial_distance_spec()), pose.angle),
                    offset,
                )
                &&& #[trigger] call_ensures(self.factory.add, (pose.pos, offset), missile.pos)
                &&& call_ensures(
                    self.factory.rotate,
                    (along_x_axis(self.factory.config.initial_speed_spec()), pose.angle),
                    boost,
                )
                &&& #[trigger] call_ensures(
                    self.factory.add,
                    (pose.velocity, boost),
                    missile.velocity,
                )
                &&& call_ensures(self.factory.angle, (missile.velocity,), missile.angle)
            };
        assert(after.players[self.player_id].missiles.last() == launched(missile));
        assert(call_ensures(
            self.factory.add,
            (before.players[self.player_id].body.position, offset),
            after.players[self.player_id].missiles.last().position,
        ));
        assert(call_ensures(
            self.factory.add,
            (before.players[self.player_id].body.velocity, boost),
            after.players[self.player_id].missiles.last().velocity,
        ));
        assert(after.players[self.player_id].missiles.drop_last()
            =~= before.players[self.player_id].missiles);
    }

    /// What `execute` asks of a world and does to it is what `shoot` asks and
    /// does.
    pub proof fn lemma_execute_shoots<Repo: ShootDataGateway>(&self, before: World, after: World)
        ensures
            InputCommand::<Repo>::applies_to(self, before) <==> self.factory.total()
                && before.has_player(self.player_id),
            InputCommand::<Repo>::effect(self, before, after) <==> self.shot(before, after),
    {
    }

    /// shoot command use case
    pub fn shoot<Repo: ShootDataGateway>(&self, repo: &mut Repo)
        requires
            self.factory.total(),
            old(repo).world().has_player(self.player_id),
        ensures
            self.shot(old(repo).world(), final(repo).world()),
    {
        if self.player_can_shoot_missile(repo, self.player_id) {
            self.create_missile_for_player(repo, self.player_id);
        }
    }

    /// Create a new missile for a player
    pub fn create_missile_for_player<Repo: ShootDataGateway>(
        &self,
        repo: &mut Repo,
        player_id: PlayerId,
    )
        requires
            self.factory.total(),
            old(repo).world().has_player(player_id),
        ensures
            exists|missile: MissileLaunchData|
                {
                    &&& #[trigger] self.factory.launches(
                        pose_of(old(repo).world().players[player_id].body),
                        missile,
                    )
                    &&& final(repo).world() == old(repo).world().with_new_missile(
                        player_id,
                        launched(missile),
                    )
                },
    {
        let config = self.factory.config;
        let player = repo.get_player_pos_and_velocity(player_id);
        let offset = (self.factory.rotate)(along_x(config.get_initial_distance()), player.angle);
        let missile_pos = (self.factory.add)(player.pos, offset);
        let boost = (self.factory.rotate)(along_x(config.get_initial_speed()), player.angle);
        let missile_vel = (self.factory.add)(player.velocity, boost);
        let missile_angle = (self.factory.angle)(missile_vel);
        let new_missile = MissileLaunchData {
            pos: missile_pos,
            angle: missile_angle,
            velocity: missile_vel,
        };
        repo.create_missile_for_player(player_id, new_missile);
        assert(self.factory.launches(pose_of(old(repo).world().players[player_id].body), new_missile));
    }

    /// Check if player can shoot more missiles
    pub fn player_can_shoot_missile<Repo: ShootDataGateway>(&self, repo: &Repo, player_id: PlayerId) -> (can:
        bool)
        requires
            repo.world().has_player(player_id),
        ensures
            can == (repo.world().players[player_id].missiles.len()
                < self.factory.config.max_missile_spec()),
    {
        let current_missile = repo.get_player_missile_count(player_id);
        current_missile < self.factory.config.get_max_missile()
    }
}

impl<
    'a,
    Rotate: Fn(Vec2Data, ScalarData) -> Vec2Data,
    Add: Fn(Vec2Data, Vec2Data) -> Vec2Data,
    Angle: Fn(Vec2Data) -> ScalarData,
    Repo: ShootDataGateway,
> InputCommand<Repo> for ShootCommand<'a, Rotate, Add, Angle> {
    open spec fn applies_to(&self, world: World) -> bool {
        self.factory.total() && world.has_player(self.player_id)
    }

    open spec fn effect(&self, before: World, after: World) -> bool {
        self.shot(before, after)
    }

    fn execute(&self, repo: &mut Repo) {
        self.shoot(repo)
    }
}

} // verus!
