//! Player movement: turning the ship and firing its engine.

use vstd::prelude::*;

use crate::repo_interfaces::{
    along_x, along_x_axis, negate, negated, PlayerId, PlayerIdData, ScalarData, Vec2Data,
};
use crate::user_input::InputCommand;
use crate::world::{World, WorldView};

verus! {

/// Configuration object for player movement
#[derive(Copy, Clone, Debug)]
pub struct MoveConfig {
    angle_per_frame: ScalarData,
    acceleration: ScalarData,
}

impl MoveConfig {
    /// Create a new configuration object for player movement
    ///
    /// `angle` is the angle of rotation in degree per frame to rotate; the
    /// configuration holds it in radians, as `to_radians` gives it.
    /// `acceleration` is the scalar acceleration in the direction in which the
    /// Player points.
    pub fn new<ToRadians: Fn(ScalarData) -> ScalarData>(
        angle: ScalarData,
        acceleration: ScalarData,
        to_radians: ToRadians,
    ) -> (config: Self)
        requires
            call_requires(to_radians, (angle,)),
        ensures
            call_ensures(to_radians, (angle,), config.angle_per_frame_spec()),
            config.acceleration_spec() == acceleration,
    {
        MoveConfig { angle_per_frame: to_radians(angle), acceleration }
    }

    /// Change of player orientation per frame in radians
    pub closed spec fn angle_per_frame_spec(&self) -> ScalarData {
        self.angle_per_frame
    }

    /// Scalar acceleration in direction of player orientation
    pub closed spec fn acceleration_spec(&self) -> ScalarData {
        self.acceleration
    }

    /// Change of player orientation per frame in radians
    #[verifier::when_used_as_spec(angle_per_frame_spec)]
    pub fn get_angle_per_frame(&self) -> (angle: ScalarData)
        ensures
            angle == self.angle_per_frame_spec(),
    {
        self.angle_per_frame
    }

    /// Scalar acceleration in direction of player orientation
    #[verifier::when_used_as_spec(acceleration_spec)]
    pub fn get_acceleration(&self) -> (acceleration: ScalarData)
        ensures
            acceleration == self.acceleration_spec(),
    {
        self.acceleration
    }
}

/// Possible commands for player movement
pub enum MoveInstruction {
    RotateLeft,
    RotateRight,
    Accelerate,
}

/// Interface for player data provider.
///
/// Every storage backend for player data must implement this trait to be
/// usable for providing game state data. The player asked for must exist.
pub trait PlayerMovementDataGateway: WorldView {
    /// Return the orientation of the player's ship
    fn get_player_orientation(&self, id: PlayerIdData) -> (orientation: ScalarData)
        requires
            self.world().has_player(id),
        ensures
            orientation == self.world().players[id].body.angle,
    ;

    /// Set the orientation of the player's ship, and nothing else
    fn set_player_orientation(&mut self, id: PlayerIdData, orientation: ScalarData)
        requires
            old(self).world().has_player(id),
        ensures
            final(self).world() == old(self).world().with_orientation(id, orientation),
    ;

    /// Return the acceleration of the player's ship
    fn get_player_acceleration(&self, id: PlayerIdData) -> (acceleration: Vec2Data)
        requires
            self.world().has_player(id),
        ensures
            acceleration == self.world().players[id].body.acceleration,
    ;

    /// Set the acceleration of the player's ship, and nothing else
    fn set_player_acceleration(&mut self, id: PlayerIdData, acceleration: Vec2Data)
        requires
            old(self).world().has_player(id),
        ensures
            final(self).world() == old(self).world().with_acceleration(id, acceleration),
    ;
}

/// Move command factory.
///
/// It holds the arithmetic that a move needs: `turn` gives the orientation
/// that a turn by an angle leads to, trimmed to one revolution; `rotate` turns
/// a vector by an angle; `add` adds two vectors.
pub struct MoveCommandFactory<Turn, Rotate, Add> {
    pub config: MoveConfig,
    pub turn: Turn,
    pub rotate: Rotate,
    pub add: Add,
}

impl<
    Turn: Fn(ScalarData, ScalarData) -> ScalarData,
    Rotate: Fn(Vec2Data, ScalarData) -> Vec2Data,
    Add: Fn(Vec2Data, Vec2Data) -> Vec2Data,
> MoveCommandFactory<Turn, Rotate, Add> {
    /// Create factory for move commands
    pub fn new(config: MoveConfig, turn: Turn, rotate: Rotate, add: Add) -> (factory: Self)
        ensures
            factory.config == config,
            factory.turn == turn,
            factory.rotate == rotate,
            factory.add == add,
    {
        Self { config, turn, rotate, add }
    }

    /// The arithmetic accepts every argument.
    pub open spec fn total(&self) -> bool {
        &&& forall|from: ScalarData, by: ScalarData| #[trigger] call_requires(self.turn, (from, by))
        &&& forall|v: Vec2Data, a: ScalarData| #[trigger] call_requires(self.rotate, (v, a))
        &&& forall|a: Vec2Data, b: Vec2Data| #[trigger] call_requires(self.add, (a, b))
    }

    /// `result` is `acceleration` with the thrust of the engine added, for a
    /// ship that faces `orientation`: the thrust has the configured magnitude
    /// and points where the ship faces.
    pub open spec fn thrusts(
        &self,
        orientation: ScalarData,
        acceleration: Vec2Data,
        result: Vec2Data,
    ) -> bool {
        exists|thrust: Vec2Data|
            {
                &&& call_ensures(
                    self.rotate,
                    (along_x_axis(self.config.acceleration_spec()), orientation),
                    thrust,
                )
                &&& #[trigger] call_ensures(self.add, (thrust, acceleration), result)
            }
    }

    /// A turn by the configured angle and then one by its negative lead back
    /// to the orientation they began with.
    pub open spec fn turns_back(&self) -> bool {
        forall|from: ScalarData, halfway: ScalarData, back: ScalarData|
            #![trigger
                call_ensures(self.turn, (from, self.config.angle_per_frame_spec()), halfway),
                call_ensures(self.turn, (halfway, negated(self.config.angle_per_frame_spec())), back),
            ]
            {
                &&& call_ensures(self.turn, (from, self.config.angle_per_frame_spec()), halfway)
                &&& call_ensures(
                    self.turn,
                    (halfway, negated(self.config.angle_per_frame_spec())),
                    back,
                )
            } ==> back == from
    }

    /// Create a new move command for a player
    pub fn make_move_command(&self, player_id: PlayerId, instruction: MoveInstruction) -> (command:
        MoveCommand<'_, Turn, Rotate, Add>)
        ensures
            command.player_id == player_id,
            command.instruction == instruction,
            command.factory == self,
    {
        MoveCommand { player_id, instruction, factory: self }
    }
}

/// Concrete type for player movement commands
pub struct MoveCommand<'a, Turn, Rotate, Add> {
    pub player_id: PlayerId,
    pub instruction: MoveInstruction,
    pub factory: &'a MoveCommandFactory<Turn, Rotate, Add>,
}

impl<
    'a,
    Turn: Fn(ScalarData, ScalarData) -> ScalarData,
    Rotate: Fn(Vec2Data, ScalarData) -> Vec2Data,
    Add: Fn(Vec2Data, Vec2Data) -> Vec2Data,
> MoveCommand<'a, Turn, Rotate, Add> {
    /// `after` is the world `before` with the player's ship turned by `angle`,
    /// and nothing else changed.
    pub open spec fn rotated(&self, angle: ScalarData, before: World, after: World) -> bool {
        exists|orientation: ScalarData|
            {
                &&& #[trigger] call_ensures(
                    self.factory.turn,
                    (before.players[self.player_id].body.angle, angle),
                    orientation,
                )
                &&& after == before.with_orientation(self.player_id, orientation)
            }
    }

    /// `after` is the world `before` with the engine's thrust added to the
    /// acceleration of the player's ship, and nothing else changed.
    pub open spec fn accelerated(&self, before: World, after: World) -> bool {
        exists|acceleration: Vec2Data|
            {
                &&& #[trigger] self.factory.thrusts(
                    before.players[self.player_id].body.angle,
                    before.players[self.player_id].body.acceleration,
                    acceleration,
                )
                &&& after == before.with_acceleration(self.player_id, acceleration)
            }
    }

    /// What the command does to a world: a turn by the configured angle to the
    /// left, a turn by as much to the right, or the engine's thrust.
    pub open spec fn moved(&self, before: World, after: World) -> bool {
        match self.instruction {
            MoveInstruction::RotateLeft => self.rotated(
                self.factory.config.angle_per_frame_spec(),
                before,
                after,
            ),
            MoveInstruction::RotateRight => self.rotated(
                negated(self.factory.config.angle_per_frame_spec()),
                before,
                after,
            ),
            MoveInstruction::Accelerate => self.accelerated(before, after),
        }
    }

    /// A turn to the left and then one to the right change nothing but the
    /// orientation of the player's ship, which is turned by the configured
    /// angle and then by its negative. Where such turns lead back, the world is
    /// as it was.
    pub proof fn lemma_left_then_right(
        left: Self,
        right: Self,
        before: World,
        between: World,
        after: World,
    )
        requires
            left.instruction == MoveInstruction::RotateLeft,
            right.instruction == MoveInstruction::RotateRight,
            left.factory == right.factory,
            left.player_id == right.player_id,
            before.has_player(left.player_id),
            left.moved(before, between),
            right.moved(between, after),
        ensures
            exists|halfway: ScalarData, orientation: ScalarData|
                {
                    &&& #[trigger] call_ensures(
                        left.factory.turn,
                        (
                            before.players[left.player_id].body.angle,
                            left.factory.config.angle_per_frame_spec(),
                        ),
                        halfway,
                    )
                    &&& #[trigger] call_ensures(
                        left.factory.turn,
                        (halfway, negated(left.factory.config.angle_per_frame_spec())),
                        orientation,
                    )
                    &&& after == before.with_orientation(left.player_id, orientation)
                },
            left.factory.turns_back() ==> after == before,
    {
        let id = left.player_id;
        let angle = left.factory.config.angle_per_frame_spec();
        let halfway = choose|halfway: ScalarData|
            {
                &&& #[trigger] call_ensures(
                    left.factory.turn,
                    (before.players[id].body.angle, angle),
                    halfway,
                )
                &&& between == before.with_orientation(id, halfway)
            };
        let orientation = choose|orientation: ScalarData|
            {
                &&& #[trigger] call_ensures(
                    right.factory.turn,
                    (between.players[id].body.angle, negated(angle)),
                    orientation,
                )
                &&& after == between.with_orientation(id, orientation)
            };
        assert(after.players =~= before.with_orientation(id, orientation).players);
        if orientation == before.players[id].body.angle {
            assert(after.players =~= before.players);
        }
    }

    /// The engine's thrust is added to the acceleration that the ship has, and
    /// does not replace it: the new acceleration is the sum of the thrust, a
    /// vector of the configured magnitude along the ship's orientation, and
    /// the acceleration before. Nothing else changes.
    pub proof fn lemma_thrust_is_added(&self, before: World, after: World)
        requires
            self.instruction == MoveInstruction::Accelerate,
            before.has_player(self.player_id),
            self.moved(before, after),
        ensures
            exists|thrust: Vec2Data|
                {
                    &&& call_ensures(
                        self.factory.rotate,
                        (
                            along_x_axis(self.factory.config.acceleration_spec()),
                            before.players[self.player_id].body.angle,
                        ),
                        thrust,
                    )
                    &&& #[trigger] call_ensures(
                        self.factory.add,
                        (thrust, before.players[self.player_id].body.acceleration),
                        after.players[self.player_id].body.acceleration,
                    )
                },
            after == before.with_acceleration(
                self.player_id,
                after.players[self.player_id].body.acceleration,
            ),
    {
    }

    /// What `execute` asks of a world and does to it is what `move_player`
    /// asks and does.
    pub proof fn lemma_execute_moves_player<Repo: PlayerMovementDataGateway>(
        &self,
        before: World,
        after: World,
    )
        ensures
            InputCommand::<Repo>::applies_to(self, before) <==> self.factory.total()
                && before.has_player(self.player_id),
            InputCommand::<Repo>::effect(self, before, after) <==> self.moved(before, after),
    {
    }

    /// Carry out the command on the player's ship.
    pub fn move_player<Repo: PlayerMovementDataGateway>(&self, repo: &mut Repo)
        requires
            self.factory.total(),
            old(repo).world().has_player(self.player_id),
        ensures
            self.moved(old(repo).world(), final(repo).world()),
    {
        match self.instruction {
            MoveInstruction::RotateLeft => self.player_rotate_left(repo),
            MoveInstruction::RotateRight => self.player_rotate_right(repo),
            MoveInstruction::Accelerate => self.player_accelerate(repo),
        }
    }

    /// Rotate player by angle
    pub fn player_rotate<Repo: PlayerMovementDataGateway>(&self, repo: &mut Repo, angle: ScalarData)
        requires
            self.factory.total(),
            old(repo).world().has_player(self.player_id),
        ensures
            self.rotated(angle, old(repo).world(), final(repo).world()),
    {
        let orientation = repo.get_player_orientation(self.player_id);
        let new_orientation = (self.factory.turn)(orientation, angle);
        repo.set_player_orientation(self.player_id, new_orientation);
    }

    /// Rotate player by fixed angle to the left
    pub fn player_rotate_left<Repo: PlayerMovementDataGateway>(&self, repo: &mut Repo)
        requires
            self.factory.total(),
            old(repo).world().has_player(self.player_id),
        ensures
            self.rotated(
                self.factory.config.angle_per_frame_spec(),
                old(repo).world(),
                final(repo).world(),
            ),
    {
        let angle = self.factory.config.get_angle_per_frame();
        self.player_rotate(repo, angle);
    }

    /// Rotate player by fixed angle to the right
    pub fn player_rotate_right<Repo: PlayerMovementDataGateway>(&self, repo: &mut Repo)
        requires
            self.factory.total(),
            old(repo).world().has_player(self.player_id),
        ensures
            self.rotated(
                negated(self.factory.config.angle_per_frame_spec()),
                old(repo).world(),
                final(repo).world(),
            ),
    {
        let angle = negate(self.factory.config.get_angle_per_frame());
        self.player_rotate(repo, angle);
    }

    /// accelerate player in current direction by fixed amount
    pub fn player_accelerate<Repo: PlayerMovementDataGateway>(&self, repo: &mut Repo)
        requires
            self.factory.total(),
            old(repo).world().has_player(self.player_id),
        ensures
            self.accelerated(old(repo).world(), final(repo).world()),
    {
        let orientation = repo.get_player_orientation(self.player_id);
        let acc = repo.get_player_acceleration(self.player_id);
        let thrust = (self.factory.rotate)(
            along_x(self.factory.config.get_acceleration()),
            orientation,
        );
        let new_acc = (self.factory.add)(thrust, acc);
        repo.set_player_acceleration(self.player_id, new_acc);
        assert(self.factory.thrusts(orientation, acc, new_acc));
    }
}

impl<
    'a,
    Turn: Fn(ScalarData, ScalarData) -> ScalarData,
    Rotate: Fn(Vec2Data, ScalarData) -> Vec2Data,
    Add: Fn(Vec2Data, Vec2Data) -> Vec2Data,
    Repo: PlayerMovementDataGateway,
> InputCommand<Repo> for MoveCommand<'a, Turn, Rotate, Add> {
    open spec fn applies_to(&self, world: World) -> bool {
        self.factory.total() && world.has_player(self.player_id)
    }

    open spec fn effect(&self, before: World, after: World) -> bool {
        self.moved(before, after)
    }

    fn execute(&self, repo: &mut Repo) {
        self.move_player(repo)
    }
}

} // verus!
