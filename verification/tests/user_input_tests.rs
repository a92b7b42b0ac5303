use std::f32::consts::PI;
use std::f32::EPSILON;

use interception_orbit::repo_interfaces::{PlayerIdData, ScalarData, Vec2Data, WorldView};
use interception_orbit::user_input::{
    InputCommand, MissileConfig, MissileLaunchData, MoveCommandFactory, MoveConfig,
    MoveInstruction, PlayerMovementDataGateway, PlayerPosAndVelocityData, ShootCommandFactory,
    ShootDataGateway,
};

const TWO_PI: f32 = 2_f32 * PI;

fn s(x: f32) -> ScalarData {
    x.to_bits()
}

fn f(x: ScalarData) -> f32 {
    f32::from_bits(x)
}

fn v(x: f32, y: f32) -> Vec2Data {
    [x.to_bits(), y.to_bits()]
}

fn xy(v: Vec2Data) -> (f32, f32) {
    (f32::from_bits(v[0]), f32::from_bits(v[1]))
}

fn trim_angle(angle: f32) -> f32 {
    let mut result = angle % TWO_PI;
    while result < 0_f32 {
        result += TWO_PI
    }
    result
}

fn to_radians(degrees: ScalarData) -> ScalarData {
    s(f(degrees).to_radians())
}

fn turn(from: ScalarData, by: ScalarData) -> ScalarData {
    s(trim_angle(f(from) + f(by)))
}

fn rotate(a: Vec2Data, angle: ScalarData) -> Vec2Data {
    let ((x, y), angle) = (xy(a), f(angle));
    let cos_angle = angle.cos();
    let sin_angle = angle.sin();
    v(cos_angle * x - sin_angle * y, sin_angle * x + cos_angle * y)
}

fn add(a: Vec2Data, b: Vec2Data) -> Vec2Data {
    let ((ax, ay), (bx, by)) = (xy(a), xy(b));
    v(ax + bx, ay + by)
}

fn angle_of(a: Vec2Data) -> ScalarData {
    let (x, y) = xy(a);
    s(trim_angle(y.atan2(x)))
}

fn distance(a: Vec2Data, b: Vec2Data) -> f32 {
    let ((ax, ay), (bx, by)) = (xy(a), xy(b));
    ((ax - bx) * (ax - bx) + (ay - by) * (ay - by)).sqrt()
}

struct MoveMock {
    vec: (PlayerIdData, String, Vec2Data),
    scalar: (PlayerIdData, String, ScalarData),
}

impl WorldView for MoveMock {}

impl PlayerMovementDataGateway for MoveMock {
    fn get_player_orientation(&self, _id: PlayerIdData) -> ScalarData {
        s(PI / 2.0)
    }

    fn set_player_orientation(&mut self, id: PlayerIdData, orientation: ScalarData) {
        self.scalar = (id, "orientation".into(), orientation);
    }

    fn get_player_acceleration(&self, _id: PlayerIdData) -> Vec2Data {
        v(50.0, 100.0)
    }

    fn set_player_acceleration(&mut self, id: PlayerIdData, acceleration: Vec2Data) {
        self.vec = (id, "acceleration".into(), acceleration);
    }
}

fn setup_move_test() -> (MoveConfig, MoveMock) {
    let move_config = MoveConfig::new(s(5_f32 * PI / 180.0), s(100.0), to_radians);
    let repo = MoveMock { vec: (0, String::new(), v(0.0, 0.0)), scalar: (0, String::new(), s(0.0)) };
    (move_config, repo)
}

#[test]
fn player_rotates_left() {
    let (move_config, mut repo) = setup_move_test();
    let command_factory = MoveCommandFactory::new(move_config, turn, rotate, add);
    let before = f(repo.get_player_orientation(1));
    command_factory.make_move_command(1, MoveInstruction::RotateLeft).execute(&mut repo);
    assert_eq!(
        (repo.scalar.0, repo.scalar.1.as_str(), f(repo.scalar.2)),
        (1, "orientation", before + f(move_config.get_angle_per_frame()))
    );
}

#[test]
fn player_rotate_right() {
    let (move_config, mut repo) = setup_move_test();
    let command_factory = MoveCommandFactory::new(move_config, turn, rotate, add);
    let before = f(repo.get_player_orientation(1));
    command_factory.make_move_command(1, MoveInstruction::RotateRight).execute(&mut repo);
    assert_eq!(
        (repo.scalar.0, repo.scalar.1.as_str(), f(repo.scalar.2)),
        (1, "orientation", before - f(move_config.get_angle_per_frame()))
    );
}

#[test]
fn player_accelerate() {
    let (move_config, mut repo) = setup_move_test();
    let command_factory = MoveCommandFactory::new(move_config, turn, rotate, add);
    let before = xy(repo.get_player_acceleration(1));
    let orientation = repo.get_player_orientation(1);
    command_factory.make_move_command(1, MoveInstruction::Accelerate).execute(&mut repo);
    let acc = xy(rotate(v(f(move_config.get_acceleration()), 0.0), orientation));
    assert_eq!(
        (repo.vec.0, repo.vec.1.as_str(), xy(repo.vec.2)),
        (1, "acceleration", (before.0 + acc.0, before.1 + acc.1))
    );
}

struct ShootMock {
    player: PlayerPosAndVelocityData,
    player_missiles: Vec<(PlayerIdData, MissileLaunchData)>,
}

impl WorldView for ShootMock {}

impl ShootDataGateway for ShootMock {
    fn get_player_missile_count(&self, id: PlayerIdData) -> usize {
        self.player_missiles.iter().filter(|(m_id, _)| *m_id == id).count()
    }

    fn get_player_pos_and_velocity(&self, _: PlayerIdData) -> PlayerPosAndVelocityData {
        PlayerPosAndVelocityData { ..self.player }
    }

    fn create_missile_for_player(&mut self, id: PlayerIdData, missile: MissileLaunchData) {
        self.player_missiles.push((id, missile));
    }
}

fn at_rest() -> PlayerPosAndVelocityData {
    PlayerPosAndVelocityData { pos: v(0.0, 0.0), angle: s(0.0), velocity: v(0.0, 0.0) }
}

fn setup_shoot_test(player: PlayerPosAndVelocityData) -> (MissileConfig, ShootMock) {
    let config = MissileConfig::new(3, s(100.0_f32), s(500_f32));
    (config, ShootMock { player, player_missiles: Vec::new() })
}

#[test]
fn missile_shot_when_max_is_not_reached() {
    let (config, mut repo) = setup_shoot_test(at_rest());
    let command_factory = ShootCommandFactory::new(config, rotate, add, angle_of);
    let player_id = 1;
    let before_missile_count = repo.get_player_missile_count(player_id);
    assert_eq!(before_missile_count, 0);
    assert!(before_missile_count < config.get_max_missile());
    command_factory.make_shoot_command(player_id).execute(&mut repo);
    let after_missile_count = repo.get_player_missile_count(player_id);
    assert_eq!(after_missile_count, 1);
}

#[test]
fn missile_not_shot_when_max_is_reached() {
    let (config, mut repo) = setup_shoot_test(at_rest());
    let command_factory = ShootCommandFactory::new(config, rotate, add, angle_of);
    let player_id = 1;
    for _ in 0..config.get_max_missile() {
        repo.player_missiles.push((player_id, at_rest()));
    }
    let before_missile_count = repo.get_player_missile_count(player_id);
    assert_eq!(before_missile_count, config.get_max_missile());
    command_factory.make_shoot_command(player_id).execute(&mut repo);
    let after_missile_count = repo.player_missiles.len();
    assert_eq!(after_missile_count, before_missile_count);
}

#[test]
fn missile_created_at_correct_location() {
    let player_pos =
        PlayerPosAndVelocityData { pos: v(200.0, 100.0), angle: s(0.56), velocity: v(4.0, 45.0) };
    let (config, mut repo) = setup_shoot_test(player_pos);
    let command_factory = ShootCommandFactory::new(config, rotate, add, angle_of);
    let player_id = 1;
    command_factory.make_shoot_command(player_id).execute(&mut repo);
    let expected_pos =
        add(repo.player.pos, rotate(v(f(config.get_initial_distance()), 0.0), repo.player.angle));
    assert!(distance(expected_pos, repo.player_missiles[0].1.pos) < EPSILON);
}

#[test]
fn missile_created_with_correct_velocity() {
    let player_pos =
        PlayerPosAndVelocityData { pos: v(200.0, 100.0), angle: s(0.56), velocity: v(4.0, 45.0) };
    let (config, mut repo) = setup_shoot_test(player_pos);
    let command_factory = ShootCommandFactory::new(config, rotate, add, angle_of);
    let player_id = 1;
    command_factory.make_shoot_command(player_id).execute(&mut repo);
    let expected_vel =
        add(repo.player.velocity, rotate(v(f(config.get_initial_speed()), 0.0), repo.player.angle));
    assert!(distance(expected_vel, repo.player_missiles[0].1.velocity) < EPSILON);
}

#[test]
fn missile_created_with_correct_angle() {
    let player_pos =
        PlayerPosAndVelocityData { pos: v(200.0, 100.0), angle: s(0.56), velocity: v(4.0, 45.0) };
    let (config, mut repo) = setup_shoot_test(player_pos);
    let command_factory = ShootCommandFactory::new(config, rotate, add, angle_of);
    let player_id = 1;
    command_factory.make_shoot_command(player_id).execute(&mut repo);
    let expected_vel =
        add(repo.player.velocity, rotate(v(f(config.get_initial_speed()), 0.0), repo.player.angle));
    let expected_angle = f(angle_of(expected_vel));
    assert!((expected_angle - f(repo.player_missiles[0].1.angle)).abs() < EPSILON);
}
