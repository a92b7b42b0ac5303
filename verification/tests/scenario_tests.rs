use std::f32::consts::PI;

use interception_orbit::physics::{Gravity, GravityDataGateway, Integrate, StarData};
use interception_orbit::repo::GameState;
use interception_orbit::repo_interfaces::{MovingObject, ScalarData, Vec2Data};
use interception_orbit::user_input::{
    InputCommand, MissileConfig, MoveCommandFactory, MoveConfig, MoveInstruction,
    PlayerMovementDataGateway, ShootCommandFactory, ShootDataGateway,
};

const TWO_PI: f32 = 2_f32 * PI;

fn s(x: f32) -> ScalarData {
    x.to_bits()
}

fn f(x: ScalarData) -> f32 {
    f32::from_bits(x)
}

fn v(x: f32, y: f32) -> Vec2Data {
    [x.to_bits(), y.to_bits()]
}

fn xy(v: Vec2Data) -> (f32, f32) {
    (f32::from_bits(v[0]), f32::from_bits(v[1]))
}

fn trim_angle(angle: f32) -> f32 {
    let mut result = angle % TWO_PI;
    while result < 0_f32 {
        result += TWO_PI
    }
    result
}

fn to_radians(degrees: ScalarData) -> ScalarData {
    s(f(degrees).to_radians())
}

fn turn(from: ScalarData, by: ScalarData) -> ScalarData {
    s(trim_angle(f(from) + f(by)))
}

fn rotate(a: Vec2Data, angle: ScalarData) -> Vec2Data {
    let ((x, y), angle) = (xy(a), f(angle));
    let cos_angle = angle.cos();
    let sin_angle = angle.sin();
    v(cos_angle * x - sin_angle * y, sin_angle * x + cos_angle * y)
}

fn add(a: Vec2Data, b: Vec2Data) -> Vec2Data {
    let ((ax, ay), (bx, by)) = (xy(a), xy(b));
    v(ax + bx, ay + by)
}

fn scale(a: Vec2Data, by: ScalarData) -> Vec2Data {
    let ((x, y), k) = (xy(a), f(by));
    v(x * k, y * k)
}

fn angle_of(a: Vec2Data) -> ScalarData {
    let (x, y) = xy(a);
    s(trim_angle(y.atan2(x)))
}

fn pull(at: Vec2Data, mass: ScalarData, body: Vec2Data) -> Vec2Data {
    let ((ax, ay), (bx, by)) = (xy(at), xy(body));
    let (rx, ry) = (ax - bx, ay - by);
    let r2 = rx * rx + ry * ry;
    let len = r2.sqrt();
    let m = f(mass);
    let (gx, gy) = (rx / len * 1.0 * m, ry / len * 1.0 * m);
    if r2 == 0.0 {
        v(0.0, 0.0)
    } else {
        v(gx * r2.recip(), gy * r2.recip())
    }
}

fn body(position: Vec2Data, angle: f32, velocity: Vec2Data, acceleration: Vec2Data) -> MovingObject {
    MovingObject { position, angle: s(angle), velocity, acceleration }
}

#[test]
fn one_star_pulls_a_ship_towards_it() {
    let mut state = GameState::new();
    state.add_star(StarData::new(v(0.0, 0.0), s(10.0)));
    state.get_player_mut(&1).player_object.set_position(v(2.0, 0.0));
    state.get_player_mut(&2).player_object.set_position(v(0.0, -4.0));
    Gravity::new(pull, add).execute(&mut state);
    assert_eq!(xy(state.get_player(&1).player_object.acceleration), (-2.5, 0.0));
    assert_eq!(xy(state.get_player(&2).player_object.acceleration), (0.0, 0.625));
    assert_eq!(state.get_player(&1).player_object.position, v(2.0, 0.0));
    assert_eq!(state.get_stars_position_and_mass(), vec![StarData::new(v(0.0, 0.0), s(10.0))]);
}

#[test]
fn gravity_adds_to_the_acceleration_a_body_has() {
    let mut state = GameState::new();
    state.add_star(StarData::new(v(0.0, 0.0), s(10.0)));
    state.get_player_mut(&1).player_object.set_position(v(2.0, 0.0)).set_acceleration(v(1.0, 7.0));
    state.get_player_mut(&2).player_object.set_position(v(1.0, 1.0));
    Gravity::new(pull, add).execute(&mut state);
    assert_eq!(xy(state.get_player(&1).player_object.acceleration), (-1.5, 7.0));
}

#[test]
fn pulls_of_several_stars_add_up_for_ships_and_missiles() {
    let mut state = GameState::new();
    state.add_star(StarData::new(v(0.0, 0.0), s(8.0)));
    state.add_star(StarData::new(v(4.0, 0.0), s(16.0)));
    state.add_star(StarData::new(v(2.0, 2.0), s(4.0)));
    state.get_player_mut(&1).player_object.set_position(v(2.0, 0.0));
    state.get_player_mut(&2).player_object.set_position(v(2.0, -2.0));
    state.add_missile(&1, body(v(2.0, 1.0), 0.0, v(3.0, 3.0), v(0.5, 0.5)));
    state.add_missile(&2, body(v(2.0, 0.0), 1.0, v(0.0, 0.0), v(0.0, 0.0)));
    state.add_missile(&2, body(v(2.0, 4.0), 2.0, v(1.0, 0.0), v(-1.0, 0.0)));
    Gravity::new(pull, add).execute(&mut state);
    // Star 1 pulls the ship at (2, 0) by 2 to the left, star 2 by 4 to the
    // right, star 3 by 1 upwards.
    assert_eq!(xy(state.get_player(&1).player_object.acceleration), (2.0, 1.0));
    assert_eq!(state.get_missile(&2, 0).acceleration, v(2.0, 1.0));
    let first = state.get_missile(&1, 0);
    let expected = add(
        v(0.5, 0.5),
        add(
            add(add(v(0.0, 0.0), pull(v(0.0, 0.0), s(8.0), v(2.0, 1.0))), pull(v(4.0, 0.0), s(16.0), v(2.0, 1.0))),
            pull(v(2.0, 2.0), s(4.0), v(2.0, 1.0)),
        ),
    );
    assert_eq!(first.acceleration, expected);
    assert_eq!((first.position, first.velocity, f(first.angle)), (v(2.0, 1.0), v(3.0, 3.0), 0.0));
    let last = state.get_missile(&2, 1);
    assert_eq!(xy(last.acceleration).0, -1.0 + xy(pull(v(0.0, 0.0), s(8.0), v(2.0, 4.0))).0
        + xy(pull(v(4.0, 0.0), s(16.0), v(2.0, 4.0))).0 + 0.0);
    assert_eq!(f(last.angle), 2.0);
    assert_eq!(state.get_player_missile_count(1), 1);
    assert_eq!(state.get_player_missile_count(2), 2);
}

#[test]
fn without_stars_gravity_changes_no_acceleration() {
    let mut state = GameState::new();
    state.get_player_mut(&1).player_object.set_acceleration(v(1.5, -2.0));
    state.add_missile(&1, body(v(1.0, 1.0), 0.0, v(0.0, 0.0), v(3.0, 4.0)));
    Gravity::new(pull, add).execute(&mut state);
    assert_eq!(xy(state.get_player(&1).player_object.acceleration), (1.5, -2.0));
    assert_eq!(xy(state.get_missile(&1, 0).acceleration), (3.0, 4.0));
}

#[test]
fn one_step_moves_a_body_by_its_velocity() {
    let mut state = GameState::new();
    state.get_player_mut(&1).player_object.set_position(v(1.0, 0.0)).set_velocity(v(1.0, 1.0));
    Integrate::new(add, scale).execute(&mut state, s(2.0));
    let ship = state.get_player(&1).player_object;
    assert_eq!(ship.position, v(3.0, 2.0));
    assert_eq!(ship.velocity, v(1.0, 1.0));
    assert_eq!(ship.acceleration, v(0.0, 0.0));
}

#[test]
fn one_step_speeds_a_body_up_by_its_acceleration_and_uses_it_up() {
    let mut state = GameState::new();
    state
        .get_player_mut(&2)
        .player_object
        .set_position(v(-1.0, 4.0))
        .set_velocity(v(2.0, 0.5))
        .set_acceleration(v(4.0, -1.0))
        .set_angle(s(1.25));
    state.add_missile(&2, body(v(0.0, 0.0), 0.5, v(10.0, 0.0), v(0.0, 2.0)));
    Integrate::new(add, scale).execute(&mut state, s(0.5));
    let ship = state.get_player(&2).player_object;
    assert_eq!(xy(ship.position), (0.0, 4.25));
    assert_eq!(xy(ship.velocity), (4.0, 0.0));
    assert_eq!(ship.acceleration, v(0.0, 0.0));
    assert_eq!(f(ship.angle), 1.25);
    let missile = state.get_missile(&2, 0);
    assert_eq!(xy(missile.position), (5.0, 0.0));
    assert_eq!(xy(missile.velocity), (10.0, 1.0));
    assert_eq!(missile.acceleration, v(0.0, 0.0));
    assert_eq!(f(missile.angle), 0.5);
}

#[test]
fn a_step_of_no_time_still_clears_the_acceleration() {
    let mut state = GameState::new();
    state
        .get_player_mut(&1)
        .player_object
        .set_position(v(3.0, 4.0))
        .set_velocity(v(1.0, 2.0))
        .set_acceleration(v(5.0, 6.0));
    state.add_missile(&1, body(v(7.0, 8.0), 0.0, v(9.0, 1.0), v(2.0, 3.0)));
    Integrate::new(add, scale).execute(&mut state, s(0.0));
    let ship = state.get_player(&1).player_object;
    assert_eq!((ship.position, ship.velocity), (v(3.0, 4.0), v(1.0, 2.0)));
    assert_eq!(ship.acceleration, v(0.0, 0.0));
    let missile = state.get_missile(&1, 0);
    assert_eq!((missile.position, missile.velocity), (v(7.0, 8.0), v(9.0, 1.0)));
    assert_eq!(missile.acceleration, v(0.0, 0.0));
}

#[test]
fn a_turn_left_and_one_right_lead_back() {
    let mut state = GameState::new();
    state.set_player_orientation(1, s(0.75));
    let config = MoveConfig::new(s(5.0), s(100.0), to_radians);
    let angle = f(config.get_angle_per_frame());
    assert!((angle - 5.0 * PI / 180.0).abs() < 1e-6);
    let factory = MoveCommandFactory::new(config, turn, rotate, add);
    factory.make_move_command(1, MoveInstruction::RotateLeft).execute(&mut state);
    assert_eq!(f(state.get_player_orientation(1)), 0.75 + angle);
    factory.make_move_command(1, MoveInstruction::RotateRight).execute(&mut state);
    assert!((f(state.get_player_orientation(1)) - 0.75).abs() < 1e-6);
    assert_eq!(f(state.get_player_orientation(2)), 0.0);
    factory.make_move_command(2, MoveInstruction::RotateLeft).execute(&mut state);
    factory.make_move_command(2, MoveInstruction::RotateRight).execute(&mut state);
    assert_eq!(f(state.get_player_orientation(2)), 0.0);
}

#[test]
fn a_turn_right_undoes_a_turn_left_that_wrapped_around() {
    let mut state = GameState::new();
    let start = TWO_PI - 0.01;
    state.set_player_orientation(1, s(start));
    let factory =
        MoveCommandFactory::new(MoveConfig::new(s(5.0), s(100.0), to_radians), turn, rotate, add);
    factory.make_move_command(1, MoveInstruction::RotateLeft).execute(&mut state);
    let wrapped = f(state.get_player_orientation(1));
    assert!(0.0 <= wrapped && wrapped < 0.1);
    factory.make_move_command(1, MoveInstruction::RotateRight).execute(&mut state);
    let back = f(state.get_player_orientation(1));
    assert!(0.0 <= back && back < TWO_PI);
    let apart = (back - start).abs();
    assert!(apart.min(TWO_PI - apart) < 1e-5);
}

#[test]
fn a_turn_right_from_zero_wraps_around() {
    let mut state = GameState::new();
    let config = MoveConfig::new(s(30.0), s(100.0), to_radians);
    let factory = MoveCommandFactory::new(config, turn, rotate, add);
    factory.make_move_command(2, MoveInstruction::RotateRight).execute(&mut state);
    let orientation = f(state.get_player_orientation(2));
    assert_eq!(orientation, TWO_PI - f(config.get_angle_per_frame()));
    assert!((orientation - 330.0 * PI / 180.0).abs() < 1e-5);
    assert!(0.0 <= orientation && orientation < TWO_PI);
}

#[test]
fn thrust_adds_to_the_acceleration_along_the_orientation() {
    let mut state = GameState::new();
    state.set_player_acceleration(1, v(1.0, 2.0));
    let factory =
        MoveCommandFactory::new(MoveConfig::new(s(5.0), s(100.0), to_radians), turn, rotate, add);
    factory.make_move_command(1, MoveInstruction::Accelerate).execute(&mut state);
    assert_eq!(xy(state.get_player_acceleration(1)), (101.0, 2.0));
    factory.make_move_command(1, MoveInstruction::Accelerate).execute(&mut state);
    assert_eq!(xy(state.get_player_acceleration(1)), (201.0, 2.0));
    assert_eq!(f(state.get_player_orientation(1)), 0.0);
    assert_eq!(xy(state.get_player_acceleration(2)), (0.0, 0.0));
}

#[test]
fn thrust_points_where_the_ship_faces_and_keeps_what_was_there() {
    let mut state = GameState::new();
    let (t, m) = (0.7_f32, 12.5_f32);
    state.set_player_orientation(2, s(t));
    state.set_player_acceleration(2, v(-3.0, 4.0));
    let factory =
        MoveCommandFactory::new(MoveConfig::new(s(5.0), s(m), to_radians), turn, rotate, add);
    factory.make_move_command(2, MoveInstruction::Accelerate).player_accelerate(&mut state);
    let (x, y) = xy(state.get_player_acceleration(2));
    let (dx, dy) = (x + 3.0, y - 4.0);
    assert!((dx - m * t.cos()).abs() < 1e-5 && (dy - m * t.sin()).abs() < 1e-5);
    assert!(((dx * dx + dy * dy).sqrt() - m).abs() < 1e-5);
    assert_ne!((x, y), xy(rotate(v(m, 0.0), s(t))));
    assert_eq!(f(state.get_player_orientation(2)), t);
}

#[test]
fn the_steps_of_a_turn_can_be_taken_one_by_one() {
    let mut state = GameState::new();
    let config = MoveConfig::new(s(45.0), s(1.0), to_radians);
    let angle = f(config.get_angle_per_frame());
    let factory = MoveCommandFactory::new(config, turn, rotate, add);
    let command = factory.make_move_command(1, MoveInstruction::RotateLeft);
    command.player_rotate_left(&mut state);
    assert_eq!(f(state.get_player_orientation(1)), angle);
    command.player_rotate(&mut state, s(1.0));
    assert_eq!(f(state.get_player_orientation(1)), angle + 1.0);
    command.player_rotate_right(&mut state);
    assert_eq!(f(state.get_player_orientation(1)), angle + 1.0 - angle);
    command.move_player(&mut state);
    assert_eq!(f(state.get_player_orientation(1)), angle + 1.0 - angle + angle);
}

#[test]
fn a_missile_starts_the_configured_distance_ahead_of_the_ship() {
    let mut state = GameState::new();
    let (t, d, speed) = (2.1_f32, 40.0_f32, 7.0_f32);
    state
        .get_player_mut(&1)
        .player_object
        .set_position(v(10.0, -20.0))
        .set_angle(s(t))
        .set_velocity(v(1.0, 2.0));
    let factory =
        ShootCommandFactory::new(MissileConfig::new(2, s(speed), s(d)), rotate, add, angle_of);
    let command = factory.make_shoot_command(1);
    assert!(command.player_can_shoot_missile(&state, 1));
    command.create_missile_for_player(&mut state, 1);
    let missile = *state.get_missile(&1, 0);
    let (px, py) = xy(missile.position);
    assert!((px - (10.0 + d * t.cos())).abs() < 1e-4 && (py - (-20.0 + d * t.sin())).abs() < 1e-4);
    let (vx, vy) = xy(missile.velocity);
    assert!((vx - (1.0 + speed * t.cos())).abs() < 1e-5);
    assert!((vy - (2.0 + speed * t.sin())).abs() < 1e-5);
    assert_eq!(missile.angle, angle_of(missile.velocity));
    assert_eq!(missile.acceleration, v(0.0, 0.0));
    command.create_missile_for_player(&mut state, 1);
    assert!(!command.player_can_shoot_missile(&state, 1));
    assert!(factory.make_shoot_command(2).player_can_shoot_missile(&state, 2));
}

#[test]
fn a_fourth_shot_is_refused_at_a_cap_of_three() {
    let mut state = GameState::new();
    let factory =
        ShootCommandFactory::new(MissileConfig::new(3, s(100.0), s(500.0)), rotate, add, angle_of);
    for shots in 1..=3 {
        factory.make_shoot_command(1).execute(&mut state);
        assert_eq!(state.get_player_missile_count(1), shots);
    }
    let before = state.get_player(&1).clone();
    factory.make_shoot_command(1).execute(&mut state);
    assert_eq!(state.get_player_missile_count(1), 3);
    assert_eq!(*state.get_player(&1), before);
    assert_eq!(state.get_player_missile_count(2), 0);
}

#[test]
fn a_cap_of_zero_refuses_every_shot() {
    let mut state = GameState::new();
    let factory =
        ShootCommandFactory::new(MissileConfig::new(0, s(100.0), s(500.0)), rotate, add, angle_of);
    factory.make_shoot_command(2).execute(&mut state);
    assert_eq!(state.get_player_missile_count(2), 0);
}

#[test]
fn a_ship_at_rest_at_the_origin_fires_along_the_x_axis() {
    let mut state = GameState::new();
    let factory =
        ShootCommandFactory::new(MissileConfig::new(3, s(100.0), s(500.0)), rotate, add, angle_of);
    factory.make_shoot_command(1).execute(&mut state);
    assert_eq!(state.get_player_missile_count(1), 1);
    let missile = state.get_missile(&1, 0);
    assert_eq!(xy(missile.position), (500.0, 0.0));
    assert_eq!(xy(missile.velocity), (100.0, 0.0));
    assert_eq!(f(missile.angle), 0.0);
    assert_eq!(missile.acceleration, v(0.0, 0.0));
}

#[test]
fn a_missile_faces_the_way_it_flies() {
    let mut state = GameState::new();
    state
        .get_player_mut(&1)
        .player_object
        .set_position(v(200.0, 100.0))
        .set_angle(s(0.0))
        .set_velocity(v(-100.0, 50.0));
    let factory =
        ShootCommandFactory::new(MissileConfig::new(3, s(100.0), s(500.0)), rotate, add, angle_of);
    factory.make_shoot_command(1).execute(&mut state);
    let missile = state.get_missile(&1, 0);
    assert_eq!(xy(missile.position), (700.0, 100.0));
    assert_eq!(xy(missile.velocity), (0.0, 50.0));
    assert_eq!(f(missile.angle), PI / 2.0);
}

#[test]
fn a_frame_runs_input_then_gravity_then_integration() {
    let mut state = GameState::new();
    state.add_star(StarData::new(v(0.0, 0.0), s(10.0)));
    state.get_player_mut(&1).player_object.set_position(v(2.0, 0.0));
    state.get_player_mut(&2).player_object.set_position(v(0.0, 2.0));
    let moves =
        MoveCommandFactory::new(MoveConfig::new(s(5.0), s(4.0), to_radians), turn, rotate, add);
    moves.make_move_command(1, MoveInstruction::Accelerate).execute(&mut state);
    Gravity::new(pull, add).execute(&mut state);
    assert_eq!(xy(state.get_player_acceleration(1)), (1.5, 0.0));
    Integrate::new(add, scale).execute(&mut state, s(2.0));
    let one = state.get_player(&1).player_object;
    assert_eq!((xy(one.position), xy(one.velocity), xy(one.acceleration)), ((2.0, 0.0), (3.0, 0.0), (0.0, 0.0)));
    let two = state.get_player(&2).player_object;
    assert_eq!((xy(two.position), xy(two.velocity), xy(two.acceleration)), ((0.0, 2.0), (0.0, -5.0), (0.0, 0.0)));
}
