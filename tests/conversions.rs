use glam::UVec4;
use rocketsim_rs::ball::{Ball, BallA, BALL_REST_Z};
use rocketsim_rs::boostpad::{BoostPad, BoostPadA, BoostPadState};
use rocketsim_rs::car::{
    Car, CarA, CarConfig, CarConfigA, CarControls, Team, WheelPairConfig, WheelPairConfigA,
};
use rocketsim_rs::game_state::{GameState, GameStateA};
use rocketsim_rs::math::{RotMat, RotMatA, Vec3};

fn v(x: f32, y: f32, z: f32) -> Vec3 {
    Vec3::new(x.to_bits(), y.to_bits(), z.to_bits())
}

fn sample_car(other_car_id: u32) -> Car {
    let mut car = Car::from(CarA::default());
    car.pos = v(100., -200., 17.);
    car.vel = v(1500., 0., 0.);
    car.has_jumped = true;
    car.has_flipped = true;
    car.last_rel_dodge_torque = v(0., 1., 0.);
    car.boost = 20.5f32.to_bits();
    car.other_car_id = other_car_id;
    car.last_hit_ball_tick = 42;
    car.last_controls = CarControls { boost: true, throttle: 1f32.to_bits(), ..CarControls::idle() };
    car
}

fn octane_like() -> CarConfig {
    let wheels = WheelPairConfig {
        wheel_radius: 12.5f32.to_bits(),
        suspension_rest_length: 38.755f32.to_bits(),
        connection_point_offset: v(51.25, 25.9, 20.755),
    };
    CarConfig {
        hitbox_size: v(120.507, 86.6994, 38.6591),
        hitbox_pos_offset: v(13.8757, 0., 20.755),
        front_wheels: wheels,
        back_wheels: WheelPairConfig { wheel_radius: 15f32.to_bits(), ..wheels },
        dodge_deadzone: 0.5f32.to_bits(),
    }
}

#[test]
fn vec3_lanes_round_trip() {
    let a = v(1., 2., 1000.);
    let lanes = UVec4::from(a);
    assert_eq!(lanes, UVec4::new(1f32.to_bits(), 2f32.to_bits(), 1000f32.to_bits(), 0));
    assert_eq!(Vec3::from(lanes), a);
}

#[test]
fn vec3_padding_is_cleared() {
    let mut a = v(3., 4., 5.);
    a._w = 7;
    assert_eq!(UVec4::from(a).w, 0);
    assert_eq!(Vec3::from(UVec4::from(a))._w, 0);
    assert_eq!(Vec3::from(UVec4::new(9, 8, 7, 6)), Vec3 { x: 9, y: 8, z: 7, _w: 0 });
}

#[test]
fn glam_keeps_all_four_lanes() {
    let a = Vec3 { x: 1, y: 2, z: 3, _w: 4 };
    assert_eq!(a.to_glam(), UVec4::new(1, 2, 3, 4));
    assert_eq!(Vec3::from_glam(UVec4::new(5, 6, 7, 8)), Vec3 { x: 5, y: 6, z: 7, _w: 8 });
    assert_eq!(Vec3::from_glam(a.to_glam()), a);
}

#[test]
fn rotation_axes_become_columns() {
    let r = RotMat { forward: v(0., 1., 0.), right: v(-1., 0., 0.), up: v(0., 0., 1.) };
    let m = RotMatA::from(r);
    assert_eq!(m.x_axis, UVec4::new(0, 1f32.to_bits(), 0, 0));
    assert_eq!(m.y_axis, UVec4::new((-1f32).to_bits(), 0, 0, 0));
    assert_eq!(m.z_axis, UVec4::new(0, 0, 1f32.to_bits(), 0));
    assert_eq!(RotMat::from(m), r);
}

#[test]
fn ball_default_rests_above_floor() {
    let b = BallA::default();
    assert_eq!(f32::from_bits(b.pos.z), 93.15);
    assert_eq!(b.pos.z, BALL_REST_Z);
    assert_eq!((b.pos.x, b.pos.y), (0, 0));
    assert_eq!(b.vel, UVec4::ZERO);
    assert_eq!(b.ang_vel, UVec4::ZERO);
}

#[test]
fn ball_round_trip() {
    let b = Ball { pos: v(1., 2., 1000.), vel: v(0., 0., -1.), ..Default::default() };
    let a = BallA::from(b);
    assert_eq!(a.pos.z, 1000f32.to_bits());
    assert_eq!(a.vel.z, (-1f32).to_bits());
    assert_eq!(Ball::from(a), b);
}

#[test]
fn boost_pad_round_trip() {
    let p = BoostPad {
        is_big: true,
        position: v(3072., -4096., 73.),
        state: BoostPadState { is_active: false, cooldown: 4f32.to_bits(), cur_locked_car_id: 2, prev_locked_car_id: 1 },
    };
    let a = BoostPadA::from(p);
    assert!(a.is_big);
    assert_eq!(a.position, UVec4::new(3072f32.to_bits(), (-4096f32).to_bits(), 73f32.to_bits(), 0));
    assert_eq!(a.state, p.state);
    assert_eq!(BoostPad::from(a), p);
}

#[test]
fn car_config_round_trip() {
    let c = octane_like();
    let a = CarConfigA::from(c);
    assert_eq!(a.hitbox_size.x, 120.507f32.to_bits());
    assert_eq!(a.back_wheels.wheel_radius, 15f32.to_bits());
    assert_eq!(a.dodge_deadzone, 0.5f32.to_bits());
    assert_eq!(WheelPairConfig::from(WheelPairConfigA::from(c.front_wheels)), c.front_wheels);
    assert_eq!(CarConfig::from(a), c);
}

#[test]
fn car_default_is_fresh() {
    let c = CarA::default();
    assert_eq!(f32::from_bits(c.pos.z), 17.);
    assert_eq!(f32::from_bits(c.boost), 100. / 3.);
    assert!(c.is_on_ground);
    assert!(!c.has_jumped && !c.is_demoed && !c.is_supersonic);
    assert_eq!(c.rot_mat.x_axis, UVec4::new(1f32.to_bits(), 0, 0, 0));
    assert_eq!(c.rot_mat.y_axis, UVec4::new(0, 1f32.to_bits(), 0, 0));
    assert_eq!(c.rot_mat.z_axis, UVec4::new(0, 0, 1f32.to_bits(), 0));
    assert_eq!(c.other_car_id, 0);
    assert_eq!(c.last_controls, CarControls::default());
}

#[test]
fn car_round_trip() {
    let c = sample_car(3);
    let a = CarA::from(c);
    assert_eq!(a.pos, UVec4::new(100f32.to_bits(), (-200f32).to_bits(), 17f32.to_bits(), 0));
    assert_eq!(a.boost, 20.5f32.to_bits());
    assert_eq!(a.last_hit_ball_tick, 42);
    assert!(a.last_controls.boost);
    assert_eq!(Car::from(a), c);
}

#[test]
fn car_consistency_flags() {
    let mut c = sample_car(0);
    assert!(c.is_consistent());
    c.has_jumped = false;
    assert!(!c.is_consistent());
    let mut d = Car::from(CarA::default());
    d.is_demoed = true;
    d.demo_respawn_timer = 3f32.to_bits();
    assert!(d.is_consistent());
    d.demo_respawn_timer = (-0f32).to_bits();
    assert!(d.is_consistent());
    d.demo_respawn_timer = (-1f32).to_bits();
    assert!(!d.is_consistent());
    d.demo_respawn_timer = f32::NAN.to_bits();
    assert!(!d.is_consistent());
}

fn sample_state() -> GameState {
    GameState {
        tick_rate: 120f32.to_bits(),
        tick_count: 30,
        cars: vec![(1, Team::BLUE, sample_car(2), octane_like()), (2, Team::ORANGE, sample_car(1), octane_like())],
        ball: Ball { pos: v(1., 2., 1000.), ..Default::default() },
        pads: vec![BoostPad { is_big: false, position: v(0., -4240., 70.), state: BoostPadState::default() }],
    }
}

#[test]
fn game_state_round_trip() {
    let g = sample_state();
    let a = GameStateA::from(g.clone());
    assert_eq!(a.tick_rate, 120f32.to_bits());
    assert_eq!(a.tick_count, 30);
    assert_eq!(a.cars.len(), 2);
    assert_eq!((a.cars[1].0, a.cars[1].1), (2, Team::ORANGE));
    assert_eq!(a.cars[0].2, CarA::from(g.cars[0].2));
    assert_eq!(a.ball, BallA::from(g.ball));
    assert_eq!(a.pads, vec![BoostPadA::from(g.pads[0])]);
    let back = GameState::from_lanes(&a);
    assert_eq!(back.tick_rate, g.tick_rate);
    assert_eq!(back.tick_count, g.tick_count);
    assert_eq!(back.cars, g.cars);
    assert_eq!(back.ball, g.ball);
    assert_eq!(back.pads, g.pads);
}

#[test]
fn contacting_car_none_for_zero_id() {
    let a = GameStateA::from_state(&sample_state());
    let mut lone = CarA::default();
    lone.other_car_id = 0;
    assert_eq!(lone.get_contacting_car(&a), None);
}

#[test]
fn contacting_car_found_by_id() {
    let a = GameStateA::from_state(&sample_state());
    let first = a.cars[0].2;
    assert_eq!(first.other_car_id, 2);
    assert_eq!(first.get_contacting_car(&a), Some(a.cars[1].2));
    assert_eq!(a.cars[1].2.get_contacting_car(&a), Some(first));
}

#[test]
fn contacting_car_stale_id_is_none() {
    let mut a = GameStateA::from_state(&sample_state());
    a.cars.remove(1);
    assert_eq!(a.cars[0].2.get_contacting_car(&a), None);
}

#[test]
fn empty_game_state_converts() {
    let g = GameState { tick_rate: 0, tick_count: 0, cars: vec![], ball: Ball::default(), pads: vec![] };
    let a = GameStateA::from_state(&g);
    assert!(a.cars.is_empty() && a.pads.is_empty());
    assert_eq!(a.ball, BallA::from(Ball::default()));
}

#[test]
fn roster_consistency() {
    let mut g = sample_state();
    assert!(g.cars_consistent());
    g.cars[1].2.has_jumped = false;
    assert!(!g.cars_consistent());
    let empty = GameState { tick_rate: 0, tick_count: 0, cars: vec![], ball: Ball::default(), pads: vec![] };
    assert!(empty.cars_consistent());
}
