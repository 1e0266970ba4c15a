use vstd::prelude::*;
use glam::UVec4;
use crate::math::{
    Vec3, RotMat, RotMatA, vec3_to_lanes, lanes_to_vec3, rot_to_lanes, lanes_to_rot,
};

verus! {

/// Bit pattern of 17.0, the height of a fresh car's centre above the floor.
pub const CAR_REST_Z: u32 = 0x4188_0000;

/// Bit pattern of 100/3, the boost a fresh car holds (a full tank of 100
/// stored scaled by one third).
pub const START_BOOST: u32 = 0x4205_5555;

/// Bit pattern of 1.0.
pub const ONE: u32 = 0x3F80_0000;

/// The two sides of a match.
#[allow(non_camel_case_types)]
#[derive(Clone, Copy, Debug, PartialEq, Eq, Structural)]
pub enum Team {
    BLUE,
    ORANGE,
}

/// The last control input applied to a car; analog axes are floats' bits.
#[derive(Clone, Copy, Debug, PartialEq, Eq, Structural, Default)]
pub struct CarControls {
    pub throttle: u32,
    pub steer: u32,
    pub pitch: u32,
    pub yaw: u32,
    pub roll: u32,
    pub boost: bool,
    pub jump: bool,
    pub handbrake: bool,
}

/// Controls with every axis at zero and every button released.
pub open spec fn idle_controls() -> CarControls {
    CarControls {
        throttle: 0,
        steer: 0,
        pitch: 0,
        yaw: 0,
        roll: 0,
        boost: false,
        jump: false,
        handbrake: false,
    }
}

impl CarControls {
    pub fn idle() -> (r: CarControls)
        ensures
            r == idle_controls(),
    {
        CarControls {
            throttle: 0,
            steer: 0,
            pitch: 0,
            yaw: 0,
            roll: 0,
            boost: false,
            jump: false,
            handbrake: false,
        }
    }
}

/// One axle of a car archetype, in canonical form.
#[derive(Clone, Copy, Debug, PartialEq, Eq, Structural, Default)]
pub struct WheelPairConfig {
    /// A float's bit pattern.
    pub wheel_radius: u32,
    /// A float's bit pattern.
    pub suspension_rest_length: u32,
    pub connection_point_offset: Vec3,
}

/// One axle of a car archetype, in lane-packed form.
#[derive(Clone, Copy, Debug, PartialEq, Default)]
pub struct WheelPairConfigA {
    pub wheel_radius: u32,
    pub suspension_rest_length: u32,
    pub connection_point_offset: UVec4,
}

/// A car archetype in canonical form.
#[derive(Clone, Copy, Debug, PartialEq, Eq, Structural, Default)]
pub struct CarConfig {
    pub hitbox_size: Vec3,
    pub hitbox_pos_offset: Vec3,
    pub front_wheels: WheelPairConfig,
    pub back_wheels: WheelPairConfig,
    /// A float's bit pattern.
    pub dodge_deadzone: u32,
}

/// A car archetype in lane-packed form.
#[derive(Clone, Copy, Debug, PartialEq, Default)]
pub struct CarConfigA {
    pub hitbox_size: UVec4,
    pub hitbox_pos_offset: UVec4,
    pub front_wheels: WheelPairConfigA,
    pub back_wheels: WheelPairConfigA,
    pub dodge_deadzone: u32,
}

pub open spec fn wheels_to_lanes(v: WheelPairConfig) -> WheelPairConfigA {
    WheelPairConfigA {
        wheel_radius: v.wheel_radius,
        suspension_rest_length: v.suspension_rest_length,
        connection_point_offset: vec3_to_lanes(v.connection_point_offset),
    }
}

pub open spec fn lanes_to_wheels(v: WheelPairConfigA) -> WheelPairConfig {
    WheelPairConfig {
        wheel_radius: v.wheel_radius,
        suspension_rest_length: v.suspension_rest_length,
        connection_point_offset: lanes_to_vec3(v.connection_point_offset),
    }
}

pub open spec fn config_to_lanes(v: CarConfig) -> CarConfigA {
    CarConfigA {
        hitbox_size: vec3_to_lanes(v.hitbox_size),
        hitbox_pos_offset: vec3_to_lanes(v.hitbox_pos_offset),
        front_wheels: wheels_to_lanes(v.front_wheels),
        back_wheels: wheels_to_lanes(v.back_wheels),
        dodge_deadzone: v.dodge_deadzone,
    }
}

pub open spec fn lanes_to_config(v: CarConfigA) -> CarConfig {
    CarConfig {
        hitbox_size: lanes_to_vec3(v.hitbox_size),
        hitbox_pos_offset: lanes_to_vec3(v.hitbox_pos_offset),
        front_wheels: lanes_to_wheels(v.front_wheels),
        back_wheels: lanes_to_wheels(v.back_wheels),
        dodge_deadzone: v.dodge_deadzone,
    }
}

impl From<WheelPairConfig> for WheelPairConfigA {
    fn from(value: WheelPairConfig) -> (r: WheelPairConfigA)
        ensures
            r == wheels_to_lanes(value),
    {
        WheelPairConfigA {
            wheel_radius: value.wheel_radius,
            suspension_rest_length: value.suspension_rest_length,
            connection_point_offset: UVec4::from(value.connection_point_offset),
        }
    }
}

impl vstd::std_specs::convert::FromSpecImpl<WheelPairConfig> for WheelPairConfigA {
    open spec fn obeys_from_spec() -> bool {
        true
    }

    open spec fn from_spec(v: WheelPairConfig) -> WheelPairConfigA {
        wheels_to_lanes(v)
    }
}

impl From<WheelPairConfigA> for WheelPairConfig {
    fn from(value: WheelPairConfigA) -> (r: WheelPairConfig)
        ensures
            r == lanes_to_wheels(value),
    {
        WheelPairConfig {
            wheel_radius: value.wheel_radius,
            suspension_rest_length: value.suspension_rest_length,
            connection_point_offset: Vec3::from(value.connection_point_offset),
        }
    }
}

impl vstd::std_specs::convert::FromSpecImpl<WheelPairConfigA> for WheelPairConfig {
    open spec fn obeys_from_spec() -> bool {
        true
    }

    open spec fn from_spec(v: WheelPairConfigA) -> WheelPairConfig {
        lanes_to_wheels(v)
    }
}

impl From<CarConfig> for CarConfigA {
    fn from(value: CarConfig) -> (r: CarConfigA)
        ensures
            r == config_to_lanes(value),
    {
        CarConfigA {
            hitbox_size: UVec4::from(value.hitbox_size),
            hitbox_pos_offset: UVec4::from(value.hitbox_pos_offset),
            front_wheels: WheelPairConfigA::from(value.front_wheels),
            back_wheels: WheelPairConfigA::from(value.back_wheels),
            dodge_deadzone: value.dodge_deadzone,
        }
    }
}

impl vstd::std_specs::convert::FromSpecImpl<CarConfig> for CarConfigA {
    open spec fn obeys_from_spec() -> bool {
        true
    }

    open spec fn from_spec(v: CarConfig) -> CarConfigA {
        config_to_lanes(v)
    }
}

impl From<CarConfigA> for CarConfig {
    fn from(value: CarConfigA) -> (r: CarConfig)
        ensures
            r == lanes_to_config(value),
    {
        CarConfig {
            hitbox_size: Vec3::from(value.hitbox_size),
            hitbox_pos_offset: Vec3::from(value.hitbox_pos_offset),
            front_wheels: WheelPairConfig::from(value.front_wheels),
            back_wheels: WheelPairConfig::from(value.back_wheels),
            dodge_deadzone: value.dodge_deadzone,
        }
    }
}

impl vstd::std_specs::convert::FromSpecImpl<CarConfigA> for CarConfig {
    open spec fn obeys_from_spec() -> bool {
        true
    }

    open spec fn from_spec(v: CarConfigA) -> CarConfig {
        lanes_to_config(v)
    }
}

impl CarConfig {
    /// Every vector, those of both axles included, has a clear padding lane.
    pub open spec fn padding_clear(self) -> bool {
        self.hitbox_size._w == 0 && self.hitbox_pos_offset._w == 0
            && self.front_wheels.connection_point_offset._w == 0
            && self.back_wheels.connection_point_offset._w == 0
    }
}

/// A car in canonical form: kinematics, contact, the flags and timers of its
/// jump, flip, recovery, boost and demolition state, and bookkeeping.
#[derive(Clone, Copy, Debug, PartialEq, Eq, Structural)]
pub struct Car {
    pub pos: Vec3,
    pub rot_mat: RotMat,
    pub vel: Vec3,
    pub ang_vel: Vec3,
    pub is_on_ground: bool,
    pub has_jumped: bool,
    pub has_double_jumped: bool,
    pub has_flipped: bool,
    pub last_rel_dodge_torque: Vec3,
    /// A float's bit pattern.
    pub jump_time: u32,
    /// A float's bit pattern.
    pub flip_time: u32,
    pub is_jumping: bool,
    /// A float's bit pattern.
    pub air_time_since_jump: u32,
    /// A float's bit pattern.
    pub boost: u32,
    /// A float's bit pattern.
    pub time_spent_boosting: u32,
    pub is_supersonic: bool,
    /// A float's bit pattern.
    pub supersonic_time: u32,
    /// A float's bit pattern.
    pub handbrake_val: u32,
    pub is_auto_flipping: bool,
    /// A float's bit pattern.
    pub auto_flip_timer: u32,
    /// A float's bit pattern.
    pub auto_flip_torque_scale: u32,
    pub has_contact: bool,
    pub contact_normal: Vec3,
    pub other_car_id: u32,
    /// A float's bit pattern.
    pub cooldown_timer: u32,
    pub is_demoed: bool,
    /// A float's bit pattern.
    pub demo_respawn_timer: u32,
    pub last_hit_ball_tick: u64,
    pub last_controls: CarControls,
}

/// A car in lane-packed form.
#[derive(Clone, Copy, Debug, PartialEq)]
pub struct CarA {
    pub pos: UVec4,
    pub rot_mat: RotMatA,
    pub vel: UVec4,
    pub ang_vel: UVec4,
    pub is_on_ground: bool,
    pub has_jumped: bool,
    pub has_double_jumped: bool,
    pub has_flipped: bool,
    pub last_rel_dodge_torque: UVec4,
    /// A float's bit pattern.
    pub jump_time: u32,
    /// A float's bit pattern.
    pub flip_time: u32,
    pub is_jumping: bool,
    /// A float's bit pattern.
    pub air_time_since_jump: u32,
    /// A float's bit pattern.
    pub boost: u32,
    /// A float's bit pattern.
    pub time_spent_boosting: u32,
    pub is_supersonic: bool,
    /// A float's bit pattern.
    pub supersonic_time: u32,
    /// A float's bit pattern.
    pub handbrake_val: u32,
    pub is_auto_flipping: bool,
    /// A float's bit pattern.
    pub auto_flip_timer: u32,
    /// A float's bit pattern.
    pub auto_flip_torque_scale: u32,
    pub has_contact: bool,
    pub contact_normal: UVec4,
    pub other_car_id: u32,
    /// A float's bit pattern.
    pub cooldown_timer: u32,
    pub is_demoed: bool,
    /// A float's bit pattern.
    pub demo_respawn_timer: u32,
    pub last_hit_ball_tick: u64,
    pub last_controls: CarControls,
}

pub open spec fn car_to_lanes(v: Car) -> CarA {
    CarA {
        pos: vec3_to_lanes(v.pos),
        rot_mat: rot_to_lanes(v.rot_mat),
        vel: vec3_to_lanes(v.vel),
        ang_vel: vec3_to_lanes(v.ang_vel),
        is_on_ground: v.is_on_ground,
        has_jumped: v.has_jumped,
        has_double_jumped: v.has_double_jumped,
        has_flipped: v.has_flipped,
        last_rel_dodge_torque: vec3_to_lanes(v.last_rel_dodge_torque),
        jump_time: v.jump_time,
        flip_time: v.flip_time,
        is_jumping: v.is_jumping,
        air_time_since_jump: v.air_time_since_jump,
        boost: v.boost,
        time_spent_boosting: v.time_spent_boosting,
        is_supersonic: v.is_supersonic,
        supersonic_time: v.supersonic_time,
        handbrake_val: v.handbrake_val,
        is_auto_flipping: v.is_auto_flipping,
        auto_flip_timer: v.auto_flip_timer,
        auto_flip_torque_scale: v.auto_flip_torque_scale,
        has_contact: v.has_contact,
        contact_normal: vec3_to_lanes(v.contact_normal),
        other_car_id: v.other_car_id,
        cooldown_timer: v.cooldown_timer,
        is_demoed: v.is_demoed,
        demo_respawn_timer: v.demo_respawn_timer,
        last_hit_ball_tick: v.last_hit_ball_tick,
        last_controls: v.last_controls,
    }
}

pub open spec fn lanes_to_car(v: CarA) -> Car {
    Car {
        pos: lanes_to_vec3(v.pos),
        rot_mat: lanes_to_rot(v.rot_mat),
        vel: lanes_to_vec3(v.vel),
        ang_vel: lanes_to_vec3(v.ang_vel),
        is_on_ground: v.is_on_ground,
        has_jumped: v.has_jumped,
        has_double_jumped: v.has_double_jumped,
        has_flipped: v.has_flipped,
        last_rel_dodge_torque: lanes_to_vec3(v.last_rel_dodge_torque),
        jump_time: v.jump_time,
        flip_time: v.flip_time,
        is_jumping: v.is_jumping,
        air_time_since_jump: v.air_time_since_jump,
        boost: v.boost,
        time_spent_boosting: v.time_spent_boosting,
        is_supersonic: v.is_supersonic,
        supersonic_time: v.supersonic_time,
        handbrake_val: v.handbrake_val,
        is_auto_flipping: v.is_auto_flipping,
        auto_flip_timer: v.auto_flip_timer,
        auto_flip_torque_scale: v.auto_flip_torque_scale,
        has_contact: v.has_contact,
        contact_normal: lanes_to_vec3(v.contact_normal),
        other_car_id: v.other_car_id,
        cooldown_timer: v.cooldown_timer,
        is_demoed: v.is_demoed,
        demo_respawn_timer: v.demo_respawn_timer,
        last_hit_ball_tick: v.last_hit_ball_tick,
        last_controls: v.last_controls,
    }
}

/// Whether the bits are those of a float that compares as at least zero:
/// positive zero up to positive infinity, or negative zero. NaNs are not.
pub open spec fn float_bits_non_negative(b: u32) -> bool {
    b <= 0x7F80_0000 || b == 0x8000_0000
}

impl Car {
    /// Every vector, the rotation's axes included, has a clear padding lane.
    pub open spec fn padding_clear(self) -> bool {
        self.pos._w == 0 && self.vel._w == 0 && self.ang_vel._w == 0 && self.last_rel_dodge_torque._w == 0 && self.contact_normal._w == 0 && self.rot_mat.padding_clear()
    }

    /// The consistency of the ability and demolition flags: a double jump or a
    /// flip only follows a jump, and a demoed car's respawn timer is not
    /// negative.
    pub open spec fn flags_consistent(self) -> bool {
        &&& self.has_double_jumped ==> self.has_jumped
        &&& self.has_flipped ==> self.has_jumped
        &&& self.is_demoed ==> float_bits_non_negative(self.demo_respawn_timer)
    }

    /// Checks the consistency of the ability and demolition flags.
    pub fn is_consistent(&self) -> (r: bool)
        ensures
            r == self.flags_consistent(),
    {
        let timer = self.demo_respawn_timer;
        let timer_ok = timer <= 0x7F80_0000 || timer == 0x8000_0000;
        let double_ok = !self.has_double_jumped || self.has_jumped;
        let flip_ok = !self.has_flipped || self.has_jumped;
        double_ok && flip_ok && (!self.is_demoed || timer_ok)
    }
}

/// A freshly placed car: resting on the ground at the centre, upright and
/// still, with a full tank of boost and every flag and timer cleared.
pub open spec fn fresh_car() -> CarA {
    CarA {
        pos: UVec4 { x: 0, y: 0, z: CAR_REST_Z, w: 0 },
        rot_mat: RotMatA {
            x_axis: UVec4 { x: ONE, y: 0, z: 0, w: 0 },
            y_axis: UVec4 { x: 0, y: ONE, z: 0, w: 0 },
            z_axis: UVec4 { x: 0, y: 0, z: ONE, w: 0 },
        },
        vel: UVec4 { x: 0, y: 0, z: 0, w: 0 },
        ang_vel: UVec4 { x: 0, y: 0, z: 0, w: 0 },
        is_on_ground: true,
        has_jumped: false,
        has_double_jumped: false,
        has_flipped: false,
        last_rel_dodge_torque: UVec4 { x: 0, y: 0, z: 0, w: 0 },
        jump_time: 0,
        flip_time: 0,
        is_jumping: false,
        air_time_since_jump: 0,
        boost: START_BOOST,
        time_spent_boosting: 0,
        is_supersonic: false,
        supersonic_time: 0,
        handbrake_val: 0,
        is_auto_flipping: false,
        auto_flip_timer: 0,
        auto_flip_torque_scale: 0,
        has_contact: false,
        contact_normal: UVec4 { x: 0, y: 0, z: 0, w: 0 },
        other_car_id: 0,
        cooldown_timer: 0,
        is_demoed: false,
        demo_respawn_timer: 0,
        last_hit_ball_tick: 0,
        last_controls: idle_controls(),
    }
}

impl Default for CarA {
    fn default() -> (r: CarA)
        ensures
            r == fresh_car(),
    {
        CarA {
            pos: UVec4::new(0, 0, CAR_REST_Z, 0),
            rot_mat: RotMatA {
                x_axis: UVec4::new(ONE, 0, 0, 0),
                y_axis: UVec4::new(0, ONE, 0, 0),
                z_axis: UVec4::new(0, 0, ONE, 0),
            },
            vel: UVec4::new(0, 0, 0, 0),
            ang_vel: UVec4::new(0, 0, 0, 0),
            is_on_ground: true,
            has_jumped: false,
            has_double_jumped: false,
            has_flipped: false,
            last_rel_dodge_torque: UVec4::new(0, 0, 0, 0),
            jump_time: 0,
            flip_time: 0,
            is_jumping: false,
            air_time_since_jump: 0,
            boost: START_BOOST,
            time_spent_boosting: 0,
            is_supersonic: false,
            supersonic_time: 0,
            handbrake_val: 0,
            is_auto_flipping: false,
            auto_flip_timer: 0,
            auto_flip_torque_scale: 0,
            has_contact: false,
            contact_normal: UVec4::new(0, 0, 0, 0),
            other_car_id: 0,
            cooldown_timer: 0,
            is_demoed: false,
            demo_respawn_timer: 0,
            last_hit_ball_tick: 0,
            last_controls: CarControls::idle(),
        }
    }
}

impl From<Car> for CarA {
    fn from(value: Car) -> (r: CarA)
        ensures
            r == car_to_lanes(value),
    {
        CarA {
            pos: UVec4::from(value.pos),
            rot_mat: RotMatA::from(value.rot_mat),
            vel: UVec4::from(value.vel),
            ang_vel: UVec4::from(value.ang_vel),
            is_on_ground: value.is_on_ground,
            has_jumped: value.has_jumped,
            has_double_jumped: value.has_double_jumped,
            has_flipped: value.has_flipped,
            last_rel_dodge_torque: UVec4::from(value.last_rel_dodge_torque),
            jump_time: value.jump_time,
            flip_time: value.flip_time,
            is_jumping: value.is_jumping,
            air_time_since_jump: value.air_time_since_jump,
            boost: value.boost,
            time_spent_boosting: value.time_spent_boosting,
            is_supersonic: value.is_supersonic,
            supersonic_time: value.supersonic_time,
            handbrake_val: value.handbrake_val,
            is_auto_flipping: value.is_auto_flipping,
            auto_flip_timer: value.auto_flip_timer,
            auto_flip_torque_scale: value.auto_flip_torque_scale,
            has_contact: value.has_contact,
            contact_normal: UVec4::from(value.contact_normal),
            other_car_id: value.other_car_id,
            cooldown_timer: value.cooldown_timer,
            is_demoed: value.is_demoed,
            demo_respawn_timer: value.demo_respawn_timer,
            last_hit_ball_tick: value.last_hit_ball_tick,
            last_controls: value.last_controls,
        }
    }
}

impl vstd::std_specs::convert::FromSpecImpl<Car> for CarA {
    open spec fn obeys_from_spec() -> bool {
        true
    }

    open spec fn from_spec(v: Car) -> CarA {
        car_to_lanes(v)
    }
}

impl From<CarA> for Car {
    fn from(value: CarA) -> (r: Car)
        ensures
            r == lanes_to_car(value),
    {
        Car {
            pos: Vec3::from(value.pos),
            rot_mat: RotMat::from(value.rot_mat),
            vel: Vec3::from(value.vel),
            ang_vel: Vec3::from(value.ang_vel),
            is_on_ground: value.is_on_ground,
            has_jumped: value.has_jumped,
            has_double_jumped: value.has_double_jumped,
            has_flipped: value.has_flipped,
            last_rel_dodge_torque: Vec3::from(value.last_rel_dodge_torque),
            jump_time: value.jump_time,
            flip_time: value.flip_time,
            is_jumping: value.is_jumping,
            air_time_since_jump: value.air_time_since_jump,
            boost: value.boost,
            time_spent_boosting: value.time_spent_boosting,
            is_supersonic: value.is_supersonic,
            supersonic_time: value.supersonic_time,
            handbrake_val: value.handbrake_val,
            is_auto_flipping: value.is_auto_flipping,
            auto_flip_timer: value.auto_flip_timer,
            auto_flip_torque_scale: value.auto_flip_torque_scale,
            has_contact: value.has_contact,
            contact_normal: Vec3::from(value.contact_normal),
            other_car_id: value.other_car_id,
            cooldown_timer: value.cooldown_timer,
            is_demoed: value.is_demoed,
            demo_respawn_timer: value.demo_respawn_timer,
            last_hit_ball_tick: value.last_hit_ball_tick,
            last_controls: value.last_controls,
        }
    }
}

impl vstd::std_specs::convert::FromSpecImpl<CarA> for Car {
    open spec fn obeys_from_spec() -> bool {
        true
    }

    open spec fn from_spec(v: CarA) -> Car {
        lanes_to_car(v)
    }
}

/// An archetype whose vectors have clear padding lanes survives the trip
/// through its lane-packed form unchanged.
pub proof fn lemma_config_round_trip(c: CarConfig)
    requires
        c.padding_clear(),
    ensures
        lanes_to_config(config_to_lanes(c)) == c,
{
}

/// A car whose vectors have clear padding lanes survives the trip through its
/// lane-packed form unchanged, every flag, timer and counter included.
pub proof fn lemma_car_round_trip(c: Car)
    requires
        c.padding_clear(),
    ensures
        lanes_to_car(car_to_lanes(c)) == c,
{
}

/// The trip through the lane-packed form keeps a car's flags consistent or
/// inconsistent as they were.
pub proof fn lemma_car_round_trip_keeps_consistency(c: Car)
    ensures
        lanes_to_car(car_to_lanes(c)).flags_consistent() == c.flags_consistent(),
{
}

} // verus!
