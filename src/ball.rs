use vstd::prelude::*;
use glam::UVec4;
use crate::math::{Vec3, vec3_to_lanes, lanes_to_vec3};

verus! {

/// Bit pattern of 93.15, the resting height of a fresh ball above the floor.
pub const BALL_REST_Z: u32 = 0x42BA_4CCD;

/// The ball in canonical form.
#[derive(Clone, Copy, Debug, PartialEq, Eq, Structural, Default)]
pub struct Ball {
    pub pos: Vec3,
    pub vel: Vec3,
    pub ang_vel: Vec3,
}

/// The ball in lane-packed form.
#[derive(Clone, Copy, Debug, PartialEq)]
pub struct BallA {
    pub pos: UVec4,
    pub vel: UVec4,
    pub ang_vel: UVec4,
}

impl Ball {
    /// Every vector has a clear padding lane.
    pub open spec fn padding_clear(self) -> bool {
        self.pos._w == 0 && self.vel._w == 0 && self.ang_vel._w == 0
    }
}

pub open spec fn ball_to_lanes(b: Ball) -> BallA {
    BallA {
        pos: vec3_to_lanes(b.pos),
        vel: vec3_to_lanes(b.vel),
        ang_vel: vec3_to_lanes(b.ang_vel),
    }
}

pub open spec fn lanes_to_ball(b: BallA) -> Ball {
    Ball {
        pos: lanes_to_vec3(b.pos),
        vel: lanes_to_vec3(b.vel),
        ang_vel: lanes_to_vec3(b.ang_vel),
    }
}

impl Default for BallA {
    /// A ball at rest at its resting height above the centre of the field.
    fn default() -> (r: BallA)
        ensures
            r == (BallA {
                pos: UVec4 { x: 0, y: 0, z: BALL_REST_Z, w: 0 },
                vel: UVec4 { x: 0, y: 0, z: 0, w: 0 },
                ang_vel: UVec4 { x: 0, y: 0, z: 0, w: 0 },
            }),
    {
        BallA {
            pos: UVec4::new(0, 0, BALL_REST_Z, 0),
            vel: UVec4::new(0, 0, 0, 0),
            ang_vel: UVec4::new(0, 0, 0, 0),
        }
    }
}

impl From<Ball> for BallA {
    fn from(value: Ball) -> (r: BallA)
        ensures
            r == ball_to_lanes(value),
    {
        BallA {
            pos: UVec4::from(value.pos),
            vel: UVec4::from(value.vel),
            ang_vel: UVec4::from(value.ang_vel),
        }
    }
}

impl vstd::std_specs::convert::FromSpecImpl<Ball> for BallA {
    open spec fn obeys_from_spec() -> bool {
        true
    }

    open spec fn from_spec(v: Ball) -> BallA {
        ball_to_lanes(v)
    }
}

impl From<BallA> for Ball {
    fn from(value: BallA) -> (r: Ball)
        ensures
            r == lanes_to_ball(value),
    {
        Ball {
            pos: Vec3::from(value.pos),
            vel: Vec3::from(value.vel),
            ang_vel: Vec3::from(value.ang_vel),
        }
    }
}

impl vstd::std_specs::convert::FromSpecImpl<BallA> for Ball {
    open spec fn obeys_from_spec() -> bool {
        true
    }

    open spec fn from_spec(v: BallA) -> Ball {
        lanes_to_ball(v)
    }
}

/// A ball whose vectors have clear padding lanes survives the trip through
/// its lane-packed form unchanged.
pub proof fn lemma_ball_round_trip(b: Ball)
    requires
        b.padding_clear(),
    ensures
        lanes_to_ball(ball_to_lanes(b)) == b,
{
}

} // verus!
