use vstd::prelude::*;
use glam::UVec4;
use crate::math::{Vec3, vec3_to_lanes, lanes_to_vec3};

verus! {

/// The changing part of a boost pad.
#[derive(Clone, Copy, Debug, PartialEq, Eq, Structural, Default)]
pub struct BoostPadState {
    pub is_active: bool,
    /// Seconds left before the pad is available again, as a float's bits.
    pub cooldown: u32,
    pub cur_locked_car_id: u32,
    pub prev_locked_car_id: u32,
}

/// A boost pad in canonical form: its size class and position never change.
#[derive(Clone, Copy, Debug, PartialEq, Eq, Structural, Default)]
pub struct BoostPad {
    pub is_big: bool,
    pub position: Vec3,
    pub state: BoostPadState,
}

/// A boost pad in lane-packed form.
#[derive(Clone, Copy, Debug, PartialEq, Default)]
pub struct BoostPadA {
    pub is_big: bool,
    pub position: UVec4,
    pub state: BoostPadState,
}

pub open spec fn pad_to_lanes(p: BoostPad) -> BoostPadA {
    BoostPadA { is_big: p.is_big, position: vec3_to_lanes(p.position), state: p.state }
}

pub open spec fn lanes_to_pad(p: BoostPadA) -> BoostPad {
    BoostPad { is_big: p.is_big, position: lanes_to_vec3(p.position), state: p.state }
}

impl From<BoostPad> for BoostPadA {
    fn from(value: BoostPad) -> (r: BoostPadA)
        ensures
            r == pad_to_lanes(value),
    {
        BoostPadA { is_big: value.is_big, position: UVec4::from(value.position), state: value.state }
    }
}

impl vstd::std_specs::convert::FromSpecImpl<BoostPad> for BoostPadA {
    open spec fn obeys_from_spec() -> bool {
        true
    }

    open spec fn from_spec(v: BoostPad) -> BoostPadA {
        pad_to_lanes(v)
    }
}

impl From<BoostPadA> for BoostPad {
    fn from(value: BoostPadA) -> (r: BoostPad)
        ensures
            r == lanes_to_pad(value),
    {
        BoostPad { is_big: value.is_big, position: Vec3::from(value.position), state: value.state }
    }
}

impl vstd::std_specs::convert::FromSpecImpl<BoostPadA> for BoostPad {
    open spec fn obeys_from_spec() -> bool {
        true
    }

    open spec fn from_spec(v: BoostPadA) -> BoostPad {
        lanes_to_pad(v)
    }
}

/// A pad whose position has a clear padding lane survives the trip through
/// its lane-packed form unchanged.
pub proof fn lemma_pad_round_trip(p: BoostPad)
    requires
        p.position._w == 0,
    ensures
        lanes_to_pad(pad_to_lanes(p)) == p,
{
}

} // verus!
