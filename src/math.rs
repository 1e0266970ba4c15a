use vstd::prelude::*;
use glam::UVec4;

verus! {

/// Lets verified code name glam's four-lane `u32` vector and read its lanes.
#[verifier::external_type_specification]
pub struct ExUVec4(glam::UVec4);

/// Relies on glam::UVec4::new: the lanes are the arguments, in order.
pub assume_specification[ glam::UVec4::new ](x: u32, y: u32, z: u32, w: u32) -> (r: UVec4)
    ensures
        r == (UVec4 { x, y, z, w }),
;

/// Relies on glam::UVec4::to_array: the lanes x, y, z, w, in order.
pub assume_specification[ glam::UVec4::to_array ](v: &UVec4) -> (r: [u32; 4])
    ensures
        r@ == seq![v.x, v.y, v.z, v.w],
;

/// A canonical three-component vector. Each component is stored as the
/// IEEE-754 bit pattern of a single-precision float, so conversions can be
/// stated and proved bit for bit. `_w` is an alignment lane with no meaning.
#[derive(Clone, Copy, Debug, PartialEq, Eq, Structural, Default)]
pub struct Vec3 {
    pub x: u32,
    pub y: u32,
    pub z: u32,
    pub _w: u32,
}

/// The vector with its padding lane cleared.
pub open spec fn padded(v: Vec3) -> Vec3 {
    Vec3 { _w: 0, ..v }
}

/// The lane-packed form of a canonical vector: x, y, z in the first three
/// lanes and zero in the padding lane.
pub open spec fn vec3_to_lanes(v: Vec3) -> UVec4 {
    UVec4 { x: v.x, y: v.y, z: v.z, w: 0 }
}

/// The canonical vector read from the first three lanes; padding is zero.
pub open spec fn lanes_to_vec3(a: UVec4) -> Vec3 {
    Vec3 { x: a.x, y: a.y, z: a.z, _w: 0 }
}

impl Vec3 {
    pub fn new(x: u32, y: u32, z: u32) -> (r: Vec3)
        ensures
            r == (Vec3 { x, y, z, _w: 0 }),
    {
        Vec3 { x, y, z, _w: 0 }
    }

    /// All four lanes, padding included, as a glam vector.
    pub fn to_glam(self) -> (r: UVec4)
        ensures
            r == (UVec4 { x: self.x, y: self.y, z: self.z, w: self._w }),
    {
        UVec4::new(self.x, self.y, self.z, self._w)
    }

    /// All four lanes of a glam vector, padding included.
    pub fn from_glam(vec: UVec4) -> (r: Vec3)
        ensures
            r == (Vec3 { x: vec.x, y: vec.y, z: vec.z, _w: vec.w }),
    {
        let a = vec.to_array();
        Vec3 { x: a[0], y: a[1], z: a[2], _w: a[3] }
    }
}

impl From<Vec3> for UVec4 {
    fn from(value: Vec3) -> (r: UVec4)
        ensures
            r == vec3_to_lanes(value),
    {
        UVec4::new(value.x, value.y, value.z, 0)
    }
}

impl vstd::std_specs::convert::FromSpecImpl<Vec3> for UVec4 {
    open spec fn obeys_from_spec() -> bool {
        true
    }

    open spec fn from_spec(v: Vec3) -> UVec4 {
        vec3_to_lanes(v)
    }
}

impl From<UVec4> for Vec3 {
    fn from(value: UVec4) -> (r: Vec3)
        ensures
            r == lanes_to_vec3(value),
    {
        let a = value.to_array();
        Vec3 { x: a[0], y: a[1], z: a[2], _w: 0 }
    }
}

impl vstd::std_specs::convert::FromSpecImpl<UVec4> for Vec3 {
    open spec fn obeys_from_spec() -> bool {
        true
    }

    open spec fn from_spec(v: UVec4) -> Vec3 {
        lanes_to_vec3(v)
    }
}

/// Converting a canonical vector to lanes and back gives it back with its
/// padding lane cleared; a vector whose padding is zero comes back unchanged.
pub proof fn lemma_vec3_round_trip(v: Vec3)
    ensures
        lanes_to_vec3(vec3_to_lanes(v)) == padded(v),
        v._w == 0 ==> lanes_to_vec3(vec3_to_lanes(v)) == v,
{
}

/// Converting lanes to a canonical vector and back gives them back with the
/// padding lane cleared.
pub proof fn lemma_lanes_round_trip(a: UVec4)
    ensures
        vec3_to_lanes(lanes_to_vec3(a)) == (UVec4 { w: 0, ..a }),
{
}

/// An orientation as three axes, each a canonical vector. Orthonormality is
/// the producer's concern: conversions neither check nor restore it.
#[derive(Clone, Copy, Debug, PartialEq, Eq, Structural, Default)]
pub struct RotMat {
    pub forward: Vec3,
    pub right: Vec3,
    pub up: Vec3,
}

/// The lane-packed form of a rotation: its three axes as columns.
#[derive(Clone, Copy, Debug, PartialEq)]
pub struct RotMatA {
    pub x_axis: UVec4,
    pub y_axis: UVec4,
    pub z_axis: UVec4,
}

/// Euler angles in radians, each stored as a float's bit pattern.
#[derive(Clone, Copy, Debug, PartialEq, Eq, Structural, Default)]
pub struct Angle {
    pub pitch: u32,
    pub yaw: u32,
    pub roll: u32,
}

impl RotMat {
    /// Every axis has a clear padding lane.
    pub open spec fn padding_clear(self) -> bool {
        self.forward._w == 0 && self.right._w == 0 && self.up._w == 0
    }
}

/// forward, right and up become the first, second and third columns.
pub open spec fn rot_to_lanes(r: RotMat) -> RotMatA {
    RotMatA {
        x_axis: vec3_to_lanes(r.forward),
        y_axis: vec3_to_lanes(r.right),
        z_axis: vec3_to_lanes(r.up),
    }
}

/// The three columns become forward, right and up.
pub open spec fn lanes_to_rot(m: RotMatA) -> RotMat {
    RotMat {
        forward: lanes_to_vec3(m.x_axis),
        right: lanes_to_vec3(m.y_axis),
        up: lanes_to_vec3(m.z_axis),
    }
}

impl From<RotMat> for RotMatA {
    fn from(value: RotMat) -> (r: RotMatA)
        ensures
            r == rot_to_lanes(value),
    {
        RotMatA {
            x_axis: UVec4::from(value.forward),
            y_axis: UVec4::from(value.right),
            z_axis: UVec4::from(value.up),
        }
    }
}

impl vstd::std_specs::convert::FromSpecImpl<RotMat> for RotMatA {
    open spec fn obeys_from_spec() -> bool {
        true
    }

    open spec fn from_spec(v: RotMat) -> RotMatA {
        rot_to_lanes(v)
    }
}

impl From<RotMatA> for RotMat {
    fn from(value: RotMatA) -> (r: RotMat)
        ensures
            r == lanes_to_rot(value),
    {
        RotMat {
            forward: Vec3::from(value.x_axis),
            right: Vec3::from(value.y_axis),
            up: Vec3::from(value.z_axis),
        }
    }
}

impl vstd::std_specs::convert::FromSpecImpl<RotMatA> for RotMat {
    open spec fn obeys_from_spec() -> bool {
        true
    }

    open spec fn from_spec(v: RotMatA) -> RotMat {
        lanes_to_rot(v)
    }
}

/// A rotation whose axes have clear padding lanes comes back from its
/// lane-packed form axis for axis.
pub proof fn lemma_rot_round_trip(r: RotMat)
    requires
        r.padding_clear(),
    ensures
        lanes_to_rot(rot_to_lanes(r)) == r,
{
}

} // verus!
