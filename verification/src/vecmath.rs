//! Integer 3-vectors for grid-aligned movement deltas, with a mathematical
//! model over unbounded integers.

use vstd::prelude::*;

verus! {

/// Mathematical model of a 3-vector: unbounded integer components.
pub ghost struct Vec3Model {
    pub x: int,
    pub y: int,
    pub z: int,
}

pub open spec fn v3_zero() -> Vec3Model {
    Vec3Model { x: 0, y: 0, z: 0 }
}

pub open spec fn v3_add(a: Vec3Model, b: Vec3Model) -> Vec3Model {
    Vec3Model { x: a.x + b.x, y: a.y + b.y, z: a.z + b.z }
}

pub open spec fn v3_scale(a: Vec3Model, k: int) -> Vec3Model {
    Vec3Model { x: a.x * k, y: a.y * k, z: a.z * k }
}

/// An executable 3-vector of machine integers, viewed as a `Vec3Model`.
#[derive(Clone, Copy, Debug, PartialEq, Eq, Structural)]
pub struct IVec3 {
    pub x: i64,
    pub y: i64,
    pub z: i64,
}

impl View for IVec3 {
    type V = Vec3Model;

    open spec fn view(&self) -> Vec3Model {
        Vec3Model { x: self.x as int, y: self.y as int, z: self.z as int }
    }
}

impl IVec3 {
    pub fn zero() -> (r: IVec3)
        ensures
            r@ == v3_zero(),
    {
        IVec3 { x: 0, y: 0, z: 0 }
    }
}

} // verus!
