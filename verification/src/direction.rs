//! The directional vector table: six logical directions and their unit axis
//! vectors. North looks down the negative z axis and up is positive y, the
//! right-handed convention of the renderer this feeds.

use vstd::prelude::*;

use crate::vecmath::{IVec3, Vec3Model};

verus! {

#[derive(Clone, Copy, Debug, PartialEq, Eq, Structural)]
pub enum Direction {
    North,
    South,
    East,
    West,
    Up,
    Down,
}

/// The unit axis vector of each direction.
pub open spec fn spec_dir_vec(d: Direction) -> Vec3Model {
    match d {
        Direction::North => Vec3Model { x: 0, y: 0, z: -1 },
        Direction::South => Vec3Model { x: 0, y: 0, z: 1 },
        Direction::East => Vec3Model { x: 1, y: 0, z: 0 },
        Direction::West => Vec3Model { x: -1, y: 0, z: 0 },
        Direction::Up => Vec3Model { x: 0, y: 1, z: 0 },
        Direction::Down => Vec3Model { x: 0, y: -1, z: 0 },
    }
}

impl Direction {
    pub fn as_vec3(&self) -> (r: IVec3)
        ensures
            r@ == spec_dir_vec(*self),
    {
        match self {
            Direction::North => IVec3 { x: 0, y: 0, z: -1 },
            Direction::South => IVec3 { x: 0, y: 0, z: 1 },
            Direction::East => IVec3 { x: 1, y: 0, z: 0 },
            Direction::West => IVec3 { x: -1, y: 0, z: 0 },
            Direction::Up => IVec3 { x: 0, y: 1, z: 0 },
            Direction::Down => IVec3 { x: 0, y: -1, z: 0 },
        }
    }
}

} // verus!
