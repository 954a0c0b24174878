//! Per-entity camera configuration and the process-wide voxel step size.
//!
//! Key bindings are opaque key identifiers (`u32`); times are nanoseconds.

use vstd::prelude::*;

use crate::direction::Direction;
use crate::fixed::{Fixed, FixedVec3};

verus! {

/// The process-wide movement scale: every accepted move is this many grid
/// units long. Constructed once at startup; a size of zero is a configuration
/// fault that the caller must refuse before construction.
#[derive(Clone, Copy, Debug, PartialEq, Eq, Structural)]
pub struct VoxelSize {
    size: u8,
}

impl View for VoxelSize {
    type V = int;

    closed spec fn view(&self) -> int {
        self.size as int
    }
}

impl VoxelSize {
    pub fn new(size: u8) -> (r: VoxelSize)
        requires
            size >= 1,
        ensures
            r@ == size,
    {
        VoxelSize { size }
    }

    pub fn get(&self) -> (r: u8)
        ensures
            r == self@,
    {
        self.size
    }
}

/// How a camera derives its orientation. Only pointer-driven look
/// (`FaceMode::Mouse`) has a runtime state and a resolver today; the other
/// variants are declared configuration surface whose use is an unsupported-mode
/// fault.
#[derive(Clone, Copy, Debug, PartialEq, Eq, Structural)]
pub enum FaceMode {
    Curser,
    Entity(u64),
    Position(FixedVec3),
    Mouse { invert_y: bool, sensitivity: Fixed },
    Keyboard { pitch_up: u32, pitch_down: u32, yaw_left: u32, yaw_right: u32 },
}

impl FaceMode {
    /// The pointer-look sensitivity; meaningful only for `Mouse`.
    pub open spec fn sensitivity_val(self) -> int
        recommends
            self is Mouse,
    {
        match self {
            FaceMode::Mouse { sensitivity, .. } => sensitivity@,
            _ => 0,
        }
    }

    /// Whether vertical pointer motion is inverted; meaningful only for `Mouse`.
    pub open spec fn invert_y_val(self) -> bool
        recommends
            self is Mouse,
    {
        match self {
            FaceMode::Mouse { invert_y, .. } => invert_y,
            _ => false,
        }
    }
}

/// A camera entity's configuration: six movement key bindings, an orientation
/// mode, an optional minimum interval between edge-triggered moves, and the
/// delay before a held key repeats. Times are nanoseconds.
///
/// The six keys should be distinct, but nothing enforces it: a key bound to
/// two directions fires both together.
#[derive(Clone, Copy, Debug, PartialEq, Eq, Structural)]
pub struct VoxelCam {
    pub move_north: u32,
    pub move_south: u32,
    pub move_east: u32,
    pub move_west: u32,
    pub move_up: u32,
    pub move_down: u32,
    pub face: FaceMode,
    pub min_move_time: Option<u64>,
    pub hold_delay: u64,
}

impl VoxelCam {
    /// The key bound to a direction.
    pub open spec fn spec_key(self, d: Direction) -> u32 {
        match d {
            Direction::North => self.move_north,
            Direction::South => self.move_south,
            Direction::East => self.move_east,
            Direction::West => self.move_west,
            Direction::Up => self.move_up,
            Direction::Down => self.move_down,
        }
    }

    /// All six bindings name different keys.
    pub open spec fn spec_distinct_keys(self) -> bool {
        forall|a: Direction, b: Direction| a != b ==> self.spec_key(a) != self.spec_key(b)
    }
}

} // verus!
