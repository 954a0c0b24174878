//! A voxel-grid camera controller: discrete key input and continuous pointer
//! motion become per-frame position deltas and orientation updates for
//! independently configured camera entities.
//!
//! Every quantity is a plain value: times are nanoseconds (`u64`), movement
//! deltas are integer grid vectors, and angles and sensitivities are
//! fixed-point scalars with a scale of one million. The host application owns
//! the event loop, the clock and the rendering transform; it hands this
//! library the current inputs and applies the deltas and rotations that the
//! library computes.

pub mod config;
pub mod direction;
pub mod fixed;
pub mod movement;
pub mod orientation;
pub mod vecmath;
