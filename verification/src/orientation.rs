//! Orientation state: the per-entity record whose shape must match the
//! configuration's face mode, the synchronizer that re-derives it on a kind
//! change, the pointer-look accumulator, and the resolver that turns the
//! accumulated angles into a rotation description.

use vstd::prelude::*;

use crate::config::FaceMode;
use crate::fixed::{
    fits_i64, fits_sym_i64, fixed_add_checked, fixed_mul_checked, spec_fixed_mul, Fixed, FixedVec2,
};

verus! {

/// A camera's runtime orientation state. Its active variant must match the
/// kind of the configuration's `FaceMode`; the synchronizer enforces that.
/// Only pointer-driven look has a defined representation.
#[derive(Clone, Copy, Debug, PartialEq, Eq, Structural)]
pub enum VoxelCameraData {
    Mouse { pitch: Fixed, yaw: Fixed },
}

/// The fault raised the first time a face mode without a defined runtime
/// representation is exercised. Loud and specific by design: a silent no-op
/// would leave a camera frozen with no explanation.
#[derive(Clone, Copy, Debug, PartialEq, Eq, Structural)]
pub struct UnsupportedMode;

impl VoxelCameraData {
    /// The accumulated pitch, in fixed-point millionths of a radian.
    pub open spec fn pitch_val(self) -> int {
        match self {
            VoxelCameraData::Mouse { pitch, .. } => pitch@,
        }
    }

    /// The accumulated yaw, in fixed-point millionths of a radian.
    pub open spec fn yaw_val(self) -> int {
        match self {
            VoxelCameraData::Mouse { yaw, .. } => yaw@,
        }
    }
}

/// Whether an existing state's kind matches the kind its face mode implies.
pub open spec fn spec_kind_matches(face: FaceMode, data: VoxelCameraData) -> bool {
    match (face, data) {
        (FaceMode::Mouse { .. }, VoxelCameraData::Mouse { .. }) => true,
        _ => false,
    }
}

impl FaceMode {
    /// Whether this mode has a defined runtime state and resolver.
    pub open spec fn supported(self) -> bool {
        self is Mouse
    }

    /// The fresh state a supported mode starts from.
    pub open spec fn spec_default_data(self) -> VoxelCameraData
        recommends
            self.supported(),
    {
        VoxelCameraData::Mouse { pitch: Fixed { raw: 0 }, yaw: Fixed { raw: 0 } }
    }

    /// The default runtime state of this mode, or the unsupported-mode fault
    /// for a mode that has none.
    pub fn default_data(&self) -> (r: Result<VoxelCameraData, UnsupportedMode>)
        ensures
            r is Ok <==> self.supported(),
            r matches Ok(d) ==> d == self.spec_default_data(),
    {
        match self {
            FaceMode::Mouse { .. } => Ok(VoxelCameraData::Mouse {
                pitch: Fixed { raw: 0 },
                yaw: Fixed { raw: 0 },
            }),
            _ => Err(UnsupportedMode),
        }
    }
}

/// The state the synchronizer leaves a supported mode with: an existing state
/// of the matching kind is kept untouched; anything else is replaced by the
/// mode's default.
pub open spec fn spec_synchronized(face: FaceMode, data: Option<VoxelCameraData>) -> VoxelCameraData
    recommends
        face.supported(),
{
    match data {
        Some(d) => if spec_kind_matches(face, d) {
            d
        } else {
            face.spec_default_data()
        },
        None => face.spec_default_data(),
    }
}

fn kind_matches(face: &FaceMode, data: &VoxelCameraData) -> (r: bool)
    ensures
        r == spec_kind_matches(*face, *data),
{
    match (face, data) {
        (FaceMode::Mouse { .. }, VoxelCameraData::Mouse { .. }) => true,
        _ => false,
    }
}

/// The orientation synchronizer: given the entity's current face mode and its
/// orientation state, if any, produce the state the entity must carry from
/// here on. A state of the matching kind survives untouched, with its
/// accumulated angles; a missing state or one of another kind becomes the
/// mode's default. A mode with no defined state is the unsupported-mode fault.
pub fn synchronize_data(face: &FaceMode, data: Option<&VoxelCameraData>) -> (r: Result<
    VoxelCameraData,
    UnsupportedMode,
>)
    ensures
        r is Ok <==> face.supported(),
        r matches Ok(d) ==> d == spec_synchronized(*face, spec_deref_data(data)),
{
    match face.default_data() {
        Err(e) => Err(e),
        Ok(fresh) => match data {
            None => Ok(fresh),
            Some(d) => if kind_matches(face, d) {
                Ok(*d)
            } else {
                Ok(fresh)
            },
        },
    }
}

/// The owned copy of an optional borrowed state.
pub open spec fn spec_deref_data(data: Option<&VoxelCameraData>) -> Option<VoxelCameraData> {
    match data {
        Some(d) => Some(*d),
        None => None,
    }
}

/// A state the synchronizer keeps is kept exactly, angles included.
pub proof fn lemma_sync_keeps_matching_state(face: FaceMode, data: VoxelCameraData)
    requires
        face.supported(),
        spec_kind_matches(face, data),
    ensures
        spec_synchronized(face, Some(data)) == data,
{
}

/// A state the synchronizer creates starts from zero accumulated angles:
/// whatever was accumulated before a replacement is discarded, not preserved.
pub proof fn lemma_sync_fresh_state_is_zeroed(face: FaceMode, data: Option<VoxelCameraData>)
    requires
        face.supported(),
        (data matches Some(d) ==> !spec_kind_matches(face, d)),
    ensures
        spec_synchronized(face, data) == face.spec_default_data(),
        spec_synchronized(face, data).pitch_val() == 0,
        spec_synchronized(face, data).yaw_val() == 0,
{
}

/// The outcome of one pointer-look update.
#[derive(Clone, Copy, Debug, PartialEq, Eq, Structural)]
pub enum LookUpdate {
    /// The aggregate delta was folded into the accumulated angles.
    Applied,
    /// The state is pointer-look but the face mode is not: a transient
    /// inconsistency before the synchronizer has run; the update is skipped.
    ModeMismatch,
    /// A scaled term or an accumulated angle left the 64-bit fixed-point
    /// range; the update is skipped and the state left unchanged.
    OutOfRange,
}

/// The recursive sums of the pointer deltas' components.
pub open spec fn spec_sum_x(s: Seq<FixedVec2>) -> int
    decreases s.len(),
{
    if s.len() == 0 {
        0
    } else {
        spec_sum_x(s.drop_last()) + s.last().x@
    }
}

pub open spec fn spec_sum_y(s: Seq<FixedVec2>) -> int
    decreases s.len(),
{
    if s.len() == 0 {
        0
    } else {
        spec_sum_y(s.drop_last()) + s.last().y@
    }
}

/// Sum all pointer-motion deltas of the frame into one aggregate delta.
/// Summation is commutative, so the order of the events does not matter;
/// `None` exactly when a component's total leaves the 64-bit range.
pub fn sum_mouse_deltas(events: &Vec<FixedVec2>) -> (r: Option<FixedVec2>)
    ensures
        r is Some <==> fits_i64(spec_sum_x(events@)) && fits_i64(spec_sum_y(events@)),
        r matches Some(v) ==> v.x@ == spec_sum_x(events@) && v.y@ == spec_sum_y(events@),
{
    let mut sx: i128 = 0;
    let mut sy: i128 = 0;
    let mut i: usize = 0;
    while i < events.len()
        invariant
            i <= events@.len(),
            sx == spec_sum_x(events@.take(i as int)),
            sy == spec_sum_y(events@.take(i as int)),
            -(i as int) * 0x8000_0000_0000_0000 <= sx <= (i as int) * 0x8000_0000_0000_0000,
            -(i as int) * 0x8000_0000_0000_0000 <= sy <= (i as int) * 0x8000_0000_0000_0000,
        decreases events@.len() - i,
    {
        let e = events[i];
        proof {
            assert(events@.take(i as int + 1).drop_last() =~= events@.take(i as int));
            assert(events@.take(i as int + 1).last() == events@[i as int]);
            assert((i as int + 1) * 0x8000_0000_0000_0000
                <= 0x1_0000_0000_0000_0000 * 0x8000_0000_0000_0000) by (nonlinear_arith)
                requires
                    i as int + 1 <= 0x1_0000_0000_0000_0000,
            ;
        }
        sx = sx + e.x.raw as i128;
        sy = sy + e.y.raw as i128;
        i += 1;
    }
    proof {
        assert(events@.take(events@.len() as int) =~= events@);
    }
    if i64::MIN as i128 <= sx && sx <= i64::MAX as i128 && i64::MIN as i128 <= sy && sy
        <= i64::MAX as i128 {
        Some(FixedVec2 { x: Fixed { raw: sx as i64 }, y: Fixed { raw: sy as i64 } })
    } else {
        None
    }
}

/// The yaw increment: the horizontal delta scaled by the sensitivity.
pub open spec fn spec_yaw_term(dx: int, sensitivity: int) -> int {
    spec_fixed_mul(dx, sensitivity)
}

/// The pitch increment: the vertical delta scaled by the sensitivity, negated
/// when the configuration inverts the vertical axis.
pub open spec fn spec_pitch_term(dy: int, sensitivity: int, invert_y: bool) -> int {
    if invert_y {
        -spec_fixed_mul(dy, sensitivity)
    } else {
        spec_fixed_mul(dy, sensitivity)
    }
}

/// Whether every scaled term and both new accumulated angles stay in range.
pub open spec fn spec_look_fits(data: VoxelCameraData, face: FaceMode, delta: FixedVec2) -> bool
    recommends
        face.supported(),
{
    let s = face.sensitivity_val();
    &&& fits_sym_i64(spec_fixed_mul(delta.x@, s))
    &&& fits_i64(data.yaw_val() + spec_yaw_term(delta.x@, s))
    &&& fits_sym_i64(spec_fixed_mul(delta.y@, s))
    &&& fits_i64(data.pitch_val() + spec_pitch_term(delta.y@, s, face.invert_y_val()))
}

/// The pointer-look accumulator for one entity and one frame's aggregate
/// pointer delta: `yaw` grows by the horizontal delta scaled by the
/// sensitivity, `pitch` by the vertical delta scaled likewise and negated if
/// the vertical axis is inverted. A face mode that is not pointer-look is the
/// transient mismatch to tolerate: the state is left untouched. No clamping is
/// performed; accumulation is unbounded by design up to the fixed-point range.
pub fn rotate_camera_mouse(data: &mut VoxelCameraData, face: &FaceMode, delta: &FixedVec2) -> (r:
    LookUpdate)
    ensures
        r == LookUpdate::ModeMismatch <==> !face.supported(),
        r == LookUpdate::Applied <==> face.supported() && spec_look_fits(*old(data), *face, *delta),
        r == LookUpdate::Applied ==> final(data).yaw_val() == old(data).yaw_val() + spec_yaw_term(
            delta.x@,
            face.sensitivity_val(),
        ),
        r == LookUpdate::Applied ==> final(data).pitch_val() == old(data).pitch_val()
            + spec_pitch_term(delta.y@, face.sensitivity_val(), face.invert_y_val()),
        r != LookUpdate::Applied ==> *final(data) == *old(data),
{
    match face {
        FaceMode::Mouse { invert_y, sensitivity } => {
            let (pitch, yaw) = match data {
                VoxelCameraData::Mouse { pitch, yaw } => (*pitch, *yaw),
            };
            let xt = fixed_mul_checked(delta.x, *sensitivity);
            let yt = fixed_mul_checked(delta.y, *sensitivity);
            match (xt, yt) {
                (Some(xt), Some(yt)) => {
                    let pitch_term = if *invert_y {
                        Fixed { raw: -yt.raw }
                    } else {
                        yt
                    };
                    let new_yaw = fixed_add_checked(yaw, xt);
                    let new_pitch = fixed_add_checked(pitch, pitch_term);
                    match (new_yaw, new_pitch) {
                        (Some(ny), Some(np)) => {
                            *data = VoxelCameraData::Mouse { pitch: np, yaw: ny };
                            LookUpdate::Applied
                        },
                        _ => LookUpdate::OutOfRange,
                    }
                },
                _ => LookUpdate::OutOfRange,
            }
        },
        _ => LookUpdate::ModeMismatch,
    }
}

/// A resolved rotation, as data: first the yaw rotation about the world
/// vertical axis, then the pitch rotation about the local horizontal axis, in
/// that order, each angle in fixed-point millionths of a radian. The pitch
/// carried here is already negated relative to the accumulated value, so that
/// positive vertical pointer motion looks down when the vertical axis is not
/// inverted.
#[derive(Clone, Copy, Debug, PartialEq, Eq, Structural)]
pub struct ResolvedRotation {
    pub yaw: Fixed,
    pub pitch: Fixed,
}

/// The orientation resolver: the rotation a camera's accumulated orientation
/// state stands for. Runs whenever the state changed; touches only rotation,
/// never position.
pub fn cam_look_at(data: &VoxelCameraData) -> (r: ResolvedRotation)
    requires
        data.pitch_val() != i64::MIN,
    ensures
        r.yaw@ == data.yaw_val(),
        r.pitch@ == -data.pitch_val(),
{
    match data {
        VoxelCameraData::Mouse { pitch, yaw } => ResolvedRotation {
            yaw: *yaw,
            pitch: Fixed { raw: -pitch.raw },
        },
    }
}

} // verus!
