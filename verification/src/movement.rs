//! The movement integrator: per frame, turns fresh key presses and held keys
//! into a grid-aligned position delta, gated by a two-tier eligibility rule,
//! and reports the new timing state.
//!
//! Quirk preserved deliberately: with no minimum-move interval configured and
//! no prior timing state, an edge-triggered press is *not* eligible, so the
//! very first press of a fresh camera moves nothing; the hold pass picks the
//! key up on a later frame.

use vstd::prelude::*;

use crate::config::VoxelCam;
use crate::direction::{spec_dir_vec, Direction};
use crate::vecmath::{v3_add, v3_scale, v3_zero, IVec3, Vec3Model};

verus! {

/// The nanosecond timestamp of the last accepted move. Absent until the first
/// accepted move, then overwritten on every later one.
#[derive(Clone, Copy, Debug, PartialEq, Eq, Structural)]
pub struct LastMoved(pub u64);

/// The keyboard as the integrator sees it this frame: the identifiers of the
/// keys freshly pressed on this frame's edge, and of the keys currently held.
#[derive(Clone, Debug)]
pub struct KeyState {
    pub just_pressed: Vec<u32>,
    pub pressed: Vec<u32>,
}

/// What one frame of the integrator produced: the position delta (already
/// scaled by the voxel step size), whether any direction fired, and the timing
/// state to carry into the next frame.
#[derive(Clone, Copy, Debug, PartialEq, Eq, Structural)]
pub struct MoveOutcome {
    pub delta: IVec3,
    pub moved: bool,
    pub new_last_moved: Option<LastMoved>,
}

/// The timestamp held by an optional timing record.
pub open spec fn spec_prev_time(prev: Option<LastMoved>) -> Option<u64> {
    match prev {
        Some(l) => Some(l.0),
        None => None,
    }
}

/// Eligibility of the edge-triggered pass. No interval and no prior timing is
/// not eligible (the first press is not free); interval and prior timing
/// together demand that more than the interval has elapsed; exactly one of the
/// two present is eligible unconditionally.
pub open spec fn spec_edge_eligible(min_move_time: Option<u64>, last: Option<u64>, now: u64) -> bool {
    match (min_move_time, last) {
        (Option::None, Option::None) => false,
        (Option::Some(min), Option::Some(l)) => now - l > min,
        _ => true,
    }
}

/// Eligibility of the hold-repeat pass, evaluated after the edge pass: nothing
/// may have fired on the edge, and with prior timing more than the hold delay
/// must have elapsed.
pub open spec fn spec_hold_eligible(last: Option<u64>, hold_delay: u64, now: u64, edge_fired: bool) -> bool {
    match last {
        Option::Some(l) => !edge_fired && now - l > hold_delay,
        Option::None => !edge_fired,
    }
}

/// Whether any of the six bound keys occurs in `keys`.
pub open spec fn spec_any_fired(cfg: VoxelCam, keys: Seq<u32>) -> bool {
    ||| keys.contains(cfg.move_north)
    ||| keys.contains(cfg.move_south)
    ||| keys.contains(cfg.move_east)
    ||| keys.contains(cfg.move_west)
    ||| keys.contains(cfg.move_up)
    ||| keys.contains(cfg.move_down)
}

/// The unscaled delta of one pass: the sum of the unit vectors of every
/// direction whose bound key occurs in `keys`.
pub open spec fn spec_pass_delta(cfg: VoxelCam, keys: Seq<u32>) -> Vec3Model {
    let n = if keys.contains(cfg.move_north) { spec_dir_vec(Direction::North) } else { v3_zero() };
    let s = if keys.contains(cfg.move_south) { spec_dir_vec(Direction::South) } else { v3_zero() };
    let e = if keys.contains(cfg.move_east) { spec_dir_vec(Direction::East) } else { v3_zero() };
    let w = if keys.contains(cfg.move_west) { spec_dir_vec(Direction::West) } else { v3_zero() };
    let u = if keys.contains(cfg.move_up) { spec_dir_vec(Direction::Up) } else { v3_zero() };
    let d = if keys.contains(cfg.move_down) { spec_dir_vec(Direction::Down) } else { v3_zero() };
    v3_add(v3_add(v3_add(v3_add(v3_add(n, s), e), w), u), d)
}

/// Whether the edge pass fires at all this frame.
pub open spec fn spec_edge_fired(cfg: VoxelCam, last: Option<u64>, now: u64, just: Seq<u32>) -> bool {
    spec_edge_eligible(cfg.min_move_time, last, now) && spec_any_fired(cfg, just)
}

/// Whether any direction fires this frame, from either pass.
pub open spec fn spec_moved(cfg: VoxelCam, last: Option<u64>, now: u64, just: Seq<u32>, held: Seq<u32>) -> bool {
    let edge = spec_edge_fired(cfg, last, now, just);
    ||| edge
    ||| (spec_hold_eligible(last, cfg.hold_delay, now, edge) && spec_any_fired(cfg, held))
}

/// The frame's unscaled delta: the edge pass's contribution plus the hold
/// pass's, each zero when its pass is not eligible.
pub open spec fn spec_move_delta(cfg: VoxelCam, last: Option<u64>, now: u64, just: Seq<u32>, held: Seq<u32>) -> Vec3Model {
    let edge = spec_edge_fired(cfg, last, now, just);
    v3_add(
        if spec_edge_eligible(cfg.min_move_time, last, now) { spec_pass_delta(cfg, just) } else { v3_zero() },
        if spec_hold_eligible(last, cfg.hold_delay, now, edge) { spec_pass_delta(cfg, held) } else { v3_zero() },
    )
}

/// Linear scan for a key identifier.
fn vec_contains(keys: &Vec<u32>, k: u32) -> (r: bool)
    ensures
        r == keys@.contains(k),
{
    let mut i: usize = 0;
    while i < keys.len()
        invariant
            i <= keys@.len(),
            forall|j: int| 0 <= j < i ==> keys@[j] != k,
        decreases keys@.len() - i,
    {
        if keys[i] == k {
            assert(keys@[i as int] == k);
            return true;
        }
        i += 1;
    }
    false
}

/// One trigger pass: the summed unit vectors of the directions whose keys
/// occur in `keys`, and whether any did.
fn pass_move(config: &VoxelCam, keys: &Vec<u32>) -> (r: (IVec3, bool))
    ensures
        r.0@ == spec_pass_delta(*config, keys@),
        r.1 == spec_any_fired(*config, keys@),
        -1 <= r.0.x <= 1,
        -1 <= r.0.y <= 1,
        -1 <= r.0.z <= 1,
{
    let mut x: i64 = 0;
    let mut y: i64 = 0;
    let mut z: i64 = 0;
    let mut fired = false;
    if vec_contains(keys, config.move_north) {
        z = z - 1;
        fired = true;
    }
    if vec_contains(keys, config.move_south) {
        z = z + 1;
        fired = true;
    }
    if vec_contains(keys, config.move_east) {
        x = x + 1;
        fired = true;
    }
    if vec_contains(keys, config.move_west) {
        x = x - 1;
        fired = true;
    }
    if vec_contains(keys, config.move_up) {
        y = y + 1;
        fired = true;
    }
    if vec_contains(keys, config.move_down) {
        y = y - 1;
        fired = true;
    }
    (IVec3 { x, y, z }, fired)
}

/// One frame of the movement integrator.
///
/// Runs the edge-triggered pass if eligible, then the hold-repeat pass if
/// eligible given what the edge pass did; the two contributions add, and the
/// sum is scaled by the voxel step size. If anything fired, the timing state
/// becomes `now`; otherwise the prior timing state is carried unchanged.
pub fn move_camera(
    config: &VoxelCam,
    last_moved: Option<&LastMoved>,
    now: u64,
    inputs: &KeyState,
    voxel: &crate::config::VoxelSize,
) -> (r: MoveOutcome)
    requires
        last_moved matches Some(l) ==> l.0 <= now,
    ensures
        r.moved == spec_moved(*config, spec_prev_time(spec_deref_prev(last_moved)), now, inputs.just_pressed@, inputs.pressed@),
        r.delta@ == v3_scale(
            spec_move_delta(*config, spec_prev_time(spec_deref_prev(last_moved)), now, inputs.just_pressed@, inputs.pressed@),
            voxel@,
        ),
        r.new_last_moved == (if r.moved { Some(LastMoved(now)) } else { spec_deref_prev(last_moved) }),
{
    let edge_ok: bool = match (config.min_move_time, last_moved) {
        (None, None) => false,
        (Some(min), Some(l)) => now - l.0 > min,
        _ => true,
    };
    let (edge_delta, edge_fired) = if edge_ok {
        pass_move(config, &inputs.just_pressed)
    } else {
        (IVec3::zero(), false)
    };
    let hold_ok: bool = match last_moved {
        Some(l) => !edge_fired && now - l.0 > config.hold_delay,
        None => !edge_fired,
    };
    let (hold_delta, hold_fired) = if hold_ok {
        pass_move(config, &inputs.pressed)
    } else {
        (IVec3::zero(), false)
    };
    let moved = edge_fired || hold_fired;
    let step: i64 = voxel.get() as i64;
    let sx: i64 = edge_delta.x + hold_delta.x;
    let sy: i64 = edge_delta.y + hold_delta.y;
    let sz: i64 = edge_delta.z + hold_delta.z;
    proof {
        assert(-512 <= sx * step <= 512 && -512 <= sy * step <= 512 && -512 <= sz * step <= 512)
            by (nonlinear_arith)
            requires
                -2 <= sx <= 2,
                -2 <= sy <= 2,
                -2 <= sz <= 2,
                0 <= step <= 255,
        ;
    }
    let delta = IVec3 { x: sx * step, y: sy * step, z: sz * step };
    let new_last_moved = if moved {
        Some(LastMoved(now))
    } else {
        match last_moved {
            Some(l) => Some(*l),
            None => None,
        }
    };
    MoveOutcome { delta, moved, new_last_moved }
}

/// The owned copy of an optional borrowed timing record.
pub open spec fn spec_deref_prev(prev: Option<&LastMoved>) -> Option<LastMoved> {
    match prev {
        Some(l) => Some(*l),
        None => None,
    }
}

/// Determinism: the contract of `move_camera` pins every field of the outcome,
/// so two outcomes that both satisfy it for the same inputs are equal.
pub proof fn lemma_move_camera_deterministic(
    cfg: VoxelCam,
    prev: Option<LastMoved>,
    now: u64,
    just: Seq<u32>,
    held: Seq<u32>,
    voxel: int,
    r1: MoveOutcome,
    r2: MoveOutcome,
)
    requires
        r1.moved == spec_moved(cfg, spec_prev_time(prev), now, just, held),
        r2.moved == spec_moved(cfg, spec_prev_time(prev), now, just, held),
        r1.delta@ == v3_scale(spec_move_delta(cfg, spec_prev_time(prev), now, just, held), voxel),
        r2.delta@ == v3_scale(spec_move_delta(cfg, spec_prev_time(prev), now, just, held), voxel),
        r1.new_last_moved == (if r1.moved { Some(LastMoved(now)) } else { prev }),
        r2.new_last_moved == (if r2.moved { Some(LastMoved(now)) } else { prev }),
    ensures
        r1 == r2,
{
    assert(r1.delta.x == r2.delta.x);
    assert(r1.delta.y == r2.delta.y);
    assert(r1.delta.z == r2.delta.z);
}

/// No free first move: with no minimum-move interval and no prior timing
/// state, a frame whose keys are only freshly pressed (none yet held) fires
/// nothing and moves nothing; a later frame that still has a bound key held
/// does fire, because with no prior timing the hold pass is eligible.
pub proof fn lemma_no_free_first_move(
    cfg: VoxelCam,
    now1: u64,
    now2: u64,
    just1: Seq<u32>,
    just2: Seq<u32>,
    held2: Seq<u32>,
    d: Direction,
)
    requires
        cfg.min_move_time is None,
        held2.contains(cfg.spec_key(d)),
    ensures
        !spec_moved(cfg, None, now1, just1, Seq::<u32>::empty()),
        spec_move_delta(cfg, None, now1, just1, Seq::<u32>::empty()) == v3_zero(),
        spec_moved(cfg, None, now2, just2, held2),
{
    assert(!spec_edge_eligible(cfg.min_move_time, None, now1));
    assert(!spec_any_fired(cfg, Seq::<u32>::empty()));
    assert(spec_move_delta(cfg, None, now1, just1, Seq::<u32>::empty()) == v3_zero());
    assert(!spec_edge_fired(cfg, None, now2, just2));
    assert(spec_hold_eligible(None, cfg.hold_delay, now2, false));
    match d {
        Direction::North => assert(held2.contains(cfg.move_north)),
        Direction::South => assert(held2.contains(cfg.move_south)),
        Direction::East => assert(held2.contains(cfg.move_east)),
        Direction::West => assert(held2.contains(cfg.move_west)),
        Direction::Up => assert(held2.contains(cfg.move_up)),
        Direction::Down => assert(held2.contains(cfg.move_down)),
    }
}

/// Additivity: with distinct bindings and an eligible edge pass, a frame whose
/// fresh presses are exactly the keys of two different directions fires, and
/// its unscaled delta is the sum of the two unit vectors — zero when the two
/// directions are opposite, though the frame still counts as moved.
pub proof fn lemma_two_key_additivity(
    cfg: VoxelCam,
    last: Option<u64>,
    now: u64,
    just: Seq<u32>,
    held: Seq<u32>,
    d1: Direction,
    d2: Direction,
)
    requires
        cfg.spec_distinct_keys(),
        d1 != d2,
        spec_edge_eligible(cfg.min_move_time, last, now),
        just.contains(cfg.spec_key(d1)),
        just.contains(cfg.spec_key(d2)),
        forall|d: Direction| d != d1 && d != d2 ==> !just.contains(cfg.spec_key(d)),
    ensures
        spec_moved(cfg, last, now, just, held),
        spec_move_delta(cfg, last, now, just, held) == v3_add(spec_dir_vec(d1), spec_dir_vec(d2)),
        v3_add(spec_dir_vec(d1), spec_dir_vec(d2)) == v3_zero()
            ==> spec_move_delta(cfg, last, now, just, held) == v3_zero(),
{
    assert forall|d: Direction| just.contains(cfg.spec_key(d)) implies d == d1 || d == d2 by {
        if d != d1 && d != d2 {
            assert(!just.contains(cfg.spec_key(d)));
        }
    }
    assert(just.contains(cfg.move_north) <==> (d1 == Direction::North || d2 == Direction::North)) by {
        assert(cfg.spec_key(Direction::North) == cfg.move_north);
    }
    assert(just.contains(cfg.move_south) <==> (d1 == Direction::South || d2 == Direction::South)) by {
        assert(cfg.spec_key(Direction::South) == cfg.move_south);
    }
    assert(just.contains(cfg.move_east) <==> (d1 == Direction::East || d2 == Direction::East)) by {
        assert(cfg.spec_key(Direction::East) == cfg.move_east);
    }
    assert(just.contains(cfg.move_west) <==> (d1 == Direction::West || d2 == Direction::West)) by {
        assert(cfg.spec_key(Direction::West) == cfg.move_west);
    }
    assert(just.contains(cfg.move_up) <==> (d1 == Direction::Up || d2 == Direction::Up)) by {
        assert(cfg.spec_key(Direction::Up) == cfg.move_up);
    }
    assert(just.contains(cfg.move_down) <==> (d1 == Direction::Down || d2 == Direction::Down)) by {
        assert(cfg.spec_key(Direction::Down) == cfg.move_down);
    }
    assert(spec_any_fired(cfg, just));
    assert(spec_edge_fired(cfg, last, now, just));
    assert(!spec_hold_eligible(last, cfg.hold_delay, now, true));
    assert(spec_pass_delta(cfg, just) == v3_add(spec_dir_vec(d1), spec_dir_vec(d2)));
}

} // verus!
