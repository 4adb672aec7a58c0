//! Properties of the controller that span frames or relate its parts.
use vstd::prelude::*;

use crate::controller::{
    next_state, next_tilt_spec, output_spec, ControlState, FrameInputs, KinematicSnapshot,
};
use crate::fixed::{div_toward_zero, lemma_div_toward_zero_bounds, SCALE};

verus! {

/// The longest frame, in microseconds, for which the auto-level factor
/// `1 - 20 * dt` is not negative.
pub const LONGEST_DECAY_FRAME: u32 = 50_000;

/// `new` is one decay step from `old`: it lies between zero and `old`, so it
/// never changes sign nor grows, and it is strictly smaller in magnitude
/// when time passed and `old` was not zero.
pub open spec fn is_decay_step(old: int, new: int, dt: int) -> bool {
    &&& old >= 0 ==> 0 <= new <= old
    &&& old <= 0 ==> old <= new <= 0
    &&& (dt > 0 && old > 0) ==> new < old
    &&& (dt > 0 && old < 0) ==> new > old
}

/// With no key held on its axis, a pitch or roll command decays toward zero
/// (for frames no longer than `LONGEST_DECAY_FRAME`).
pub proof fn lemma_tilt_decays(v: int, dt: int)
    requires
        0 <= dt <= LONGEST_DECAY_FRAME,
    ensures
        is_decay_step(v, next_tilt_spec(v, 0, dt), dt),
{
    let f = SCALE - 20 * dt;
    let s = SCALE as int;
    assert(0 <= f <= s);
    let a = v * f;
    lemma_div_toward_zero_bounds(a, s);
    let q = div_toward_zero(a, s);
    if v >= 0 {
        assert(0 <= a <= v * s) by (nonlinear_arith)
            requires v >= 0, 0 <= f <= s, a == v * f;
        assert(q <= v) by (nonlinear_arith)
            requires q * s <= a, a <= v * s, s > 0;
        if dt > 0 && v > 0 {
            assert(a < v * s) by (nonlinear_arith)
                requires v > 0, f < s, a == v * f;
            assert(q < v) by (nonlinear_arith)
                requires q * s <= a, a < v * s, s > 0;
        }
    } else {
        assert(v * s <= a <= 0) by (nonlinear_arith)
            requires v < 0, 0 <= f <= s, a == v * f;
        assert(q >= v) by (nonlinear_arith)
            requires q * s >= a, a >= v * s, s > 0;
        if dt > 0 {
            assert(a > v * s) by (nonlinear_arith)
                requires v < 0, f < s, a == v * f;
            assert(q > v) by (nonlinear_arith)
                requires q * s >= a, a > v * s, s > 0;
        }
    }
}

/// Auto-level: over a frame in which no pitch or roll key is held, each of
/// the two commands moves toward zero without changing sign, and strictly
/// so when time passed and it was not already zero. Repeated over frames,
/// the magnitudes decrease monotonically.
pub proof fn lemma_auto_level(s: ControlState, inputs: FrameInputs)
    requires
        !inputs.pitch_forward,
        !inputs.pitch_back,
        !inputs.roll_left,
        !inputs.roll_right,
        inputs.dt <= LONGEST_DECAY_FRAME,
    ensures
        is_decay_step(s.pitch_input as int, next_state(s, inputs).pitch_input as int, inputs.dt as int),
        is_decay_step(s.roll_input as int, next_state(s, inputs).roll_input as int, inputs.dt as int),
{
    lemma_tilt_decays(s.pitch_input as int, inputs.dt as int);
    lemma_tilt_decays(s.roll_input as int, inputs.dt as int);
}

/// A frame of length `dt` with no control active.
pub open spec fn idle_frame(dt: u32) -> FrameInputs {
    FrameInputs {
        dt,
        ascend: false,
        descend: false,
        pitch_forward: false,
        pitch_back: false,
        roll_left: false,
        roll_right: false,
        yaw_left: false,
        yaw_right: false,
    }
}

/// The state after `n` idle frames of length `dt`, starting from `s`.
pub open spec fn after_idle_frames(s: ControlState, dt: u32, n: nat) -> ControlState
    decreases n,
{
    if n == 0 {
        s
    } else {
        next_state(after_idle_frames(s, dt, (n - 1) as nat), idle_frame(dt))
    }
}

/// Auto-level across frames: over any run of idle frames, each further frame
/// is a decay step, so the pitch and roll commands never grow nor change
/// sign, and stay between zero and where they started.
pub proof fn lemma_auto_level_frames(s: ControlState, dt: u32, n: nat)
    requires
        dt <= LONGEST_DECAY_FRAME,
    ensures
        is_decay_step(
            after_idle_frames(s, dt, n).pitch_input as int,
            after_idle_frames(s, dt, n + 1).pitch_input as int,
            dt as int,
        ),
        is_decay_step(
            after_idle_frames(s, dt, n).roll_input as int,
            after_idle_frames(s, dt, n + 1).roll_input as int,
            dt as int,
        ),
        is_decay_step(s.pitch_input as int, after_idle_frames(s, dt, n + 1).pitch_input as int, 0),
        is_decay_step(s.roll_input as int, after_idle_frames(s, dt, n + 1).roll_input as int, 0),
    decreases n,
{
    lemma_auto_level(after_idle_frames(s, dt, n), idle_frame(dt));
    assert(after_idle_frames(s, dt, n + 1) == next_state(after_idle_frames(s, dt, n), idle_frame(dt)));
    if n > 0 {
        lemma_auto_level_frames(s, dt, (n - 1) as nat);
        assert((n - 1) as nat + 1 == n);
    }
}

/// Every frame leaves the target altitude and the tilt commands within their
/// bounds, whatever the state before it.
pub proof fn lemma_state_bounded(s: ControlState, inputs: FrameInputs)
    ensures
        next_state(s, inputs).wf(),
{
}

/// A frame of zero length with no control active leaves a settled state (one
/// within its bounds and with no yaw command) as it was, and outputs what
/// that same state gives for the snapshot.
pub proof fn lemma_zero_frame_is_still(s: ControlState, inputs: FrameInputs, k: KinematicSnapshot)
    requires
        s.wf(),
        s.yaw_input == 0,
        inputs.dt == 0,
        inputs.is_idle(),
    ensures
        next_state(s, inputs) == s,
        output_spec(next_state(s, inputs), k) == output_spec(s, k),
{
    lemma_unit_factor(s.pitch_input as int);
    lemma_unit_factor(s.roll_input as int);
}

/// Scaling by one whole unit and dividing it back out is exact.
proof fn lemma_unit_factor(v: int)
    ensures
        div_toward_zero(v * SCALE, SCALE as int) == v,
{
    let s = SCALE as int;
    if v >= 0 {
        assert((v * s) / s == v) by (nonlinear_arith)
            requires s > 0;
    } else {
        assert(((-v) * s) / s == -v) by (nonlinear_arith)
            requires s > 0;
        assert(-(v * s) == (-v) * s) by (nonlinear_arith);
    }
}

} // verus!
