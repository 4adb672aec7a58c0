//! The flight controller: persistent control state, the per-frame inputs and
//! kinematic snapshot it reads, and the update that turns them into a force,
//! an angular velocity and a speed-limited linear velocity.
//!
//! Integration contract with the physics engine: the controller adds its own
//! gravity compensation `(0, -GRAVITY, 0)` to the force it returns, so the
//! engine must apply no gravity of its own to the vehicle, or gravity is
//! counted twice.
use vstd::prelude::*;

use crate::fixed::{clamp, clamp_i128, div_i128, div_toward_zero, lemma_div_toward_zero_bounds, SCALE};
use crate::vector::{
    length_sq, lemma_mul_abs_bound, limit_speed, MAX_SPEED, limit_speed_spec, up_direction, up_direction_spec, Quat, Vec3,
};

verus! {

/// Lowest allowed target altitude: one metre.
pub const MIN_ALTITUDE: i32 = 1_000_000;
/// Highest allowed target altitude: ten metres.
pub const MAX_ALTITUDE: i32 = 10_000_000;
/// Rate at which ascend and descend move the target altitude: four metres per second.
pub const CLIMB_RATE: i64 = 4;
/// Largest commanded tilt about pitch or roll: 0.26 radians, about 15 degrees.
pub const MAX_TILT: i32 = 260_000;
/// Rate at which a held key moves a pitch, roll or yaw command, per second.
pub const CONTROL_STRENGTH: i64 = 4;
/// Per-second rate of the pitch and roll decay toward level flight.
pub const AUTO_LEVEL_STRENGTH: i64 = 20;
/// Gravity compensation: 9.81 newtons on a vehicle of unit mass.
pub const GRAVITY: i64 = 9_810_000;
/// Proportional gain of the altitude law.
pub const ALTITUDE_P_GAIN: i64 = 15;
/// Derivative gain of the altitude law.
pub const ALTITUDE_D_GAIN: i64 = 6;
/// Lowest thrust the altitude law commands: five newtons.
pub const MIN_THRUST: i64 = 5_000_000;
/// Highest thrust the altitude law commands: twenty newtons.
pub const MAX_THRUST: i64 = 20_000_000;
/// Angular rate commanded per radian of pitch or roll command.
pub const TILT_RATE_GAIN: i64 = 8;
/// Angular rate commanded per unit of yaw command.
pub const YAW_RATE_GAIN: i64 = 3;

/// The persistent state of one vehicle's controller.
#[derive(Clone, Copy, Debug, PartialEq, Eq, Structural)]
pub struct ControlState {
    /// Desired height above the reference plane, in micrometres.
    pub target_altitude: i32,
    /// Filtered pitch command, in microradians.
    pub pitch_input: i32,
    /// Filtered roll command, in microradians.
    pub roll_input: i32,
    /// Filtered yaw-rate command, in millionths.
    pub yaw_input: i32,
}

/// The controls active during one frame, and the time it lasted.
#[derive(Clone, Copy, Debug, PartialEq, Eq, Structural)]
pub struct FrameInputs {
    /// Time elapsed since the previous frame, in microseconds.
    pub dt: u32,
    pub ascend: bool,
    pub descend: bool,
    pub pitch_forward: bool,
    pub pitch_back: bool,
    pub roll_left: bool,
    pub roll_right: bool,
    pub yaw_left: bool,
    pub yaw_right: bool,
}

/// The vehicle's state as the physics engine reports it for this frame.
#[derive(Clone, Copy, Debug, PartialEq, Eq, Structural)]
pub struct KinematicSnapshot {
    /// World position, in micrometres; `y` is the height.
    pub position: Vec3,
    /// World orientation.
    pub orientation: Quat,
    /// Linear velocity, in micrometres per second.
    pub linvel: Vec3,
    /// Angular velocity, in microradians per second.
    pub angvel: Vec3,
}

/// What the controller hands the physics engine for this frame.
#[derive(Clone, Copy, Debug, PartialEq, Eq, Structural)]
pub struct ControlOutput {
    /// World-space force to accumulate on the body, in micronewtons.
    pub force: Vec3,
    /// Angular velocity to write over the body's own.
    pub angvel: Vec3,
    /// Linear velocity after the speed cap, to write over the body's own.
    pub linvel: Vec3,
}

impl ControlState {
    /// The bounds that hold after every update.
    pub open spec fn wf(&self) -> bool {
        &&& MIN_ALTITUDE <= self.target_altitude <= MAX_ALTITUDE
        &&& -MAX_TILT <= self.pitch_input <= MAX_TILT
        &&& -MAX_TILT <= self.roll_input <= MAX_TILT
    }

    /// The state of a vehicle just spawned: holding two metres, level, no yaw.
    pub fn new() -> (r: ControlState)
        ensures
            r.wf(),
            r == (ControlState {
                target_altitude: 2_000_000,
                pitch_input: 0,
                roll_input: 0,
                yaw_input: 0,
            }),
    {
        ControlState { target_altitude: 2_000_000, pitch_input: 0, roll_input: 0, yaw_input: 0 }
    }
}

impl FrameInputs {
    /// No control is active.
    pub open spec fn is_idle(&self) -> bool {
        !self.ascend && !self.descend && !self.pitch_forward && !self.pitch_back
            && !self.roll_left && !self.roll_right && !self.yaw_left && !self.yaw_right
    }

    /// A frame of length `dt` with no control active.
    pub fn idle(dt: u32) -> (r: FrameInputs)
        ensures
            r.dt == dt,
            r.is_idle(),
    {
        FrameInputs {
            dt,
            ascend: false,
            descend: false,
            pitch_forward: false,
            pitch_back: false,
            roll_left: false,
            roll_right: false,
            yaw_left: false,
            yaw_right: false,
        }
    }
}

/// `1` when the first key is held, else `-1` when the second is, else `0`.
pub open spec fn axis_direction_spec(first: bool, second: bool) -> int {
    if first {
        1
    } else if second {
        -1
    } else {
        0
    }
}

/// The target altitude after one frame: moved by `4 * dt` for each of
/// ascend and descend that is held, then clamped to the allowed band.
pub open spec fn next_target_altitude(target: int, inputs: FrameInputs) -> int {
    let step = CLIMB_RATE * inputs.dt;
    let up = if inputs.ascend { step } else { 0 };
    let down = if inputs.descend { step } else { 0 };
    clamp(target + up - down, MIN_ALTITUDE as int, MAX_ALTITUDE as int)
}

/// A pitch or roll command after one frame: accumulated by `4 * dt` in the
/// held direction, or, with no key held, scaled by `1 - 20 * dt` toward level;
/// then clamped to the tilt limit.
pub open spec fn next_tilt_spec(v: int, dir: int, dt: int) -> int {
    let moved = if dir == 0 {
        div_toward_zero(v * (SCALE - AUTO_LEVEL_STRENGTH * dt), SCALE as int)
    } else {
        v + dir * CONTROL_STRENGTH * dt
    };
    clamp(moved, -MAX_TILT as int, MAX_TILT as int)
}

/// The yaw command after one frame: accumulated by `4 * dt` in the held
/// direction (saturating at the range of `i32`), or, with no key held,
/// multiplied by `0.8` whatever the frame's length.
pub open spec fn next_yaw_spec(v: int, dir: int, dt: int) -> int {
    if dir == 0 {
        div_toward_zero(8 * v, 10)
    } else {
        clamp(v + dir * CONTROL_STRENGTH * dt, i32::MIN as int, i32::MAX as int)
    }
}

/// The controller state after one frame.
pub open spec fn next_state(s: ControlState, inputs: FrameInputs) -> ControlState {
    ControlState {
        target_altitude: next_target_altitude(s.target_altitude as int, inputs) as i32,
        pitch_input: next_tilt_spec(
            s.pitch_input as int,
            axis_direction_spec(inputs.pitch_forward, inputs.pitch_back),
            inputs.dt as int,
        ) as i32,
        roll_input: next_tilt_spec(
            s.roll_input as int,
            -axis_direction_spec(inputs.roll_left, inputs.roll_right),
            inputs.dt as int,
        ) as i32,
        yaw_input: next_yaw_spec(
            s.yaw_input as int,
            axis_direction_spec(inputs.yaw_left, inputs.yaw_right),
            inputs.dt as int,
        ) as i32,
    }
}

/// The vertical thrust of the altitude law: gravity compensation plus
/// `15 * error - 6 * vertical velocity`, clamped to the safe thrust band.
pub open spec fn throttle_spec(target: int, height: int, vertical_velocity: int) -> int {
    let adjustment = (target - height) * ALTITUDE_P_GAIN - vertical_velocity * ALTITUDE_D_GAIN;
    clamp(GRAVITY + adjustment, MIN_THRUST as int, MAX_THRUST as int)
}

/// Thrust along the body's up direction plus the gravity compensation term.
pub open spec fn force_spec(orientation: Quat, throttle: int) -> Vec3 {
    let up = up_direction_spec(orientation);
    Vec3 {
        x: div_toward_zero(up.x * throttle, SCALE as int) as i64,
        y: (div_toward_zero(up.y * throttle, SCALE as int) - GRAVITY) as i64,
        z: div_toward_zero(up.z * throttle, SCALE as int) as i64,
    }
}

/// One step of `lerp(current, target, 0.7)`.
pub open spec fn blend_spec(current: int, target: int) -> int {
    div_toward_zero(3 * current + 7 * target, 10)
}

/// The angular velocity the filtered commands ask for; pitch and roll are
/// negated so that a forward command tilts the nose down.
pub open spec fn angvel_target_spec(s: ControlState) -> (int, int, int) {
    (
        -(s.pitch_input * TILT_RATE_GAIN),
        s.yaw_input * YAW_RATE_GAIN,
        -(s.roll_input * TILT_RATE_GAIN),
    )
}

/// What the controller outputs for state `s` (already updated for this
/// frame) and the snapshot `k`.
pub open spec fn output_spec(s: ControlState, k: KinematicSnapshot) -> ControlOutput {
    let t = angvel_target_spec(s);
    ControlOutput {
        force: force_spec(
            k.orientation,
            throttle_spec(s.target_altitude as int, k.position.y as int, k.linvel.y as int),
        ),
        angvel: Vec3 {
            x: blend_spec(k.angvel.x as int, t.0) as i64,
            y: blend_spec(k.angvel.y as int, t.1) as i64,
            z: blend_spec(k.angvel.z as int, t.2) as i64,
        },
        linvel: limit_speed_spec(k.linvel),
    }
}

/// `1` when the first key is held, else `-1` when the second is, else `0`.
pub fn axis_direction(first: bool, second: bool) -> (r: i8)
    ensures
        r == axis_direction_spec(first, second),
{
    if first {
        1
    } else if second {
        -1
    } else {
        0
    }
}

/// Moves the target altitude for one frame and clamps it to
/// `[MIN_ALTITUDE, MAX_ALTITUDE]`.
pub fn update_target_altitude(target: i32, inputs: FrameInputs) -> (r: i32)
    ensures
        r == next_target_altitude(target as int, inputs),
        MIN_ALTITUDE <= r <= MAX_ALTITUDE,
{
    let step: i64 = CLIMB_RATE * inputs.dt as i64;
    let mut t: i64 = target as i64;
    if inputs.ascend {
        t = t + step;
    }
    if inputs.descend {
        t = t - step;
    }
    clamp_i128(t as i128, MIN_ALTITUDE as i128, MAX_ALTITUDE as i128) as i32
}

/// Filters a pitch or roll command for one frame: accumulate toward `dir`,
/// or decay toward level when `dir` is zero; then clamp to the tilt limit.
pub fn update_tilt(v: i32, dir: i8, dt: u32) -> (r: i32)
    requires
        -1 <= dir <= 1,
    ensures
        r == next_tilt_spec(v as int, dir as int, dt as int),
        -MAX_TILT <= r <= MAX_TILT,
{
    let step: i64 = CONTROL_STRENGTH * dt as i64;
    let moved: i128 = if dir == 0 {
        let decay: i64 = AUTO_LEVEL_STRENGTH * dt as i64;
        let factor: i128 = SCALE as i128 - decay as i128;
        proof {
            lemma_mul_abs_bound(v as int, factor as int, 0x8000_0000, 0x100_0000_0000_0000);
        }
        div_i128(v as i128 * factor, SCALE as i128)
    } else if dir > 0 {
        assert(dir == 1);
        assert(dir as int * CONTROL_STRENGTH * dt == step);
        v as i128 + step as i128
    } else {
        assert(dir == -1);
        assert(dir as int * CONTROL_STRENGTH * dt == -step);
        v as i128 - step as i128
    };
    clamp_i128(moved, -MAX_TILT as i128, MAX_TILT as i128) as i32
}

/// Filters the yaw command for one frame: accumulate toward `dir`
/// (saturating), or multiply by `0.8` when `dir` is zero.
pub fn update_yaw(v: i32, dir: i8, dt: u32) -> (r: i32)
    requires
        -1 <= dir <= 1,
    ensures
        r == next_yaw_spec(v as int, dir as int, dt as int),
{
    if dir == 0 {
        proof {
            lemma_div_toward_zero_bounds(8 * v, 10);
        }
        div_i128(8 * v as i128, 10) as i32
    } else {
        let step: i64 = CONTROL_STRENGTH * dt as i64;
        let moved: i128 = if dir > 0 {
            assert(dir == 1);
        assert(dir as int * CONTROL_STRENGTH * dt == step);
            v as i128 + step as i128
        } else {
            assert(dir == -1);
        assert(dir as int * CONTROL_STRENGTH * dt == -step);
            v as i128 - step as i128
        };
        clamp_i128(moved, i32::MIN as i128, i32::MAX as i128) as i32
    }
}

/// The vertical thrust of the altitude law for the given target, height and
/// vertical velocity.
pub fn throttle(target_altitude: i32, height: i64, vertical_velocity: i64) -> (r: i64)
    ensures
        r == throttle_spec(target_altitude as int, height as int, vertical_velocity as int),
        MIN_THRUST <= r <= MAX_THRUST,
{
    let error: i128 = target_altitude as i128 - height as i128;
    let p: i128 = ALTITUDE_P_GAIN as i128;
    let d: i128 = ALTITUDE_D_GAIN as i128;
    proof {
        lemma_mul_abs_bound(error as int, p as int, 0x1_0000_0000_0000_0000, 15);
        lemma_mul_abs_bound(vertical_velocity as int, d as int, 0x8000_0000_0000_0000, 6);
    }
    let adjustment: i128 = error * p - vertical_velocity as i128 * d;
    clamp_i128(GRAVITY as i128 + adjustment, MIN_THRUST as i128, MAX_THRUST as i128) as i64
}

/// The force for this frame: `throttle` along the body's up direction, plus
/// the gravity compensation `(0, -GRAVITY, 0)`.
pub fn thrust_force(orientation: Quat, throttle: i64) -> (r: Vec3)
    requires
        MIN_THRUST <= throttle <= MAX_THRUST,
    ensures
        r == force_spec(orientation, throttle as int),
{
    let up = up_direction(orientation);
    let t = throttle as i128;
    let s = SCALE as i128;
    let ghost bound: int = 0x10_0000_0000_0000;
    proof {
        assert(-bound <= up.x <= bound && -bound <= up.y <= bound && -bound <= up.z <= bound) by {
            let q = orientation;
            let k: int = 0x8000_0000;
            lemma_mul_abs_bound(q.x as int, q.y as int, k, k);
            lemma_mul_abs_bound(q.w as int, q.z as int, k, k);
            lemma_mul_abs_bound(q.y as int, q.z as int, k, k);
            lemma_mul_abs_bound(q.w as int, q.x as int, k, k);
            lemma_mul_abs_bound(q.w as int, q.w as int, k, k);
            lemma_mul_abs_bound(q.y as int, q.y as int, k, k);
            lemma_mul_abs_bound(q.x as int, q.x as int, k, k);
            lemma_mul_abs_bound(q.z as int, q.z as int, k, k);
            lemma_div_toward_zero_bounds(2 * (q.x * q.y - q.w * q.z), SCALE as int);
            lemma_div_toward_zero_bounds(q.w * q.w + q.y * q.y - q.x * q.x - q.z * q.z, SCALE as int);
            lemma_div_toward_zero_bounds(2 * (q.y * q.z + q.w * q.x), SCALE as int);
        }
        lemma_mul_abs_bound(up.x as int, t as int, bound, MAX_THRUST as int);
        lemma_mul_abs_bound(up.y as int, t as int, bound, MAX_THRUST as int);
        lemma_mul_abs_bound(up.z as int, t as int, bound, MAX_THRUST as int);
        lemma_div_toward_zero_bounds(up.x * t, SCALE as int);
        lemma_div_toward_zero_bounds(up.y * t, SCALE as int);
        lemma_div_toward_zero_bounds(up.z * t, SCALE as int);
    }
    let fx = div_i128(up.x as i128 * t, s);
    let fy = div_i128(up.y as i128 * t, s) - GRAVITY as i128;
    let fz = div_i128(up.z as i128 * t, s);
    Vec3 { x: fx as i64, y: fy as i64, z: fz as i64 }
}

/// One step of `lerp(current, target, 0.7)`, rounded toward zero.
pub fn blend(current: i64, target: i64) -> (r: i64)
    requires
        -0x10_0000_0000 <= target <= 0x10_0000_0000,
    ensures
        r == blend_spec(current as int, target as int),
{
    let a: i128 = 3 * current as i128 + 7 * target as i128;
    proof {
        lemma_div_toward_zero_bounds(a as int, 10);
    }
    div_i128(a, 10) as i64
}

/// Runs the controller for one frame: updates the persistent state from the
/// inputs, then computes the force, the blended angular velocity and the
/// speed-limited linear velocity for the physics engine to apply.
pub fn update(state: &mut ControlState, inputs: FrameInputs, kinematics: KinematicSnapshot) -> (r:
    ControlOutput)
    ensures
        *final(state) == next_state(*old(state), inputs),
        final(state).wf(),
        r == output_spec(*final(state), kinematics),
        length_sq(r.linvel) <= MAX_SPEED * MAX_SPEED,
{
    let target = update_target_altitude(state.target_altitude, inputs);
    let pitch_dir = axis_direction(inputs.pitch_forward, inputs.pitch_back);
    let pitch = update_tilt(state.pitch_input, pitch_dir, inputs.dt);
    let roll_dir = -axis_direction(inputs.roll_left, inputs.roll_right);
    let roll = update_tilt(state.roll_input, roll_dir, inputs.dt);
    let yaw_dir = axis_direction(inputs.yaw_left, inputs.yaw_right);
    let yaw = update_yaw(state.yaw_input, yaw_dir, inputs.dt);
    *state = ControlState { target_altitude: target, pitch_input: pitch, roll_input: roll, yaw_input: yaw };

    let thrust = throttle(target, kinematics.position.y, kinematics.linvel.y);
    let force = thrust_force(kinematics.orientation, thrust);
    let target_x: i64 = -(pitch as i64 * TILT_RATE_GAIN);
    let target_y: i64 = yaw as i64 * YAW_RATE_GAIN;
    let target_z: i64 = -(roll as i64 * TILT_RATE_GAIN);
    let angvel = Vec3 {
        x: blend(kinematics.angvel.x, target_x),
        y: blend(kinematics.angvel.y, target_y),
        z: blend(kinematics.angvel.z, target_z),
    };
    let linvel = limit_speed(kinematics.linvel);
    ControlOutput { force, angvel, linvel }
}

} // verus!
