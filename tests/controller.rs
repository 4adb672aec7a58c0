use drone_flight::controller::{
    throttle, update, ControlOutput, ControlState, FrameInputs, KinematicSnapshot, GRAVITY,
    MAX_ALTITUDE, MAX_TILT, MIN_ALTITUDE,
};
use drone_flight::fixed::ceil_sqrt_u128;
use drone_flight::vector::{limit_speed, up_direction, Quat, Vec3, MAX_SPEED};

const IDENTITY: Quat = Quat { x: 0, y: 0, z: 0, w: 1_000_000 };
const ZERO: Vec3 = Vec3 { x: 0, y: 0, z: 0 };
const FRAME_60HZ: u32 = 16_667;

fn hovering_at(height: i64) -> KinematicSnapshot {
    KinematicSnapshot {
        position: Vec3 { x: 0, y: height, z: 0 },
        orientation: IDENTITY,
        linvel: ZERO,
        angvel: ZERO,
    }
}

fn step(state: &mut ControlState, inputs: FrameInputs) -> ControlOutput {
    update(state, inputs, hovering_at(2_000_000))
}

#[test]
fn saturated_throttle_from_ground() {
    // error 2.0 m, adjustment 30.0, 9.81 + 30.0 clamps to 20.0
    assert_eq!(throttle(2_000_000, 0, 0), 20_000_000);
    let mut state = ControlState::new();
    let out = update(&mut state, FrameInputs::idle(0), hovering_at(0));
    assert_eq!(out.force, Vec3 { x: 0, y: 20_000_000 - GRAVITY, z: 0 });
}

#[test]
fn throttle_in_band_and_floor() {
    assert_eq!(throttle(2_000_000, 2_000_000, 0), 9_810_000);
    assert_eq!(throttle(2_000_000, 2_100_000, 0), 9_810_000 - 1_500_000);
    assert_eq!(throttle(2_000_000, 2_000_000, 500_000), 9_810_000 - 3_000_000);
    assert_eq!(throttle(1_000_000, 9_000_000, 0), 5_000_000);
}

#[test]
fn hover_force_cancels_gravity() {
    let mut state = ControlState::new();
    let out = step(&mut state, FrameInputs::idle(FRAME_60HZ));
    assert_eq!(out.force, ZERO);
}

#[test]
fn holding_pitch_forward_saturates() {
    let mut state = ControlState::new();
    let mut inputs = FrameInputs::idle(FRAME_60HZ);
    inputs.pitch_forward = true;
    let mut saturated_at = None;
    for frame in 0..60 {
        step(&mut state, inputs);
        if state.pitch_input == MAX_TILT && saturated_at.is_none() {
            saturated_at = Some(frame);
        }
    }
    assert_eq!(state.pitch_input, 260_000);
    assert!(saturated_at.unwrap() < 10);
}

#[test]
fn pitch_back_and_roll_directions() {
    let mut state = ControlState::new();
    let mut inputs = FrameInputs::idle(10_000);
    inputs.pitch_back = true;
    inputs.roll_left = true;
    step(&mut state, inputs);
    assert_eq!(state.pitch_input, -40_000);
    assert_eq!(state.roll_input, -40_000);
    let mut inputs = FrameInputs::idle(10_000);
    inputs.pitch_forward = true;
    inputs.pitch_back = true;
    inputs.roll_right = true;
    step(&mut state, inputs);
    assert_eq!(state.pitch_input, 0);
    assert_eq!(state.roll_input, 0);
}

#[test]
fn speed_capped_exactly() {
    let v = Vec3 { x: 5_000_000, y: 0, z: 0 };
    assert_eq!(limit_speed(v), Vec3 { x: 3_000_000, y: 0, z: 0 });
    let mut state = ControlState::new();
    let mut k = hovering_at(2_000_000);
    k.linvel = v;
    let out = update(&mut state, FrameInputs::idle(FRAME_60HZ), k);
    assert_eq!(out.linvel, Vec3 { x: 3_000_000, y: 0, z: 0 });
}

#[test]
fn speed_below_cap_kept() {
    let v = Vec3 { x: 1_000_000, y: -2_000_000, z: 2_000_000 };
    assert_eq!(limit_speed(v), v);
    assert_eq!(limit_speed(ZERO), ZERO);
}

#[test]
fn speed_cap_on_extreme_velocities() {
    for v in [
        Vec3 { x: i64::MAX, y: i64::MIN, z: i64::MAX },
        Vec3 { x: 3_000_001, y: 0, z: 0 },
        Vec3 { x: 1_234_567, y: -9_876_543, z: 4_444_444 },
    ] {
        let r = limit_speed(v);
        let sq = (r.x as i128) * (r.x as i128) + (r.y as i128) * (r.y as i128)
            + (r.z as i128) * (r.z as i128);
        assert!(sq <= (MAX_SPEED as i128) * (MAX_SPEED as i128));
        assert!(r.x.signum() == v.x.signum() || r.x == 0);
    }
    let r = limit_speed(Vec3 { x: 0, y: -6_000_000, z: 8_000_000 });
    assert_eq!(r, Vec3 { x: 0, y: -1_800_000, z: 2_400_000 });
}

#[test]
fn yaw_decays_by_fixed_factor() {
    for dt in [0, FRAME_60HZ, 100_000] {
        let mut state = ControlState::new();
        state.yaw_input = 500_000;
        step(&mut state, FrameInputs::idle(dt));
        assert_eq!(state.yaw_input, 400_000);
    }
}

#[test]
fn yaw_accumulates_without_clamp() {
    let mut state = ControlState::new();
    let mut inputs = FrameInputs::idle(1_000_000);
    inputs.yaw_left = true;
    step(&mut state, inputs);
    step(&mut state, inputs);
    assert_eq!(state.yaw_input, 8_000_000);
    let mut inputs = FrameInputs::idle(1_000_000);
    inputs.yaw_right = true;
    step(&mut state, inputs);
    assert_eq!(state.yaw_input, 4_000_000);
}

#[test]
fn auto_level_decays_toward_zero() {
    let mut state = ControlState::new();
    state.pitch_input = 200_000;
    state.roll_input = -200_000;
    let mut last = (state.pitch_input, state.roll_input);
    for _ in 0..10 {
        step(&mut state, FrameInputs::idle(FRAME_60HZ));
        assert!(state.pitch_input >= 0 && state.pitch_input < last.0);
        assert!(state.roll_input <= 0 && state.roll_input > last.1);
        last = (state.pitch_input, state.roll_input);
    }
    let mut state = ControlState::new();
    state.pitch_input = 100_000;
    step(&mut state, FrameInputs::idle(10_000));
    // factor 1 - 20 * 0.01 = 0.8
    assert_eq!(state.pitch_input, 80_000);
}

#[test]
fn target_altitude_stays_in_band() {
    let mut state = ControlState::new();
    let mut up = FrameInputs::idle(FRAME_60HZ);
    up.ascend = true;
    for _ in 0..1000 {
        step(&mut state, up);
        assert!(state.target_altitude >= MIN_ALTITUDE && state.target_altitude <= MAX_ALTITUDE);
    }
    assert_eq!(state.target_altitude, 10_000_000);
    let mut down = FrameInputs::idle(FRAME_60HZ);
    down.descend = true;
    for _ in 0..1000 {
        step(&mut state, down);
    }
    assert_eq!(state.target_altitude, 1_000_000);
    let mut state = ControlState { target_altitude: i32::MAX, pitch_input: 0, roll_input: 0, yaw_input: 0 };
    step(&mut state, FrameInputs::idle(0));
    assert_eq!(state.target_altitude, 10_000_000);
    let mut both = FrameInputs::idle(500_000);
    both.ascend = true;
    both.descend = true;
    let mut state = ControlState::new();
    step(&mut state, both);
    assert_eq!(state.target_altitude, 2_000_000);
    let mut up = FrameInputs::idle(500_000);
    up.ascend = true;
    step(&mut state, up);
    assert_eq!(state.target_altitude, 4_000_000);
}

#[test]
fn tilt_clamped_from_any_prior_value() {
    let mut state = ControlState { target_altitude: 2_000_000, pitch_input: i32::MAX, roll_input: i32::MIN, yaw_input: 0 };
    let mut inputs = FrameInputs::idle(u32::MAX);
    inputs.pitch_forward = true;
    inputs.roll_left = true;
    step(&mut state, inputs);
    assert_eq!(state.pitch_input, MAX_TILT);
    assert_eq!(state.roll_input, -MAX_TILT);
}

#[test]
fn zero_frame_leaves_settled_state() {
    let mut state = ControlState { target_altitude: 3_000_000, pitch_input: 123_456, roll_input: -77_000, yaw_input: 0 };
    let before = state;
    let k = hovering_at(2_500_000);
    let first = update(&mut state, FrameInputs::idle(0), k);
    assert_eq!(state, before);
    let second = update(&mut state, FrameInputs::idle(0), k);
    assert_eq!(state, before);
    assert_eq!(first, second);
}

#[test]
fn angular_velocity_blends_toward_target() {
    let mut state = ControlState { target_altitude: 2_000_000, pitch_input: 100_000, roll_input: -50_000, yaw_input: 1_000_000 };
    let mut k = hovering_at(2_000_000);
    k.angvel = Vec3 { x: 1_000_000, y: 0, z: -1_000_000 };
    let out = update(&mut state, FrameInputs::idle(0), k);
    // yaw decays to 0.8 first; targets (-0.8, 2.4, 0.4)
    assert_eq!(out.angvel, Vec3 { x: 300_000 - 560_000, y: 1_680_000, z: -300_000 + 280_000 });
}

#[test]
fn up_direction_of_rotations() {
    assert_eq!(up_direction(IDENTITY), Vec3 { x: 0, y: 1_000_000, z: 0 });
    // a half turn about x turns up into down
    assert_eq!(up_direction(Quat { x: 1_000_000, y: 0, z: 0, w: 0 }), Vec3 { x: 0, y: -1_000_000, z: 0 });
    // a quarter turn about z (w = x = sqrt(0.5)) tips up toward -x
    let r = up_direction(Quat { x: 0, y: 0, z: 707_107, w: 707_107 });
    assert_eq!(r, Vec3 { x: -1_000_000, y: 0, z: 0 });
}

#[test]
fn tilted_thrust_keeps_gravity_term() {
    let mut state = ControlState::new();
    let mut k = hovering_at(2_000_000);
    k.orientation = Quat { x: 0, y: 0, z: 707_107, w: 707_107 };
    let out = update(&mut state, FrameInputs::idle(FRAME_60HZ), k);
    assert_eq!(out.force, Vec3 { x: -9_810_000, y: -9_810_000, z: 0 });
}

#[test]
fn ceil_sqrt_values() {
    assert_eq!(ceil_sqrt_u128(0), 0);
    assert_eq!(ceil_sqrt_u128(1), 1);
    assert_eq!(ceil_sqrt_u128(2), 2);
    assert_eq!(ceil_sqrt_u128(25_000_000_000_000), 5_000_000);
    assert_eq!(ceil_sqrt_u128(25_000_000_000_001), 5_000_001);
}
