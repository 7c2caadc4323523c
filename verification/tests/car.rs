use acoustic_homing::car::control_tick;
use acoustic_homing::car::duty_from_output;
use acoustic_homing::car::on_control_data;
use acoustic_homing::car::CarHardware;
use acoustic_homing::car::CarState;
use acoustic_homing::car::ConfigError;
use acoustic_homing::car::MotorCommand;
use acoustic_homing::car::MotorPair;
use acoustic_homing::car::PidController;
use acoustic_homing::common::ControlData;

fn homing_pid() -> PidController {
    // The configuration the car runs with: Kp=10, Ki=0, Kd=0, term limits
    // 100, output limit 1000, setpoint 0.
    PidController::new(10, 0, 0, 100, 100, 100, 1000, 0)
}

fn homing_hardware() -> CarHardware {
    let engine1 = MotorPair::new(1000, 1000).expect("matched channels");
    let engine2 = MotorPair::new(1000, 1000).expect("matched channels");
    CarHardware::new(engine1, engine2).expect("matched motors")
}

#[test]
fn transition_fires_once() {
    let s = on_control_data(CarState::Init);
    assert_eq!(s, CarState::ForwardToLine);
    // Further control data leaves the state alone.
    assert_eq!(on_control_data(s), CarState::ForwardToLine);
    // Done is terminal.
    assert_eq!(on_control_data(CarState::Done), CarState::Done);
}

#[test]
fn proportional_output_is_clamped() {
    let mut pid = homing_pid();
    // Kp * 250 = 2500, clamped to the 100 term limit.
    assert_eq!(pid.next_control_output(250), 100);
    // Negative offset mirrors the sign.
    let mut pid = homing_pid();
    assert_eq!(pid.next_control_output(-250), -100);
    // Small offsets pass unclamped: Kp * 5 = 50.
    let mut pid = homing_pid();
    assert_eq!(pid.next_control_output(5), 50);
}

#[test]
fn integral_accumulates_and_saturates() {
    let mut pid = PidController::new(0, 3, 0, 100, 100, 100, 1000, 0);
    assert_eq!(pid.next_control_output(10), 30);
    assert_eq!(pid.integral, 30);
    assert_eq!(pid.next_control_output(10), 60);
    assert_eq!(pid.next_control_output(10), 90);
    // The accumulator saturates at the integral limit.
    assert_eq!(pid.next_control_output(10), 100);
    assert_eq!(pid.integral, 100);
    assert_eq!(pid.next_control_output(10), 100);
}

#[test]
fn derivative_is_zero_on_first_tick() {
    let mut pid = PidController::new(0, 0, 2, 100, 100, 100, 1000, 0);
    assert_eq!(pid.next_control_output(40), 0);
    // Next tick sees the measurement move by +10: Kd * 10 = 20.
    assert_eq!(pid.next_control_output(50), 20);
    // A falling measurement gives a negative derivative.
    assert_eq!(pid.next_control_output(20), -60);
}

#[test]
fn output_sums_terms_under_output_limit() {
    let mut pid = PidController::new(4, 3, 0, 100, 100, 100, 1000, 0);
    // p = 4*10 = 40, i = 3*10 = 30, output = 70.
    assert_eq!(pid.next_control_output(10), 70);
}

#[test]
fn duty_scaling_and_cap() {
    // Output 100 of max duty 1000: 100 * 1000 / 1000 = 100.
    assert_eq!(duty_from_output(100, 1000), 100);
    assert_eq!(duty_from_output(-100, 1000), -100);
    assert_eq!(duty_from_output(0, 1000), 0);
    // Truncating division: 55 * 64 / 1000 = 3.
    assert_eq!(duty_from_output(55, 64), 3);
    // An oversized output is capped at the maximum duty.
    assert_eq!(duty_from_output(5000, 1000), 1000);
    assert_eq!(duty_from_output(-5000, 1000), -1000);
}

#[test]
fn motor_pair_rejects_mismatched_channels() {
    assert_eq!(MotorPair::new(1000, 999).unwrap_err(), ConfigError::MaxDutyMismatch);
    let pair = MotorPair::new(1000, 1000).unwrap();
    assert_eq!(pair.get_max_duty_unsigned(), 1000);
}

#[test]
fn car_hardware_rejects_mismatched_motors() {
    let engine1 = MotorPair::new(1000, 1000).unwrap();
    let engine2 = MotorPair::new(500, 500).unwrap();
    assert_eq!(CarHardware::new(engine1, engine2).unwrap_err(), ConfigError::MaxDutyMismatch);
    let hw = homing_hardware();
    assert_eq!(hw.get_max_duty_unsigned(), 1000);
}

#[test]
fn duty_split_drives_one_channel() {
    let pair = MotorPair::new(1000, 1000).unwrap();
    assert_eq!(pair.set_duty(75), MotorCommand { positive: 75, negative: 0 });
    assert_eq!(pair.set_duty(-75), MotorCommand { positive: 0, negative: 75 });
    assert_eq!(pair.set_duty(0), MotorCommand { positive: 0, negative: 0 });
}

#[test]
fn both_motors_get_identical_commands() {
    let hw = homing_hardware();
    let (m1, m2) = hw.set_duty_same(420);
    assert_eq!(m1, m2);
    assert_eq!(m1, MotorCommand { positive: 420, negative: 0 });
    let (m1, m2) = hw.set_duty_same(-7);
    assert_eq!(m1, m2);
    assert_eq!(m1, MotorCommand { positive: 0, negative: 7 });
}

#[test]
fn tick_holds_motors_outside_homing() {
    let mut pid = homing_pid();
    let hw = homing_hardware();
    let zero = MotorCommand { positive: 0, negative: 0 };
    assert_eq!(control_tick(CarState::Init, 250, &mut pid, &hw), (zero, zero));
    assert_eq!(control_tick(CarState::Done, 250, &mut pid, &hw), (zero, zero));
    // The controller was never ticked.
    assert_eq!(pid.prev_measurement, None);
}

#[test]
fn scenario_c_homing_tick_from_received_frame() {
    // A published ControlData { offset: 250 } arrives as raw bytes.
    let frame = ControlData { offset: 250 }.to_slice();
    let received = ControlData::from_slice(frame.as_slice());
    assert_eq!(received.offset, 250);

    let mut pid = homing_pid();
    let hw = homing_hardware();
    let (m1, m2) = control_tick(CarState::ForwardToLine, received.offset, &mut pid, &hw);
    // Kp * 250 clamped to 100; 100 / 1000 of the 1000 max duty is 100.
    assert_eq!(m1, MotorCommand { positive: 100, negative: 0 });
    assert_eq!(m2, m1);
}
