//! Car-side logic: the homing state machine, the integer PID controller and
//! the dual-motor duty mapping.
//!
//! The control tick is pure from state, latest offset and controller state
//! to the pair of motor commands; the timer that drives it, the hardware
//! that consumes the commands and the thread that feeds the offset live
//! outside the crate. All arithmetic is over fixed-width integers: gains
//! and limits are whole numbers, and the controller's output is scaled to
//! the duty range by the fixed denominator below.

use vstd::prelude::*;

verus! {

/// Denominator of the output-to-duty scaling: a controller output `o` with
/// maximum duty `D` commands the duty `o * D / 1000`, so the output limit
/// and the duty scale stay deliberately asymmetric.
pub const DUTY_SCALE_DENOM: u64 = 1000;

/// A hardware pairing that cannot be driven safely; fatal at startup.
#[derive(Clone, Copy, Debug, PartialEq, Eq, Structural)]
pub enum ConfigError {
    /// The two channels of a motor pair, or the two motor pairs, report
    /// different maximum duty values.
    MaxDutyMismatch,
}

/// Lifecycle of the car.
#[derive(Clone, Copy, Debug, PartialEq, Eq, Structural)]
pub enum CarState {
    /// Motors held at zero; waiting for the first control data.
    Init,
    /// Closed-loop homing on the received offset.
    ForwardToLine,
    /// Terminal: motors forced to zero.
    Done,
}

/// The state after the receive path has seen control data: leaves `Init`
/// for `ForwardToLine`, touches nothing else.
pub open spec fn after_control_data(s: CarState) -> CarState {
    if s == CarState::Init {
        CarState::ForwardToLine
    } else {
        s
    }
}

/// The transition the receive path attempts on each received value. The
/// caller applies it with a compare-and-exchange on the shared state
/// holder, so that concurrent attempts advance the state at most once;
/// losing that race is not an error.
pub fn on_control_data(s: CarState) -> (r: CarState)
    ensures
        r == after_control_data(s),
{
    match s {
        CarState::Init => CarState::ForwardToLine,
        CarState::ForwardToLine => CarState::ForwardToLine,
        CarState::Done => CarState::Done,
    }
}

/// Law: the `Init` to `ForwardToLine` transition is one-shot. From `Init`
/// it happens; from any other state nothing moves; applying the transition
/// again changes nothing; and no sequence of attempts ever returns to
/// `Init`.
pub proof fn lemma_transition_once(s: CarState)
    ensures
        after_control_data(CarState::Init) == CarState::ForwardToLine,
        s != CarState::Init ==> after_control_data(s) == s,
        after_control_data(after_control_data(s)) == after_control_data(s),
        after_control_data(s) != CarState::Init,
{
}

/// Magnitude of an integer.
pub open spec fn abs_of(v: int) -> int {
    if v >= 0 {
        v
    } else {
        -v
    }
}

/// A value clamped to the symmetric range `[-limit, limit]`.
pub open spec fn clamped(v: int, limit: int) -> int
    recommends
        0 <= limit,
{
    if v > limit {
        limit
    } else if v < -limit {
        -limit
    } else {
        v
    }
}

/// Bounds of a product follow bounds of its factors.
proof fn lemma_mul_bound(a: int, b: int, aa: int, bb: int)
    by (nonlinear_arith)
    requires
        0 <= aa,
        0 <= bb,
        -aa <= a <= aa,
        -bb <= b <= bb,
    ensures
        -(aa * bb) <= a * b <= aa * bb,
{
}

/// Clamps a wide intermediate to a narrow symmetric limit.
fn clamp_to_limit(v: i128, limit: i64) -> (r: i64)
    requires
        0 <= limit,
    ensures
        r as int == clamped(v as int, limit as int),
        -limit <= r <= limit,
{
    if v > limit as i128 {
        limit
    } else if v < -(limit as i128) {
        -limit
    } else {
        v as i64
    }
}

/// Proportional-integral-derivative controller over integers.
///
/// Gains and limits are whole numbers; each term is clamped to its own
/// limit and the sum to the output limit, which the deployed configuration
/// keeps deliberately apart (term limits of 100 against an output limit of
/// 1000, matching the duty scale's denominator). The error
/// is taken as `measurement - setpoint`, so a positive offset commands a
/// positive output: the duty's sign follows the side the signal source is
/// biased toward.
#[derive(Clone, Copy, Debug, PartialEq, Eq, Structural)]
pub struct PidController {
    pub kp: i64,
    pub ki: i64,
    pub kd: i64,
    pub p_limit: i64,
    pub i_limit: i64,
    pub d_limit: i64,
    pub output_limit: i64,
    pub setpoint: i64,
    /// Accumulated, already-clamped integral term.
    pub integral: i64,
    /// Measurement of the previous tick, if any; the derivative of the
    /// first tick is zero.
    pub prev_measurement: Option<i64>,
}

impl PidController {
    pub open spec fn wf(self) -> bool {
        &&& 0 <= self.p_limit
        &&& 0 <= self.i_limit
        &&& 0 <= self.d_limit
        &&& 0 <= self.output_limit
        &&& -self.i_limit <= self.integral <= self.i_limit
    }

    /// The control error for a measurement.
    pub open spec fn error_of(self, m: int) -> int {
        m - self.setpoint
    }

    /// Clamped proportional term.
    pub open spec fn p_term(self, m: int) -> int {
        clamped(self.kp * self.error_of(m), self.p_limit as int)
    }

    /// Integral accumulator after a measurement, clamped to its limit.
    pub open spec fn next_integral(self, m: int) -> int {
        clamped(self.integral + self.ki * self.error_of(m), self.i_limit as int)
    }

    /// Clamped derivative term, taken on the measurement; zero on the first
    /// tick.
    pub open spec fn d_term(self, m: int) -> int {
        match self.prev_measurement {
            Option::None => 0,
            Option::Some(pm) => clamped(self.kd * (m - pm), self.d_limit as int),
        }
    }

    /// The controller's output for a measurement: the clamped sum of the
    /// three clamped terms.
    pub open spec fn output_of(self, m: int) -> int {
        clamped(self.p_term(m) + self.next_integral(m) + self.d_term(m), self.output_limit as int)
    }

    /// A fresh controller, argument order as the configuration reads: the
    /// three gains, the three term limits, the output limit, the setpoint.
    pub fn new(kp: i64, ki: i64, kd: i64, p_limit: i64, i_limit: i64, d_limit: i64,
        output_limit: i64, setpoint: i64) -> (r: Self)
        requires
            0 <= p_limit,
            0 <= i_limit,
            0 <= d_limit,
            0 <= output_limit,
        ensures
            r.wf(),
            r == (PidController {
                kp,
                ki,
                kd,
                p_limit,
                i_limit,
                d_limit,
                output_limit,
                setpoint,
                integral: 0,
                prev_measurement: Option::None,
            }),
    {
        PidController {
            kp,
            ki,
            kd,
            p_limit,
            i_limit,
            d_limit,
            output_limit,
            setpoint,
            integral: 0,
            prev_measurement: Option::None,
        }
    }

    /// One control tick: returns the clamped output for the measurement,
    /// accumulates the integral and remembers the measurement for the next
    /// derivative. Gains, limits and setpoint never change.
    pub fn next_control_output(&mut self, measurement: i64) -> (r: i64)
        requires
            old(self).wf(),
        ensures
            final(self).wf(),
            r as int == old(self).output_of(measurement as int),
            -old(self).output_limit <= r <= old(self).output_limit,
            *final(self) == (PidController {
                integral: final(self).integral,
                prev_measurement: Option::Some(measurement),
                ..*old(self)
            }),
            final(self).integral as int == old(self).next_integral(measurement as int),
    {
        let e: i128 = measurement as i128 - self.setpoint as i128;
        proof {
            lemma_mul_bound(self.kp as int, e as int, 0x8000_0000_0000_0000,
                0xffff_ffff_ffff_ffff);
            lemma_mul_bound(self.ki as int, e as int, 0x8000_0000_0000_0000,
                0xffff_ffff_ffff_ffff);
        }
        let p: i64 = clamp_to_limit((self.kp as i128) * e, self.p_limit);
        let next_integral: i64 = clamp_to_limit(
            (self.integral as i128) + (self.ki as i128) * e, self.i_limit);
        let d: i64 = match self.prev_measurement {
            Option::None => 0,
            Option::Some(pm) => {
                let de: i128 = measurement as i128 - pm as i128;
                proof {
                    lemma_mul_bound(self.kd as int, de as int, 0x8000_0000_0000_0000,
                        0xffff_ffff_ffff_ffff);
                }
                clamp_to_limit((self.kd as i128) * de, self.d_limit)
            },
        };
        let out: i64 = clamp_to_limit((p as i128) + (next_integral as i128) + (d as i128),
            self.output_limit);
        self.integral = next_integral;
        self.prev_measurement = Option::Some(measurement);
        out
    }
}

/// The signed duty a controller output commands: the output's magnitude
/// scaled into the duty range by `DUTY_SCALE_DENOM`, capped at the maximum
/// duty, carrying the output's sign.
pub open spec fn scaled_duty(output: int, max_duty: int) -> int
    recommends
        0 <= max_duty,
{
    let mag = abs_of(output) * max_duty / (DUTY_SCALE_DENOM as int);
    let capped = if mag > max_duty {
        max_duty
    } else {
        mag
    };
    if output >= 0 {
        capped
    } else {
        -capped
    }
}

/// Scales a controller output into a signed duty command for hardware with
/// the given maximum duty.
pub fn duty_from_output(output: i64, max_duty: u32) -> (d: i64)
    ensures
        d as int == scaled_duty(output as int, max_duty as int),
        -(max_duty as i64) <= d <= max_duty as i64,
{
    let mag: u128 = if output >= 0 {
        output as u128
    } else {
        (-(output as i128)) as u128
    };
    proof {
        lemma_mul_bound(mag as int, max_duty as int, 0x8000_0000_0000_0000, 0xffff_ffff);
    }
    let scaled: u128 = mag * (max_duty as u128) / (DUTY_SCALE_DENOM as u128);
    let capped: u32 = if scaled > max_duty as u128 {
        max_duty
    } else {
        scaled as u32
    };
    if output >= 0 {
        capped as i64
    } else {
        -(capped as i64)
    }
}

/// Positive-drive channel's share of a signed duty command.
pub open spec fn split_positive(duty: int) -> int {
    if duty > 0 {
        duty
    } else {
        0
    }
}

/// Negative-drive channel's share of a signed duty command.
pub open spec fn split_negative(duty: int) -> int {
    if duty > 0 {
        0
    } else {
        -duty
    }
}

/// Law: for every nonzero signed command within the duty range, exactly one
/// channel of the pair is driven, and the driven channel carries the
/// command's full magnitude (which, under the range bound, is its own
/// minimum with the maximum duty). A zero command drives neither channel.
pub proof fn lemma_duty_split(u: int, d: int)
    requires
        -d <= u <= d,
        u != 0,
    ensures
        (split_positive(u) == 0) != (split_negative(u) == 0),
        split_positive(u) + split_negative(u) == abs_of(u),
        abs_of(u) <= d,
{
}

/// The pair of PWM duty values commanded on one motor's positive/negative
/// channel pair.
#[derive(Clone, Copy, Debug, PartialEq, Eq, Structural)]
pub struct MotorCommand {
    pub positive: u32,
    pub negative: u32,
}

/// One motor: a positive-drive and a negative-drive PWM channel sharing one
/// timer, validated at startup to report the same maximum duty.
#[derive(Clone, Copy, Debug, PartialEq, Eq, Structural)]
pub struct MotorPair {
    pub max_duty: u32,
}

impl MotorPair {
    /// Validates one motor's channel pairing: the two channels must report
    /// the same maximum duty; a mismatch is a configuration error, fatal at
    /// startup.
    pub fn new(positive_max: u32, negative_max: u32) -> (r: Result<Self, ConfigError>)
        ensures
            r is Ok <==> positive_max == negative_max,
            r is Ok ==> r->Ok_0.max_duty == positive_max,
            r is Err ==> r->Err_0 == ConfigError::MaxDutyMismatch,
    {
        if positive_max == negative_max {
            Ok(MotorPair { max_duty: positive_max })
        } else {
            Err(ConfigError::MaxDutyMismatch)
        }
    }

    /// The common maximum duty of the validated channel pair.
    pub fn get_max_duty_unsigned(&self) -> (r: u32)
        ensures
            r == self.max_duty,
    {
        self.max_duty
    }

    /// The channel commands realizing a signed duty: the positive channel
    /// carries a positive command, the negative channel the magnitude of a
    /// non-positive one, the other channel is held at zero.
    pub fn set_duty(&self, duty: i64) -> (r: MotorCommand)
        requires
            -(self.max_duty as i64) <= duty <= self.max_duty as i64,
        ensures
            r.positive as int == split_positive(duty as int),
            r.negative as int == split_negative(duty as int),
    {
        if duty > 0 {
            MotorCommand { positive: duty as u32, negative: 0 }
        } else {
            MotorCommand { positive: 0, negative: (-duty) as u32 }
        }
    }
}

/// The car's two motors, validated at startup to share one maximum duty and
/// always driven with identical commands.
#[derive(Clone, Copy, Debug, PartialEq, Eq, Structural)]
pub struct CarHardware {
    pub engine1: MotorPair,
    pub engine2: MotorPair,
}

impl CarHardware {
    pub open spec fn wf(self) -> bool {
        self.engine1.max_duty == self.engine2.max_duty
    }

    /// Validates the two motors against each other: mismatched maximum
    /// duties are a configuration error, fatal at startup.
    pub fn new(engine1: MotorPair, engine2: MotorPair) -> (r: Result<Self, ConfigError>)
        ensures
            r is Ok <==> engine1.max_duty == engine2.max_duty,
            r is Ok ==> r->Ok_0 == (CarHardware { engine1, engine2 }) && r->Ok_0.wf(),
            r is Err ==> r->Err_0 == ConfigError::MaxDutyMismatch,
    {
        if engine1.max_duty == engine2.max_duty {
            Ok(CarHardware { engine1, engine2 })
        } else {
            Err(ConfigError::MaxDutyMismatch)
        }
    }

    /// The common maximum duty of both motors.
    pub fn get_max_duty_unsigned(&self) -> (r: u32)
        requires
            self.wf(),
        ensures
            r == self.engine1.max_duty,
    {
        self.engine1.get_max_duty_unsigned()
    }

    /// The commands driving both motors with one signed duty: both pairs
    /// receive the identical command.
    pub fn set_duty_same(&self, duty: i64) -> (r: (MotorCommand, MotorCommand))
        requires
            self.wf(),
            -(self.engine1.max_duty as i64) <= duty <= self.engine1.max_duty as i64,
        ensures
            r.0 == r.1,
            r.0.positive as int == split_positive(duty as int),
            r.0.negative as int == split_negative(duty as int),
    {
        (self.engine1.set_duty(duty), self.engine2.set_duty(duty))
    }
}

/// The duty one homing tick commands, given the controller state before the
/// tick and the latest offset.
pub open spec fn tick_duty(pid: PidController, offset: int, max_duty: int) -> int {
    scaled_duty(pid.output_of(offset), max_duty)
}

/// One control tick: in `Init` and `Done` both motors are held at zero and
/// the controller is untouched; in `ForwardToLine` the latest offset is fed
/// to the controller against its setpoint and the scaled output drives both
/// motors identically.
pub fn control_tick(state: CarState, offset: i64, pid: &mut PidController,
    hardware: &CarHardware) -> (r: (MotorCommand, MotorCommand))
    requires
        old(pid).wf(),
        hardware.wf(),
    ensures
        final(pid).wf(),
        r.0 == r.1,
        state != CarState::ForwardToLine ==> r.0 == (MotorCommand { positive: 0, negative: 0 })
            && *final(pid) == *old(pid),
        state == CarState::ForwardToLine ==> {
            let duty = tick_duty(*old(pid), offset as int, hardware.engine1.max_duty as int);
            &&& r.0.positive as int == split_positive(duty)
            &&& r.0.negative as int == split_negative(duty)
            &&& final(pid).integral as int == old(pid).next_integral(offset as int)
            &&& final(pid).prev_measurement == Option::Some(offset)
            &&& *final(pid) == (PidController {
                integral: final(pid).integral,
                prev_measurement: Option::Some(offset),
                ..*old(pid)
            })
        },
{
    match state {
        CarState::ForwardToLine => {
            let output = pid.next_control_output(offset);
            let duty = duty_from_output(output, hardware.engine1.max_duty);
            hardware.set_duty_same(duty)
        },
        _ => hardware.set_duty_same(0),
    }
}

} // verus!
