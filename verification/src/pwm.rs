//! The steering actuator: a PID controller over the heading error with a
//! deadband, a limit on how fast the commanded angle may move, and the
//! mapping from angle to servo pulse.

use vstd::prelude::*;
use crate::angle::{
    clamp, clamp_to, div_to_zero, divide_to_zero, heading_error, heading_error_of,
    lemma_div_to_zero_ordered, magnitude,
};
use crate::config::{SteeringConfig, PPB, SERVO_PWM_PIN};
use crate::error::HardwareError;
use crate::mocks::mock_pwm::Pwm;

verus! {

/// Scale of the gains: a gain of `GAIN_SCALE` multiplies by one.
pub const GAIN_SCALE: i32 = 1_000;

/// Milliseconds in a second.
pub const MS_PER_S: i32 = 1_000;

/// A hardware PWM channel.
#[derive(Clone, Copy, Debug, PartialEq, Eq, Structural)]
pub enum PwmChannel {
    Pwm0,
    Pwm1,
}

/// The channel that drives `pin`: pins 12 and 18 are on the first channel,
/// 13 and 19 on the second, and no other pin has one.
pub open spec fn channel_of(pin: u8) -> Option<PwmChannel> {
    if pin == 12 || pin == 18 {
        Some(PwmChannel::Pwm0)
    } else if pin == 13 || pin == 19 {
        Some(PwmChannel::Pwm1)
    } else {
        None
    }
}

/// Finds the channel that drives `pin`.
pub fn pwm_channel(pin: u8) -> (r: Option<PwmChannel>)
    ensures
        r == channel_of(pin),
{
    match pin {
        12 | 18 => Some(PwmChannel::Pwm0),
        13 | 19 => Some(PwmChannel::Pwm1),
        _ => None,
    }
}

/// Whether an error is too small to correct.
pub open spec fn in_deadband(config: SteeringConfig, error: int) -> bool {
    magnitude(error) < config.deadband
}

/// The accumulator after one cycle: the error times the elapsed time is
/// added; the sum stops at the ends of the 64-bit range.
pub open spec fn integral_after(integral: int, error: int, dt_ms: int) -> int {
    clamp_to(integral + error * dt_ms, i64::MIN as int, i64::MAX as int)
}

/// The proportional term.
pub open spec fn p_term(config: SteeringConfig, error: int) -> int {
    div_to_zero(config.kp * error, GAIN_SCALE as int)
}

/// The integral term, for an accumulator in millidegree-milliseconds.
pub open spec fn i_term(config: SteeringConfig, integral: int) -> int {
    div_to_zero(config.ki * integral, GAIN_SCALE as int * MS_PER_S as int)
}

/// The derivative term; zero while no time has elapsed.
pub open spec fn d_term(config: SteeringConfig, error: int, last_error: int, dt_ms: int) -> int {
    if dt_ms <= 0 {
        0
    } else {
        div_to_zero(config.kd * (error - last_error), dt_ms)
    }
}

/// The furthest the angle may move in `dt_ms` milliseconds.
pub open spec fn max_step(config: SteeringConfig, dt_ms: int) -> int {
    (config.max_rate * dt_ms) / (MS_PER_S as int)
}

/// The angle that is applied when the servo stands at `current` and
/// `desired` is asked for: `desired` itself where it is within `step`, else
/// `current` moved by `step` towards it.
pub open spec fn rate_limited(current: int, desired: int, step: int) -> int {
    if desired - current > step {
        current + step
    } else if current - desired > step {
        current - step
    } else {
        desired
    }
}

/// The pulse width for an angle: the angle is held to the servo's range and
/// mapped linearly, the centre pulse at angle zero and the longest pulse at
/// the largest angle; the result is held to the servo's pulse range.
pub open spec fn pulse_width(config: SteeringConfig, angle: int) -> int {
    let held = clamp_to(angle, -config.max_angle as int, config.max_angle as int);
    let swing = config.max_pulse_ns - config.center_pulse_ns;
    clamp_to(
        config.center_pulse_ns + div_to_zero(held * swing, config.max_angle as int),
        config.min_pulse_ns as int,
        config.max_pulse_ns as int,
    )
}

/// The duty cycle of a pulse, in parts per billion of the period.
pub open spec fn duty_cycle(config: SteeringConfig, pulse_ns: int) -> int {
    pulse_ns * config.frequency_hz
}

/// The actuator as plain values: the accumulator of the integral term, the
/// error of the last corrected cycle, the angle commanded last, and the
/// output: its duty cycle and whether it is switched on.
pub struct Actuator {
    pub integral: int,
    pub last_error: int,
    pub angle: int,
    pub duty_ppb: int,
    pub enabled: bool,
}

impl Actuator {
    /// A fresh actuator: at the centre, with nothing accumulated.
    pub open spec fn initial(config: SteeringConfig) -> Actuator {
        Actuator {
            integral: 0,
            last_error: 0,
            angle: 0,
            duty_ppb: duty_cycle(config, pulse_width(config, 0)),
            enabled: true,
        }
    }

    /// The correction for one cycle: zero inside the deadband, else the sum
    /// of the three terms held to the servo's range.
    pub open spec fn correction(
        self,
        config: SteeringConfig,
        target: int,
        current: int,
        dt_ms: int,
    ) -> int {
        let error = heading_error_of(target, current);
        if in_deadband(config, error) {
            0
        } else {
            clamp_to(
                p_term(config, error) + i_term(
                    config,
                    integral_after(self.integral, error, dt_ms),
                ) + d_term(config, error, self.last_error, dt_ms),
                -config.max_angle as int,
                config.max_angle as int,
            )
        }
    }

    /// The actuator after the correction of one cycle was computed: inside
    /// the deadband nothing changes; else the accumulator and the last
    /// error move on.
    pub open spec fn corrected(
        self,
        config: SteeringConfig,
        target: int,
        current: int,
        dt_ms: int,
    ) -> Actuator {
        let error = heading_error_of(target, current);
        if in_deadband(config, error) {
            self
        } else {
            Actuator {
                integral: integral_after(self.integral, error, dt_ms),
                last_error: error,
                ..self
            }
        }
    }

    /// The actuator after `angle` was commanded.
    pub open spec fn pointed(self, config: SteeringConfig, angle: int) -> Actuator {
        Actuator {
            angle: clamp_to(angle, -config.max_angle as int, config.max_angle as int),
            duty_ppb: duty_cycle(config, pulse_width(config, angle)),
            ..self
        }
    }

    /// The angle that one cycle of automatic steering applies.
    pub open spec fn steer_angle(
        self,
        config: SteeringConfig,
        target: int,
        current: int,
        dt_ms: int,
    ) -> int {
        rate_limited(
            self.angle,
            self.correction(config, target, current, dt_ms),
            max_step(config, dt_ms),
        )
    }

    /// The actuator after one cycle of automatic steering.
    pub open spec fn steered(
        self,
        config: SteeringConfig,
        target: int,
        current: int,
        dt_ms: int,
    ) -> Actuator {
        self.corrected(config, target, current, dt_ms).pointed(
            config,
            self.steer_angle(config, target, current, dt_ms),
        )
    }
}

/// The controller with its output channel.
#[derive(Clone, Copy, Debug)]
pub struct ServoController {
    pwm: Pwm,
    config: SteeringConfig,
    integral: i64,
    last_error: i64,
    current_angle: i32,
}

impl View for ServoController {
    type V = Actuator;

    closed spec fn view(&self) -> Actuator {
        Actuator {
            integral: self.integral as int,
            last_error: self.last_error as int,
            angle: self.current_angle as int,
            duty_ppb: self.pwm.duty() as int,
            enabled: self.pwm.enabled(),
        }
    }
}

/// The product of two 64-bit numbers, exact.
fn mul_wide(a: i64, b: i64) -> (r: i128)
    ensures
        r == a * b,
        -0x4000_0000_0000_0000_0000_0000_0000_0000 <= r <= 0x4000_0000_0000_0000_0000_0000_0000_0000,
{
    assert(-0x4000_0000_0000_0000_0000_0000_0000_0000 <= a * b
        <= 0x4000_0000_0000_0000_0000_0000_0000_0000) by (nonlinear_arith)
        requires
            -0x8000_0000_0000_0000 <= a <= 0x8000_0000_0000_0000,
            -0x8000_0000_0000_0000 <= b <= 0x8000_0000_0000_0000,
    ;
    a as i128 * b as i128
}

/// The product of a 32-bit gain and a difference of two 64-bit numbers,
/// exact.
fn mul_gain(gain: i32, value: i128) -> (r: i128)
    requires
        -0x1_0000_0000_0000_0000 <= value <= 0x1_0000_0000_0000_0000,
    ensures
        r == gain * value,
        -0x1_0000_0000_0000_0000_0000_0000 <= r <= 0x1_0000_0000_0000_0000_0000_0000,
{
    assert(-0x1_0000_0000_0000_0000_0000_0000 <= gain * value <= 0x1_0000_0000_0000_0000_0000_0000)
        by (nonlinear_arith)
        requires
            -0x1_0000_0000 <= gain <= 0x1_0000_0000,
            -0x1_0000_0000_0000_0000 <= value <= 0x1_0000_0000_0000_0000,
    ;
    gain as i128 * value
}

impl ServoController {
    #[verifier::type_invariant]
    spec fn inv(self) -> bool {
        &&& self.config.valid()
        &&& -self.config.max_angle <= self.current_angle <= self.config.max_angle
    }

    /// The configuration the controller was made with.
    pub closed spec fn config(&self) -> SteeringConfig {
        self.config
    }

    /// The pin of the output channel.
    pub closed spec fn pin(&self) -> u8 {
        self.pwm.pin_number()
    }

    /// The controller on the default pin, with the default tuning.
    pub fn new() -> (r: Result<ServoController, HardwareError>)
        ensures
            r is Ok,
            r->Ok_0@ == Actuator::initial(SteeringConfig::defaults()),
            r->Ok_0.config() == SteeringConfig::defaults(),
            r->Ok_0.pin() == SERVO_PWM_PIN,
    {
        ServoController::with_pin(SERVO_PWM_PIN)
    }

    /// The controller on `pin`, with the default tuning. It fails exactly
    /// when no hardware PWM channel drives the pin.
    pub fn with_pin(pin: u8) -> (r: Result<ServoController, HardwareError>)
        ensures
            r is Ok <==> channel_of(pin) is Some,
            r matches Ok(servo) ==> {
                &&& servo@ == Actuator::initial(SteeringConfig::defaults())
                &&& servo.config() == SteeringConfig::defaults()
                &&& servo.pin() == pin
            },
            r matches Err(e) ==> e == HardwareError::InvalidPin,
    {
        ServoController::with_config(pin, SteeringConfig::default())
    }

    /// The controller on `pin` with the tuning of `config`. The output
    /// starts switched on at the centre pulse. A pin without a channel is
    /// reported as `InvalidPin`; on a pin with one, a configuration that is
    /// not usable is reported as `InvalidConfig`.
    pub fn with_config(pin: u8, config: SteeringConfig) -> (r: Result<
        ServoController,
        HardwareError,
    >)
        ensures
            r is Ok <==> channel_of(pin) is Some && config.valid(),
            r matches Ok(servo) ==> {
                &&& servo@ == Actuator::initial(config)
                &&& servo.config() == config
                &&& servo.pin() == pin
            },
            r matches Err(e) ==> e == if channel_of(pin) is None {
                HardwareError::InvalidPin
            } else {
                HardwareError::InvalidConfig
            },
    {
        if pwm_channel(pin).is_none() {
            return Err(HardwareError::InvalidPin);
        }
        if !config.is_valid() {
            return Err(HardwareError::InvalidConfig);
        }
        let pwm = match Pwm::new(pin) {
            Ok(pwm) => pwm,
            Err(e) => {
                return Err(e);
            },
        };
        let mut servo = ServoController { pwm, config, integral: 0, last_error: 0, current_angle: 0 };
        match servo.set_angle(0) {
            Ok(()) => Ok(servo),
            Err(e) => Err(e),
        }
    }

    /// The pulse width for `angle`, in nanoseconds.
    pub fn pulse_width_ns(&self, angle: i32) -> (r: u32)
        ensures
            r == pulse_width(self.config(), angle as int),
            self.config().min_pulse_ns <= r <= self.config().max_pulse_ns,
    {
        proof {
            use_type_invariant(self);
        }
        let max: i32 = self.config.max_angle;
        let held: i32 = if angle < -max {
            -max
        } else if angle > max {
            max
        } else {
            angle
        };
        let swing: i64 = self.config.max_pulse_ns as i64 - self.config.center_pulse_ns as i64;
        let scaled: i128 = divide_to_zero(mul_wide(held as i64, swing), max as i128);
        let raw: i128 = self.config.center_pulse_ns as i128 + scaled;
        clamp(raw, self.config.min_pulse_ns as i128, self.config.max_pulse_ns as i128) as u32
    }

    /// Writes a pulse width to the output, as a duty cycle of the period.
    fn set_pulse_width_ns(&mut self, pulse_ns: u32)
        requires
            pulse_ns <= old(self).config().max_pulse_ns,
        ensures
            final(self)@ == (Actuator {
                duty_ppb: duty_cycle(old(self).config(), pulse_ns as int),
                ..old(self)@
            }),
            final(self).config() == old(self).config(),
            final(self).pin() == old(self).pin(),
    {
        proof {
            use_type_invariant(&*self);
        }
        let frequency: u32 = self.config.frequency_hz;
        assert(pulse_ns * frequency <= self.config.max_pulse_ns * frequency) by (nonlinear_arith)
            requires
                pulse_ns <= self.config.max_pulse_ns,
                frequency >= 0,
        ;
        self.pwm.set_duty_cycle(pulse_ns * frequency);
    }

    /// Commands `angle`, held to the servo's range: writes its pulse to the
    /// output and remembers it as the current angle. It never fails.
    pub fn set_angle(&mut self, angle: i32) -> (r: Result<(), HardwareError>)
        ensures
            r is Ok,
            final(self)@ == old(self)@.pointed(old(self).config(), angle as int),
            final(self).config() == old(self).config(),
            final(self).pin() == old(self).pin(),
    {
        proof {
            use_type_invariant(&*self);
        }
        let max: i32 = self.config.max_angle;
        let held: i32 = if angle < -max {
            -max
        } else if angle > max {
            max
        } else {
            angle
        };
        let pulse: u32 = self.pulse_width_ns(angle);
        self.set_pulse_width_ns(pulse);
        self.current_angle = held;
        Ok(())
    }

    /// Commands the centre. It never fails.
    pub fn center(&mut self) -> (r: Result<(), HardwareError>)
        ensures
            r is Ok,
            final(self)@ == old(self)@.pointed(old(self).config(), 0),
            final(self).config() == old(self).config(),
            final(self).pin() == old(self).pin(),
    {
        self.set_angle(0)
    }

    /// Computes the correction for one cycle, `dt_ms` milliseconds after the
    /// last: zero inside the deadband, with nothing changed; else the sum of
    /// the proportional, integral and derivative terms, held to the servo's
    /// range, with the accumulator and the last error moved on. The angle
    /// and the output are not touched.
    pub fn calculate_correction(
        &mut self,
        target_heading: i32,
        current_heading: i32,
        dt_ms: u32,
    ) -> (correction: i32)
        ensures
            correction == old(self)@.correction(
                old(self).config(),
                target_heading as int,
                current_heading as int,
                dt_ms as int,
            ),
            final(self)@ == old(self)@.corrected(
                old(self).config(),
                target_heading as int,
                current_heading as int,
                dt_ms as int,
            ),
            -old(self).config().max_angle <= correction <= old(self).config().max_angle,
            final(self).config() == old(self).config(),
            final(self).pin() == old(self).pin(),
    {
        proof {
            use_type_invariant(&*self);
        }
        let error: i64 = heading_error(target_heading, current_heading);
        let size: i64 = if error < 0 {
            -error
        } else {
            error
        };
        if size < self.config.deadband as i64 {
            return 0;
        }
        let p: i128 = divide_to_zero(mul_wide(self.config.kp as i64, error), GAIN_SCALE as i128);

        let sum: i128 = self.integral as i128 + mul_wide(error, dt_ms as i64);
        let integral: i64 = clamp(sum, i64::MIN as i128, i64::MAX as i128) as i64;
        let i: i128 = divide_to_zero(
            mul_wide(self.config.ki as i64, integral),
            GAIN_SCALE as i128 * MS_PER_S as i128,
        );

        let d: i128 = if dt_ms == 0 {
            0
        } else {
            divide_to_zero(
                mul_gain(self.config.kd, error as i128 - self.last_error as i128),
                dt_ms as i128,
            )
        };

        self.integral = integral;
        self.last_error = error;

        let max: i128 = self.config.max_angle as i128;
        clamp(p + i + d, -max, max) as i32
    }

    /// Steers for one cycle: computes the correction and moves the angle
    /// towards it, no further than the rate allows in `dt_ms` milliseconds.
    /// The angle that was applied is returned. It never fails.
    pub fn auto_steer(&mut self, target_heading: i32, current_heading: i32, dt_ms: u32) -> (r:
        Result<i32, HardwareError>)
        ensures
            r is Ok,
            r->Ok_0 == old(self)@.steer_angle(
                old(self).config(),
                target_heading as int,
                current_heading as int,
                dt_ms as int,
            ),
            final(self)@ == old(self)@.steered(
                old(self).config(),
                target_heading as int,
                current_heading as int,
                dt_ms as int,
            ),
            r->Ok_0 == final(self)@.angle,
            final(self).config() == old(self).config(),
            final(self).pin() == old(self).pin(),
    {
        proof {
            use_type_invariant(&*self);
        }
        let desired: i32 = self.calculate_correction(target_heading, current_heading, dt_ms);
        proof {
            use_type_invariant(&*self);
        }
        let step: i128 = mul_wide(self.config.max_rate as i64, dt_ms as i64) / (MS_PER_S as i128);
        let diff: i64 = desired as i64 - self.current_angle as i64;
        let actual: i32 = if diff as i128 > step {
            (self.current_angle as i128 + step) as i32
        } else if -(diff as i128) > step {
            (self.current_angle as i128 - step) as i32
        } else {
            desired
        };
        match self.set_angle(actual) {
            Ok(()) => Ok(actual),
            Err(e) => Err(e),
        }
    }

    /// Switches the output off. It never fails.
    pub fn disable(&mut self) -> (r: Result<(), HardwareError>)
        ensures
            r is Ok,
            final(self)@ == (Actuator { enabled: false, ..old(self)@ }),
            final(self).config() == old(self).config(),
            final(self).pin() == old(self).pin(),
    {
        proof {
            use_type_invariant(&*self);
        }
        self.pwm.disable()
    }

    /// The angle commanded last.
    pub fn current_angle(&self) -> (r: i32)
        ensures
            r == self@.angle,
            -self.config().max_angle <= r <= self.config().max_angle,
    {
        proof {
            use_type_invariant(self);
        }
        self.current_angle
    }

    /// The accumulator of the integral term, in millidegree-milliseconds.
    pub fn integral(&self) -> (r: i64)
        ensures
            r == self@.integral,
    {
        self.integral
    }

    /// The error of the last cycle that was corrected.
    pub fn last_error(&self) -> (r: i64)
        ensures
            r == self@.last_error,
    {
        self.last_error
    }

    /// The duty cycle on the output, in parts per billion.
    pub fn duty_cycle_ppb(&self) -> (r: u32)
        ensures
            r == self@.duty_ppb,
    {
        crate::mocks::mock_pwm::get_mock_duty_cycle(&self.pwm)
    }

    /// Whether the output is switched on.
    pub fn is_enabled(&self) -> (r: bool)
        ensures
            r == self@.enabled,
    {
        self.pwm.is_enabled()
    }

    /// The tuning of the controller.
    pub fn get_config(&self) -> (r: SteeringConfig)
        ensures
            r == self.config(),
            r.valid(),
    {
        proof {
            use_type_invariant(self);
        }
        self.config
    }
}

/// Inside the deadband a cycle is idle: the correction is zero and neither
/// the accumulator nor the last error moves.
pub proof fn lemma_deadband_is_idle(
    actuator: Actuator,
    config: SteeringConfig,
    target: int,
    current: int,
    dt_ms: int,
)
    requires
        in_deadband(config, heading_error_of(target, current)),
    ensures
        actuator.correction(config, target, current, dt_ms) == 0,
        actuator.corrected(config, target, current, dt_ms) == actuator,
{
}

/// With a gain of one and neither integral nor derivative gain, the
/// correction outside the deadband is the error itself, held to the servo's
/// range: it has the sign of the error, current minus target, and where the
/// deadband is positive it is not zero.
pub proof fn lemma_proportional_correction(
    actuator: Actuator,
    config: SteeringConfig,
    target: int,
    current: int,
    dt_ms: int,
)
    requires
        config.valid(),
        config.kp == GAIN_SCALE,
        config.ki == 0,
        config.kd == 0,
        !in_deadband(config, heading_error_of(target, current)),
    ensures
        actuator.correction(config, target, current, dt_ms) == clamp_to(
            heading_error_of(target, current),
            -config.max_angle as int,
            config.max_angle as int,
        ),
        config.deadband > 0 && heading_error_of(target, current) > 0 ==> actuator.correction(
            config,
            target,
            current,
            dt_ms,
        ) > 0,
        config.deadband > 0 && heading_error_of(target, current) < 0 ==> actuator.correction(
            config,
            target,
            current,
            dt_ms,
        ) < 0,
{
    let error = heading_error_of(target, current);
    let integral = integral_after(actuator.integral, error, dt_ms);
    assert(config.kp * error == 1_000 * error) by (nonlinear_arith)
        requires
            config.kp == 1_000,
    ;
    assert(config.ki * integral == 0) by (nonlinear_arith)
        requires
            config.ki == 0,
    ;
    assert(config.kd * (error - actuator.last_error) == 0) by (nonlinear_arith)
        requires
            config.kd == 0,
    ;
    assert(p_term(config, error) == error);
    assert(i_term(config, integral) == 0);
    if dt_ms > 0 {
        assert(0int / dt_ms == 0) by (nonlinear_arith)
            requires
                dt_ms > 0,
        ;
    }
    assert(d_term(config, error, actuator.last_error, dt_ms) == 0);
}

/// The correction never leaves the servo's range.
pub proof fn lemma_correction_in_range(
    actuator: Actuator,
    config: SteeringConfig,
    target: int,
    current: int,
    dt_ms: int,
)
    requires
        config.valid(),
    ensures
        -config.max_angle <= actuator.correction(config, target, current, dt_ms)
            <= config.max_angle,
{
}

/// The rate limit. In one cycle the angle moves no further than the step
/// allows, and never past what was asked for; where what was asked for is
/// within the step, it is applied as it is.
pub proof fn lemma_rate_limit(current: int, desired: int, step: int)
    requires
        step >= 0,
    ensures
        magnitude(rate_limited(current, desired, step) - current) <= step,
        magnitude(desired - current) <= step ==> rate_limited(current, desired, step) == desired,
        magnitude(desired - current) > step ==> magnitude(
            rate_limited(current, desired, step) - current,
        ) == step,
        current <= desired ==> current <= rate_limited(current, desired, step) <= desired,
        desired <= current ==> desired <= rate_limited(current, desired, step) <= current,
{
}

/// One cycle of automatic steering keeps the angle in the servo's range and
/// moves it no further than the rate allows in the time elapsed. The angle
/// that is applied is the angle that the actuator then holds.
pub proof fn lemma_steering_is_rate_limited(
    actuator: Actuator,
    config: SteeringConfig,
    target: int,
    current: int,
    dt_ms: int,
)
    requires
        config.valid(),
        -config.max_angle <= actuator.angle <= config.max_angle,
        dt_ms >= 0,
    ensures
        actuator.steered(config, target, current, dt_ms).angle == actuator.steer_angle(
            config,
            target,
            current,
            dt_ms,
        ),
        -config.max_angle <= actuator.steered(config, target, current, dt_ms).angle
            <= config.max_angle,
        magnitude(actuator.steered(config, target, current, dt_ms).angle - actuator.angle)
            <= max_step(config, dt_ms),
        max_step(config, dt_ms) * MS_PER_S <= config.max_rate * dt_ms,
{
    let step = max_step(config, dt_ms);
    assert(config.max_rate * dt_ms >= 0) by (nonlinear_arith)
        requires
            config.max_rate >= 0,
            dt_ms >= 0,
    ;
    assert(step >= 0);
    lemma_rate_limit(actuator.angle, actuator.correction(config, target, current, dt_ms), step);
}

/// The servo's pulse. Every angle gives a pulse within the servo's pulse
/// range, and a duty cycle of at most the whole period. The centre gives
/// the centre pulse and the largest angle the longest pulse. An angle
/// beyond the range gives the pulse of the nearest angle within it.
pub proof fn lemma_pulse_in_range(config: SteeringConfig, angle: int)
    requires
        config.valid(),
    ensures
        config.min_pulse_ns <= pulse_width(config, angle) <= config.max_pulse_ns,
        0 <= duty_cycle(config, pulse_width(config, angle)) <= PPB,
        pulse_width(config, 0) == config.center_pulse_ns,
        pulse_width(config, config.max_angle as int) == config.max_pulse_ns,
        pulse_width(config, angle) == pulse_width(
            config,
            clamp_to(angle, -config.max_angle as int, config.max_angle as int),
        ),
{
    let max = config.max_angle as int;
    let swing = config.max_pulse_ns - config.center_pulse_ns;
    let pulse = pulse_width(config, angle);
    assert(0 <= pulse * config.frequency_hz <= config.max_pulse_ns * config.frequency_hz)
        by (nonlinear_arith)
        requires
            0 <= pulse <= config.max_pulse_ns,
            config.frequency_hz >= 0,
    ;
    assert(0 * swing == 0);
    assert(0int / max == 0) by (nonlinear_arith)
        requires
            max > 0,
    ;
    assert((max * swing) / max == swing) by (nonlinear_arith)
        requires
            max > 0,
            swing >= 0,
    ;
    assert(max * swing >= 0) by (nonlinear_arith)
        requires
            max > 0,
            swing >= 0,
    ;
}

/// The sign convention. With a positive proportional gain and neither
/// integral nor derivative gain, the correction never points against the
/// error, current minus target: a heading too far to the right is never
/// answered with left rudder, nor one too far to the left with right rudder.
pub proof fn lemma_correction_follows_error(
    actuator: Actuator,
    config: SteeringConfig,
    target: int,
    current: int,
    dt_ms: int,
)
    requires
        config.valid(),
        config.kp > 0,
        config.ki == 0,
        config.kd == 0,
    ensures
        heading_error_of(target, current) >= 0 ==> actuator.correction(
            config,
            target,
            current,
            dt_ms,
        ) >= 0,
        heading_error_of(target, current) <= 0 ==> actuator.correction(
            config,
            target,
            current,
            dt_ms,
        ) <= 0,
{
    let error = heading_error_of(target, current);
    let integral = integral_after(actuator.integral, error, dt_ms);
    assert(config.ki * integral == 0) by (nonlinear_arith)
        requires
            config.ki == 0,
    ;
    assert(config.kd * (error - actuator.last_error) == 0) by (nonlinear_arith)
        requires
            config.kd == 0,
    ;
    if dt_ms > 0 {
        assert(0int / dt_ms == 0) by (nonlinear_arith)
            requires
                dt_ms > 0,
        ;
    }
    assert(i_term(config, integral) == 0);
    assert(d_term(config, error, actuator.last_error, dt_ms) == 0);
    if error >= 0 {
        assert(config.kp * error >= 0) by (nonlinear_arith)
            requires
                config.kp > 0,
                error >= 0,
        ;
        lemma_div_to_zero_ordered(0, config.kp * error, GAIN_SCALE as int);
    }
    if error <= 0 {
        assert(config.kp * error <= 0) by (nonlinear_arith)
            requires
                config.kp > 0,
                error <= 0,
        ;
        lemma_div_to_zero_ordered(config.kp * error, 0, GAIN_SCALE as int);
    }
}

/// The servo never reverses: a larger angle never gives a shorter pulse.
pub proof fn lemma_pulse_is_monotonic(config: SteeringConfig, lower: int, upper: int)
    requires
        config.valid(),
        lower <= upper,
    ensures
        pulse_width(config, lower) <= pulse_width(config, upper),
{
    let max = config.max_angle as int;
    let swing = config.max_pulse_ns - config.center_pulse_ns;
    let held_lower = clamp_to(lower, -max, max);
    let held_upper = clamp_to(upper, -max, max);
    assert(held_lower * swing <= held_upper * swing) by (nonlinear_arith)
        requires
            held_lower <= held_upper,
            swing >= 0,
    ;
    lemma_div_to_zero_ordered(held_lower * swing, held_upper * swing, max);
}

} // verus!
