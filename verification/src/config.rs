//! Tuning parameters, with the documented defaults. Angles are in
//! millidegrees, gains in thousandths, pulse widths in nanoseconds.

use vstd::prelude::*;

verus! {

/// Input line of the toggle's left contact.
pub const GPIO_TOGGLE_LEFT: u8 = 23;

/// Input line of the toggle's right contact.
pub const GPIO_TOGGLE_RIGHT: u8 = 24;

/// What one push to the left adds to the offset.
pub const ADJUST_LEFT: i32 = -5_000;

/// What one push to the right adds to the offset.
pub const ADJUST_RIGHT: i32 = 5_000;

/// Pin of the servo's PWM channel.
pub const SERVO_PWM_PIN: u8 = 18;

/// Pulse width at full deflection to the left.
pub const SERVO_MIN_PULSE_NS: u32 = 1_000_000;

/// Pulse width at full deflection to the right.
pub const SERVO_MAX_PULSE_NS: u32 = 2_000_000;

/// Pulse width at the centre.
pub const SERVO_CENTER_PULSE_NS: u32 = 1_500_000;

/// PWM frequency of a standard servo, in hertz.
pub const SERVO_FREQUENCY_HZ: u32 = 50;

/// Largest deflection of the servo to either side.
pub const SERVO_MAX_ANGLE: i32 = 90_000;

/// Proportional gain, in thousandths.
pub const KP: i32 = 1_000;

/// Integral gain, in thousandths per second.
pub const KI: i32 = 0;

/// Derivative gain, in thousandths of a second.
pub const KD: i32 = 0;

/// Errors smaller than this are left uncorrected.
pub const HEADING_ERROR_DEADBAND: i32 = 2_000;

/// Fastest movement of the servo, in millidegrees per second.
pub const MAX_SERVO_RATE: i32 = 40_000;

/// Time between two steering corrections, in milliseconds.
pub const SERVO_UPDATE_INTERVAL_MS: u32 = 100;

/// Time between two status reports, in milliseconds.
pub const STATUS_UPDATE_INTERVAL_MS: u32 = 5_000;

/// How far ahead the target point is shown, in millimetres.
pub const LOOKAHEAD_DISTANCE_MM: i64 = 100_000;

/// One in a billion: the unit of a duty cycle is its inverse.
pub const PPB: u32 = 1_000_000_000;

/// The pilot's toggle: its two input lines, the step of one push to either
/// side, and the bound of the offset.
#[derive(Clone, Copy, Debug, PartialEq, Eq, Structural)]
pub struct SwitchConfig {
    pub left_pin: u8,
    pub right_pin: u8,
    pub adjust_left: i32,
    pub adjust_right: i32,
    pub max_offset: i32,
}

impl SwitchConfig {
    /// The documented defaults.
    pub open spec fn defaults() -> SwitchConfig {
        SwitchConfig {
            left_pin: GPIO_TOGGLE_LEFT,
            right_pin: GPIO_TOGGLE_RIGHT,
            adjust_left: ADJUST_LEFT,
            adjust_right: ADJUST_RIGHT,
            max_offset: SERVO_MAX_ANGLE,
        }
    }

    /// A configuration is usable when the bound of the offset is not
    /// negative.
    pub open spec fn valid(&self) -> bool {
        self.max_offset >= 0
    }

    /// Whether the configuration is usable.
    pub fn is_valid(&self) -> (r: bool)
        ensures
            r == self.valid(),
    {
        self.max_offset >= 0
    }
}

impl Default for SwitchConfig {
    fn default() -> (r: SwitchConfig)
        ensures
            r == SwitchConfig::defaults(),
            r.valid(),
    {
        SwitchConfig {
            left_pin: GPIO_TOGGLE_LEFT,
            right_pin: GPIO_TOGGLE_RIGHT,
            adjust_left: ADJUST_LEFT,
            adjust_right: ADJUST_RIGHT,
            max_offset: SERVO_MAX_ANGLE,
        }
    }
}

/// The steering actuator: gains of the controller, deadband, limits of
/// angle and rate, and the pulse widths of the servo.
#[derive(Clone, Copy, Debug, PartialEq, Eq, Structural)]
pub struct SteeringConfig {
    pub kp: i32,
    pub ki: i32,
    pub kd: i32,
    pub deadband: i32,
    pub max_angle: i32,
    pub max_rate: i32,
    pub min_pulse_ns: u32,
    pub center_pulse_ns: u32,
    pub max_pulse_ns: u32,
    pub frequency_hz: u32,
}

impl SteeringConfig {
    /// The documented defaults.
    pub open spec fn defaults() -> SteeringConfig {
        SteeringConfig {
            kp: KP,
            ki: KI,
            kd: KD,
            deadband: HEADING_ERROR_DEADBAND,
            max_angle: SERVO_MAX_ANGLE,
            max_rate: MAX_SERVO_RATE,
            min_pulse_ns: SERVO_MIN_PULSE_NS,
            center_pulse_ns: SERVO_CENTER_PULSE_NS,
            max_pulse_ns: SERVO_MAX_PULSE_NS,
            frequency_hz: SERVO_FREQUENCY_HZ,
        }
    }

    /// A configuration is usable when the largest angle is positive, the
    /// rate is not negative, the pulse widths are in order, and the longest
    /// pulse fits into one period of the frequency.
    pub open spec fn valid(&self) -> bool {
        &&& self.max_angle > 0
        &&& self.max_rate >= 0
        &&& self.min_pulse_ns <= self.center_pulse_ns <= self.max_pulse_ns
        &&& self.frequency_hz > 0
        &&& self.max_pulse_ns * self.frequency_hz <= PPB
    }

    /// Whether the configuration is usable.
    pub fn is_valid(&self) -> (r: bool)
        ensures
            r == self.valid(),
    {
        let pulse: u64 = self.max_pulse_ns as u64;
        let frequency: u64 = self.frequency_hz as u64;
        assert(pulse * frequency <= 0xffff_ffff * 0xffff_ffff) by (nonlinear_arith)
            requires
                pulse <= 0xffff_ffff,
                frequency <= 0xffff_ffff,
        ;
        self.max_angle > 0 && self.max_rate >= 0 && self.min_pulse_ns <= self.center_pulse_ns
            && self.center_pulse_ns <= self.max_pulse_ns && self.frequency_hz > 0 && pulse
            * frequency <= PPB as u64
    }
}

impl Default for SteeringConfig {
    fn default() -> (r: SteeringConfig)
        ensures
            r == SteeringConfig::defaults(),
            r.valid(),
    {
        SteeringConfig {
            kp: KP,
            ki: KI,
            kd: KD,
            deadband: HEADING_ERROR_DEADBAND,
            max_angle: SERVO_MAX_ANGLE,
            max_rate: MAX_SERVO_RATE,
            min_pulse_ns: SERVO_MIN_PULSE_NS,
            center_pulse_ns: SERVO_CENTER_PULSE_NS,
            max_pulse_ns: SERVO_MAX_PULSE_NS,
            frequency_hz: SERVO_FREQUENCY_HZ,
        }
    }
}

} // verus!
