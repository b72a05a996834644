use geo_rs::angle::heading_error;
use geo_rs::config::SteeringConfig;
use geo_rs::error::HardwareError;
use geo_rs::pwm::{pwm_channel, PwmChannel, ServoController};

fn tuned(kp: i32, ki: i32, kd: i32) -> ServoController {
    ServoController::with_config(18, SteeringConfig { kp, ki, kd, ..SteeringConfig::default() })
        .unwrap()
}

#[test]
fn test_heading_error_calculation() {
    let mut controller = ServoController::new().unwrap();

    let correction = controller.calculate_correction(90_000, 85_000, 100);
    assert!(correction < 0);

    let correction = controller.calculate_correction(5_000, 355_000, 100);
    assert!(correction < 0);

    let correction = controller.calculate_correction(355_000, 5_000, 100);
    assert!(correction > 0);
}

#[test]
fn test_deadband() {
    let mut controller = ServoController::new().unwrap();

    let correction = controller.calculate_correction(90_000, 89_000, 100);
    assert_eq!(correction, 0);

    let correction = controller.calculate_correction(90_000, 80_000, 100);
    assert!(correction != 0);
}

#[test]
fn test_servo_angle_clamping() {
    let mut controller = ServoController::new().unwrap();

    assert!(controller.set_angle(100_000).is_ok());
    assert!(controller.set_angle(-100_000).is_ok());
    assert!(controller.set_angle(0).is_ok());
}

#[test]
fn test_boat_rudder_steering_logic() {
    let mut controller = ServoController::new().unwrap();

    let correction = controller.calculate_correction(90_000, 100_000, 100);
    assert!(correction > 0, "Rudder should move RIGHT when heading too far right");

    let correction = controller.calculate_correction(90_000, 80_000, 100);
    assert!(correction < 0, "Rudder should move LEFT when heading too far left");

    let correction = controller.calculate_correction(90_000, 90_500, 100);
    assert_eq!(correction, 0, "Should not correct when within deadband");
}

#[test]
fn test_servo_rate_limiting() {
    // The rate this scenario is written for: 20 degrees per second.
    let config = SteeringConfig { max_rate: 20_000, ..SteeringConfig::default() };
    let mut controller = ServoController::with_config(18, config).unwrap();

    assert_eq!(controller.current_angle(), 0);

    let correction = controller.auto_steer(90_000, 0, 100).unwrap();

    assert!(
        (correction - (-2_000)).abs() < 100,
        "First step should be limited to -2°, got {}",
        correction
    );
    assert_eq!(controller.current_angle(), correction);

    let correction = controller.auto_steer(90_000, 0, 100).unwrap();
    assert!(
        (correction - (-4_000)).abs() < 100,
        "Second step should be -4° total, got {}",
        correction
    );

    controller.set_angle(-88_000).unwrap();

    let correction = controller.auto_steer(90_000, 2_000, 100).unwrap();
    assert!((correction - (-88_000)).abs() < 100, "Small corrections should apply directly");
}

#[test]
fn error_is_current_minus_target_across_north() {
    assert_eq!(heading_error(5_000, 355_000), -10_000);
    assert_eq!(heading_error(5_000, 5_000), 0);
    assert_eq!(heading_error(355_000, 5_000), 10_000);
    assert_eq!(heading_error(90_000, 85_000), -5_000);
    assert_eq!(heading_error(90_000, 100_000), 10_000);
}

#[test]
fn error_at_half_a_turn_is_positive() {
    assert_eq!(heading_error(0, 180_000), 180_000);
    assert_eq!(heading_error(180_000, 0), 180_000);
    assert_eq!(heading_error(0, 180_001), -179_999);
    assert_eq!(heading_error(180_001, 0), 179_999);
    assert_eq!(heading_error(0, 179_999), 179_999);
    assert_eq!(heading_error(179_999, 0), -179_999);
}

#[test]
fn error_is_moved_by_one_turn_at_most() {
    assert_eq!(heading_error(0, 725_000), 365_000);
    assert_eq!(heading_error(725_000, 0), -365_000);
    assert_eq!(heading_error(i32::MIN, i32::MAX), 4_294_967_295 - 360_000);
    assert_eq!(heading_error(i32::MAX, i32::MIN), -4_294_967_295 + 360_000);
}

#[test]
fn deadband_is_exact_and_freezes_the_controller() {
    let mut controller = tuned(1_000, 500, 100);
    assert_eq!(controller.calculate_correction(90_000, 89_000, 100), 0);
    assert_eq!(controller.calculate_correction(90_000, 88_001, 100), 0);
    assert_eq!(controller.calculate_correction(90_000, 91_999, 100), 0);
    assert_eq!(controller.integral(), 0);
    assert_eq!(controller.last_error(), 0);
    assert_eq!(controller.calculate_correction(90_000, 88_000, 100), -2_000 - 100 - 2_000);
    assert_eq!(controller.integral(), -200_000);
    assert_eq!(controller.last_error(), -2_000);
    assert_eq!(controller.calculate_correction(90_000, 89_000, 100), 0);
    assert_eq!(controller.integral(), -200_000);
    assert_eq!(controller.last_error(), -2_000);
}

#[test]
fn proportional_only_by_default() {
    let mut controller = ServoController::new().unwrap();
    assert_eq!(controller.calculate_correction(90_000, 80_000, 100), -10_000);
    assert_eq!(controller.calculate_correction(90_000, 80_000, 100), -10_000);
    assert_eq!(controller.calculate_correction(90_000, 100_000, 7), 10_000);
    assert_eq!(controller.calculate_correction(0, 180_000, 100), 90_000);
    assert_eq!(controller.calculate_correction(0, 181_000, 100), -90_000);
    assert_eq!(controller.calculate_correction(0, 95_000, 100), 90_000);
    assert_eq!(controller.current_angle(), 0);
    assert_eq!(controller.duty_cycle_ppb(), 75_000_000);
}

#[test]
fn integral_and_derivative_terms() {
    let mut controller = tuned(2_000, 500, 100);
    assert_eq!(controller.calculate_correction(90_000, 80_000, 100), -20_000 - 500 - 10_000);
    assert_eq!(controller.integral(), -1_000_000);
    assert_eq!(controller.last_error(), -10_000);
    assert_eq!(controller.calculate_correction(90_000, 80_000, 100), -20_000 - 1_000);
    assert_eq!(controller.integral(), -2_000_000);
    assert_eq!(controller.calculate_correction(90_000, 95_000, 50), 10_000 - 875 + 30_000);
    assert_eq!(controller.integral(), -1_750_000);
    assert_eq!(controller.last_error(), 5_000);
}

#[test]
fn terms_round_towards_zero() {
    let mut controller = tuned(1, 0, 0);
    assert_eq!(controller.calculate_correction(0, 2_999, 100), 2);
    assert_eq!(controller.calculate_correction(0, -2_999, 100), -2);
    let mut controller = tuned(0, 0, 1);
    assert_eq!(controller.calculate_correction(0, 2_999, 1_000), 2);
    assert_eq!(controller.calculate_correction(0, -2_999, 1_000), -5);
    let mut controller = tuned(0, 1, 0);
    assert_eq!(controller.calculate_correction(0, -2_999, 1_000), -2);
    assert_eq!(controller.integral(), -2_999_000);
}

#[test]
fn no_elapsed_time_skips_the_derivative() {
    let mut controller = tuned(1_000, 500, 100);
    assert_eq!(controller.calculate_correction(90_000, 80_000, 0), -10_000);
    assert_eq!(controller.integral(), 0);
    assert_eq!(controller.last_error(), -10_000);
    assert_eq!(controller.auto_steer(90_000, 80_000, 0), Ok(0));
    assert_eq!(controller.current_angle(), 0);
}

#[test]
fn accumulator_stops_at_the_end_of_its_range() {
    let mut controller = tuned(0, 1_000, 0);
    let correction = controller.calculate_correction(i32::MIN, i32::MAX, u32::MAX);
    assert_eq!(controller.integral(), i64::MAX);
    assert_eq!(controller.last_error(), 4_294_607_295);
    assert_eq!(correction, 90_000);
    let correction = controller.calculate_correction(i32::MAX, i32::MIN, u32::MAX);
    assert_eq!(
        controller.integral() as i128,
        i64::MAX as i128 - 4_294_607_295i128 * 4_294_967_295i128
    );
    assert_eq!(correction, -90_000);
    let correction = controller.calculate_correction(i32::MAX, i32::MIN, u32::MAX);
    assert_eq!(controller.integral(), i64::MIN);
    assert_eq!(correction, -90_000);
}

#[test]
fn rate_limit_at_the_default_rate() {
    let mut controller = ServoController::new().unwrap();
    assert_eq!(controller.auto_steer(90_000, 0, 100), Ok(-4_000));
    assert_eq!(controller.current_angle(), -4_000);
    assert_eq!(controller.duty_cycle_ppb(), 1_477_778 * 50);
    assert_eq!(controller.auto_steer(90_000, 0, 100), Ok(-8_000));
    assert_eq!(controller.auto_steer(90_000, 0, 250), Ok(-18_000));
    assert_eq!(controller.auto_steer(90_000, 0, 1), Ok(-18_040));
    assert_eq!(controller.auto_steer(90_000, 108_000, 100), Ok(-14_040));
    assert_eq!(controller.auto_steer(90_000, 0, 60_000), Ok(-90_000));
    assert_eq!(controller.current_angle(), -90_000);
    assert_eq!(controller.duty_cycle_ppb(), 50_000_000);
}

#[test]
fn small_change_is_applied_directly() {
    let mut controller = ServoController::new().unwrap();
    assert_eq!(controller.auto_steer(90_000, 87_000, 100), Ok(-3_000));
    assert_eq!(controller.auto_steer(90_000, 83_000, 100), Ok(-7_000));
    assert_eq!(controller.auto_steer(90_000, 94_000, 100), Ok(-3_000));
    assert_eq!(controller.auto_steer(90_000, 90_000, 100), Ok(0));
    assert_eq!(controller.auto_steer(90_000, 94_001, 100), Ok(4_000));
}

#[test]
fn deadband_moves_the_servo_back_to_centre_at_the_rate() {
    let mut controller = ServoController::new().unwrap();
    controller.set_angle(10_000).unwrap();
    assert_eq!(controller.auto_steer(90_000, 90_500, 100), Ok(6_000));
    assert_eq!(controller.auto_steer(90_000, 90_500, 100), Ok(2_000));
    assert_eq!(controller.auto_steer(90_000, 90_500, 100), Ok(0));
}

#[test]
fn angle_maps_linearly_to_the_pulse() {
    let mut controller = ServoController::new().unwrap();
    assert_eq!(controller.pulse_width_ns(0), 1_500_000);
    assert_eq!(controller.pulse_width_ns(90_000), 2_000_000);
    assert_eq!(controller.pulse_width_ns(-90_000), 1_000_000);
    assert_eq!(controller.pulse_width_ns(45_000), 1_750_000);
    assert_eq!(controller.pulse_width_ns(-45_000), 1_250_000);
    assert_eq!(controller.pulse_width_ns(1), 1_500_005);
    assert_eq!(controller.pulse_width_ns(-1), 1_499_995);
    assert_eq!(controller.pulse_width_ns(100_000), 2_000_000);
    assert_eq!(controller.pulse_width_ns(i32::MAX), 2_000_000);
    assert_eq!(controller.pulse_width_ns(i32::MIN), 1_000_000);
    controller.set_angle(45_000).unwrap();
    assert_eq!(controller.current_angle(), 45_000);
    assert_eq!(controller.duty_cycle_ppb(), 87_500_000);
}

#[test]
fn commanded_angle_is_clamped() {
    let mut controller = ServoController::new().unwrap();
    controller.set_angle(100_000).unwrap();
    assert_eq!(controller.current_angle(), 90_000);
    assert_eq!(controller.duty_cycle_ppb(), 100_000_000);
    controller.set_angle(-100_000).unwrap();
    assert_eq!(controller.current_angle(), -90_000);
    assert_eq!(controller.duty_cycle_ppb(), 50_000_000);
    assert_eq!(controller.center(), Ok(()));
    assert_eq!(controller.current_angle(), 0);
    assert_eq!(controller.duty_cycle_ppb(), 75_000_000);
    assert_eq!(controller.integral(), 0);
    assert_eq!(controller.last_error(), 0);
}

#[test]
fn pulse_of_a_lopsided_servo_is_held_to_its_range() {
    let config = SteeringConfig {
        min_pulse_ns: 1_400_000,
        center_pulse_ns: 1_500_000,
        max_pulse_ns: 2_000_000,
        max_angle: 45_000,
        ..SteeringConfig::default()
    };
    let controller = ServoController::with_config(12, config).unwrap();
    assert_eq!(controller.pulse_width_ns(45_000), 2_000_000);
    assert_eq!(controller.pulse_width_ns(-4_500), 1_450_000);
    assert_eq!(controller.pulse_width_ns(-9_000), 1_400_000);
    assert_eq!(controller.pulse_width_ns(-45_000), 1_400_000);
}

#[test]
fn new_controller_is_centred_and_enabled() {
    let controller = ServoController::new().unwrap();
    assert_eq!(controller.current_angle(), 0);
    assert_eq!(controller.integral(), 0);
    assert_eq!(controller.last_error(), 0);
    assert_eq!(controller.duty_cycle_ppb(), 75_000_000);
    assert!(controller.is_enabled());
    assert_eq!(controller.get_config(), SteeringConfig::default());
}

#[test]
fn disable_switches_the_output_off() {
    let mut controller = ServoController::new().unwrap();
    controller.set_angle(9_000).unwrap();
    assert_eq!(controller.disable(), Ok(()));
    assert!(!controller.is_enabled());
    assert_eq!(controller.current_angle(), 9_000);
    assert_eq!(controller.duty_cycle_ppb(), 77_500_000);
}

#[test]
fn only_pwm_pins_are_accepted() {
    assert_eq!(pwm_channel(12), Some(PwmChannel::Pwm0));
    assert_eq!(pwm_channel(18), Some(PwmChannel::Pwm0));
    assert_eq!(pwm_channel(13), Some(PwmChannel::Pwm1));
    assert_eq!(pwm_channel(19), Some(PwmChannel::Pwm1));
    for pin in 0..=255u8 {
        let ok = pin == 12 || pin == 13 || pin == 18 || pin == 19;
        assert_eq!(pwm_channel(pin).is_some(), ok);
        match ServoController::with_pin(pin) {
            Ok(_) => assert!(ok),
            Err(e) => {
                assert!(!ok);
                assert_eq!(e, HardwareError::InvalidPin);
            }
        }
    }
    assert_eq!(HardwareError::InvalidPin.message(), "Invalid PWM pin. Use 12, 13, 18, or 19");
    assert_eq!(HardwareError::InvalidPin.to_string(), "Invalid PWM pin. Use 12, 13, 18, or 19");
}

#[test]
fn unusable_tuning_is_refused() {
    let good = SteeringConfig::default();
    assert!(good.is_valid());
    let bad = [
        SteeringConfig { max_angle: 0, ..good },
        SteeringConfig { max_rate: -1, ..good },
        SteeringConfig { min_pulse_ns: 1_500_001, ..good },
        SteeringConfig { center_pulse_ns: 2_000_001, ..good },
        SteeringConfig { frequency_hz: 0, ..good },
        SteeringConfig { frequency_hz: 501, ..good },
    ];
    for config in bad {
        assert!(!config.is_valid());
        assert_eq!(ServoController::with_config(18, config).err(), Some(HardwareError::InvalidConfig));
        assert_eq!(ServoController::with_config(17, config).err(), Some(HardwareError::InvalidPin));
    }
    assert!(SteeringConfig { frequency_hz: 500, ..good }.is_valid());
    assert!(SteeringConfig { max_rate: 0, deadband: -5, kp: -1, ..good }.is_valid());
}

#[test]
fn default_tuning() {
    let config = SteeringConfig::default();
    assert_eq!(config.kp, 1_000);
    assert_eq!(config.ki, 0);
    assert_eq!(config.kd, 0);
    assert_eq!(config.deadband, 2_000);
    assert_eq!(config.max_angle, 90_000);
    assert_eq!(config.max_rate, 40_000);
    assert_eq!(config.min_pulse_ns, 1_000_000);
    assert_eq!(config.center_pulse_ns, 1_500_000);
    assert_eq!(config.max_pulse_ns, 2_000_000);
    assert_eq!(config.frequency_hz, 50);
}

#[test]
fn larger_angle_never_gives_a_shorter_pulse() {
    let controller = ServoController::new().unwrap();
    let mut angle = -100_000;
    let mut last = controller.pulse_width_ns(angle);
    while angle <= 100_000 {
        let pulse = controller.pulse_width_ns(angle);
        assert!(pulse >= last);
        assert!(1_000_000 <= pulse && pulse <= 2_000_000);
        last = pulse;
        angle += 617;
    }
}

#[test]
fn correction_never_points_against_the_error() {
    for kp in [1, 250, 1_000, 40_000] {
        for current in [0, 1_999, 2_000, 2_001, 10_000, 179_000, 181_000, 350_000, 358_001] {
            let mut controller = tuned(kp, 0, 0);
            let error = heading_error(0, current);
            let correction = controller.calculate_correction(0, current, 100) as i64;
            assert!(correction * error >= 0);
            assert!(correction.abs() <= 90_000);
            if error.abs() < 2_000 {
                assert_eq!(correction, 0);
            }
        }
    }
}

#[test]
fn swapping_target_and_current_turns_the_error_round() {
    for (a, b) in [(0, 1), (5_000, 355_000), (90_000, 269_999), (10, 359_990), (123_456, 7)] {
        assert_eq!(heading_error(a, b), -heading_error(b, a));
    }
    assert_eq!(heading_error(90_000, 270_000), heading_error(270_000, 90_000));
}
