//! In-memory stand-ins for the hardware lines, for deterministic runs.

pub mod mock_gpio;
pub mod mock_pwm;
