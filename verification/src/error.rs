//! The faults a hardware-facing constructor can report.

use vstd::prelude::*;
use vstd::string::*;

verus! {

/// Why a subsystem could not be brought up.
#[derive(Clone, Copy, Debug, PartialEq, Eq, Structural)]
pub enum HardwareError {
    /// The pin carries no hardware PWM channel.
    InvalidPin,
    /// The tuning parameters contradict each other.
    InvalidConfig,
}

impl HardwareError {
    /// The text of the fault.
    pub open spec fn message_of(self) -> Seq<char> {
        match self {
            HardwareError::InvalidPin => "Invalid PWM pin. Use 12, 13, 18, or 19"@,
            HardwareError::InvalidConfig => "Invalid configuration"@,
        }
    }

    /// The text of the fault.
    pub fn message(&self) -> (r: &'static str)
        ensures
            r@ == self.message_of(),
    {
        match self {
            HardwareError::InvalidPin => "Invalid PWM pin. Use 12, 13, 18, or 19",
            HardwareError::InvalidConfig => "Invalid configuration",
        }
    }

    /// The fault as it is displayed: its text, as an owned string.
    pub fn to_string(&self) -> (r: String)
        ensures
            r@ == self.message_of(),
    {
        self.message().to_owned()
    }
}

} // verus!
