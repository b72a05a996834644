//! A PWM channel held in memory: it records the duty cycle last written.

use vstd::prelude::*;
use crate::error::HardwareError;

verus! {

/// The duty cycle of a channel that was opened and not written yet: one
/// half, in parts per billion.
pub const INITIAL_DUTY_PPB: u32 = 500_000_000;

/// The channel: its pin, the duty cycle last written and whether its output
/// is switched on.
#[derive(Clone, Copy, Debug)]
pub struct Pwm {
    pin: u8,
    duty_ppb: u32,
    enabled: bool,
}

impl Pwm {
    /// The pin the channel was opened on.
    pub closed spec fn pin_number(&self) -> u8 {
        self.pin
    }

    /// The duty cycle last written, in parts per billion.
    pub closed spec fn duty(&self) -> u32 {
        self.duty_ppb
    }

    /// Whether the output is switched on.
    pub closed spec fn enabled(&self) -> bool {
        self.enabled
    }

    /// Opens the channel on `pin`, switched on, at `INITIAL_DUTY_PPB`. It
    /// never fails.
    pub fn new(pin: u8) -> (r: Result<Pwm, HardwareError>)
        ensures
            r is Ok,
            r->Ok_0.pin_number() == pin,
            r->Ok_0.duty() == INITIAL_DUTY_PPB,
            r->Ok_0.enabled(),
    {
        Ok(Pwm { pin, duty_ppb: INITIAL_DUTY_PPB, enabled: true })
    }

    /// Writes the duty cycle, in parts per billion.
    pub fn set_duty_cycle(&mut self, duty_ppb: u32)
        ensures
            final(self).duty() == duty_ppb,
            final(self).pin_number() == old(self).pin_number(),
            final(self).enabled() == old(self).enabled(),
        no_unwind
    {
        self.duty_ppb = duty_ppb;
    }

    /// Switches the output off; the duty cycle last written is kept. It
    /// never fails.
    pub fn disable(&mut self) -> (r: Result<(), HardwareError>)
        ensures
            r is Ok,
            !final(self).enabled(),
            final(self).duty() == old(self).duty(),
            final(self).pin_number() == old(self).pin_number(),
        no_unwind
    {
        self.enabled = false;
        Ok(())
    }

    /// Whether the output is switched on.
    pub fn is_enabled(&self) -> (r: bool)
        ensures
            r == self.enabled(),
    {
        self.enabled
    }
}

/// The duty cycle last written to the channel, in parts per billion.
pub fn get_mock_duty_cycle(pwm: &Pwm) -> (r: u32)
    ensures
        r == pwm.duty(),
{
    pwm.duty_ppb
}

} // verus!
