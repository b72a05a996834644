//! A bank of input lines held in memory. Each line reads high until a level
//! is injected for it, as a pulled-up input with nothing attached does.

use std::collections::HashMap;
use vstd::prelude::*;
use crate::error::HardwareError;

verus! {

/// The logic level of a line.
#[derive(Debug, Clone, Copy, PartialEq, Eq, Structural)]
pub enum Level {
    Low,
    High,
}

/// The bank: the levels that were set, by line number.
pub struct Gpio {
    levels: HashMap<u8, Level>,
}

/// A line of the bank that has not been configured yet.
pub struct Pin {
    pin: u8,
}

/// A line of the bank configured as a pulled-up input.
pub struct InputPin {
    pin: u8,
}

impl View for Gpio {
    type V = Map<u8, Level>;

    /// The levels that were set, by line number.
    closed spec fn view(&self) -> Map<u8, Level> {
        self.levels@
    }
}

impl Gpio {
    /// The level that line `pin` reads: the one set for it, else high.
    pub open spec fn level_at(&self, pin: u8) -> Level {
        if self@.contains_key(pin) {
            self@[pin]
        } else {
            Level::High
        }
    }

    /// An empty bank: every line reads high. It never fails.
    pub fn new() -> (r: Result<Gpio, HardwareError>)
        ensures
            r is Ok,
            r->Ok_0@ == Map::<u8, Level>::empty(),
    {
        Ok(Gpio { levels: HashMap::new() })
    }

    /// The level that line `pin` reads.
    pub fn level(&self, pin: u8) -> (r: Level)
        ensures
            r == self.level_at(pin),
    {
        match self.levels.get(&pin) {
            Some(level) => *level,
            None => Level::High,
        }
    }

    /// Hands out line `pin`. It never fails, and the bank is not changed.
    pub fn get(&self, pin: u8) -> (r: Result<Pin, HardwareError>)
        ensures
            r is Ok,
            r->Ok_0.number() == pin,
    {
        Ok(Pin { pin })
    }
}

impl Pin {
    /// The number of the line.
    pub closed spec fn number(&self) -> u8 {
        self.pin
    }

    /// Configures the line as a pulled-up input: it reads high from now on,
    /// until a level is injected.
    pub fn into_input_pullup(self, gpio: &mut Gpio) -> (r: InputPin)
        ensures
            r.number() == self.number(),
            final(gpio)@ == old(gpio)@.insert(self.number(), Level::High),
    {
        gpio.levels.insert(self.pin, Level::High);
        InputPin { pin: self.pin }
    }
}

impl InputPin {
    /// The number of the line.
    pub closed spec fn number(&self) -> u8 {
        self.pin
    }

    /// The number of the line.
    pub fn pin(&self) -> (r: u8)
        ensures
            r == self.number(),
    {
        self.pin
    }

    /// Reads the line's level from the bank.
    pub fn read(&self, gpio: &Gpio) -> (r: Level)
        ensures
            r == gpio.level_at(self.number()),
    {
        gpio.level(self.pin)
    }
}

/// Injects `level` on line `pin`; every other line keeps its level.
pub fn set_mock_pin_level(gpio: &mut Gpio, pin: u8, level: Level)
    ensures
        final(gpio)@ == old(gpio)@.insert(pin, level),
        final(gpio).level_at(pin) == level,
        forall|other: u8| other != pin ==> final(gpio).level_at(other) == old(gpio).level_at(other),
{
    gpio.levels.insert(pin, level);
}

/// Forgets every injected level: all lines read high again.
pub fn reset_mock_pins(gpio: &mut Gpio)
    ensures
        final(gpio)@ == Map::<u8, Level>::empty(),
        forall|pin: u8| final(gpio).level_at(pin) == Level::High,
{
    gpio.levels.clear();
}

} // verus!
