//! The pilot's three-way toggle and the heading command it steers: a target
//! heading kept as an offset from the live GPS heading.

use vstd::prelude::*;
use vstd::arithmetic::div_mod::{lemma_add_mod_noop, lemma_mod_twice};
use crate::angle::{clamp_to, magnitude, normalize, normalize_heading, FULL_TURN};
use crate::config::SwitchConfig;
use crate::error::HardwareError;
use crate::mocks::mock_gpio::{Gpio, InputPin, Level};

verus! {

/// Where the three-way toggle stands.
#[derive(Debug, PartialEq, Eq, Clone, Copy, Structural)]
pub enum SwitchPosition {
    Left,
    Neutral,
    Right,
}

/// The position that the two contacts of the toggle spell out. A contact is
/// closed when its line is low; both closed, or neither, is neutral.
pub open spec fn switch_position(left: Level, right: Level) -> SwitchPosition {
    if left == Level::Low && right != Level::Low {
        SwitchPosition::Left
    } else if right == Level::Low && left != Level::Low {
        SwitchPosition::Right
    } else {
        SwitchPosition::Neutral
    }
}

/// The heading command as plain values: the toggle position seen last, the
/// GPS heading seen last (normalized, absent before the first one), and the
/// pilot's offset from it.
pub struct Command {
    pub position: SwitchPosition,
    pub gps_heading: Option<int>,
    pub offset: int,
}

/// The offset after `delta` is asked for: their sum, held to `[-max, max]`.
pub open spec fn offset_after(offset: int, delta: int, max: int) -> int {
    clamp_to(offset + delta, -max, max)
}

/// Whether `delta` can be added to the offset in full.
pub open spec fn offset_fits(offset: int, delta: int, max: int) -> bool {
    magnitude(offset + delta) <= max
}

/// What the toggle adds to the offset when it arrives at `position`.
pub open spec fn toggle_step(config: SwitchConfig, position: SwitchPosition) -> int {
    match position {
        SwitchPosition::Left => config.adjust_left as int,
        SwitchPosition::Right => config.adjust_right as int,
        SwitchPosition::Neutral => 0,
    }
}

impl Command {
    /// The command before anything was seen: toggle neutral, no heading,
    /// offset zero.
    pub open spec fn initial() -> Command {
        Command { position: SwitchPosition::Neutral, gps_heading: None, offset: 0 }
    }

    /// The heading to steer: the GPS heading plus the offset, normalized;
    /// absent until a GPS heading was seen.
    pub open spec fn target(self) -> Option<int> {
        match self.gps_heading {
            Some(heading) => Some(normalize(heading + self.offset)),
            None => None,
        }
    }

    /// The command after a GPS heading arrives: it replaces the last one,
    /// normalized; toggle and offset stay.
    pub open spec fn with_gps_heading(self, heading: int) -> Command {
        Command { gps_heading: Some(normalize(heading)), ..self }
    }

    /// The command after `delta` is asked for.
    pub open spec fn adjusted(self, delta: int, max: int) -> Command {
        Command { offset: offset_after(self.offset, delta, max), ..self }
    }

    /// Whether the toggle, read at `position`, has moved.
    pub open spec fn is_edge(self, position: SwitchPosition) -> bool {
        position != self.position
    }

    /// The command after the toggle is read at `position`. The position is
    /// remembered in any case. The offset moves only on an edge, by the
    /// step of the position arrived at, and only once a GPS heading is
    /// there.
    pub open spec fn polled(self, config: SwitchConfig, position: SwitchPosition) -> Command {
        if self.is_edge(position) && self.gps_heading is Some {
            Command {
                position,
                gps_heading: self.gps_heading,
                offset: offset_after(
                    self.offset,
                    toggle_step(config, position),
                    config.max_offset as int,
                ),
            }
        } else {
            Command { position, ..self }
        }
    }

    /// Whether reading the toggle at `position` is reported as a change: an
    /// edge, with a GPS heading there.
    pub open spec fn reports(self, position: SwitchPosition) -> bool {
        self.is_edge(position) && self.gps_heading is Some
    }
}

/// The toggle's two input lines and the heading command.
pub struct UserInterface {
    toggle_left: InputPin,
    toggle_right: InputPin,
    config: SwitchConfig,
    gps_heading: Option<i32>,
    offset: i32,
    last_toggle_position: SwitchPosition,
}

impl View for UserInterface {
    type V = Command;

    closed spec fn view(&self) -> Command {
        Command {
            position: self.last_toggle_position,
            gps_heading: match self.gps_heading {
                Some(heading) => Some(heading as int),
                None => None,
            },
            offset: self.offset as int,
        }
    }
}

/// Reads the position off the levels of the two contacts.
pub fn decode_switch(left: Level, right: Level) -> (r: SwitchPosition)
    ensures
        r == switch_position(left, right),
{
    let left_active = left == Level::Low;
    let right_active = right == Level::Low;
    if left_active && !right_active {
        SwitchPosition::Left
    } else if right_active && !left_active {
        SwitchPosition::Right
    } else {
        SwitchPosition::Neutral
    }
}

impl UserInterface {
    #[verifier::type_invariant]
    spec fn inv(self) -> bool {
        &&& self.config.valid()
        &&& -self.config.max_offset <= self.offset <= self.config.max_offset
        &&& self.gps_heading matches Some(heading) ==> 0 <= heading < FULL_TURN
        &&& self.toggle_left.number() == self.config.left_pin
        &&& self.toggle_right.number() == self.config.right_pin
    }

    /// The configuration the interface was made with.
    pub closed spec fn config(&self) -> SwitchConfig {
        self.config
    }

    /// The interface on the default lines, with the default steps.
    pub fn new(gpio: &mut Gpio) -> (r: Result<UserInterface, HardwareError>)
        ensures
            r is Ok,
            r->Ok_0@ == Command::initial(),
            r->Ok_0.config() == SwitchConfig::defaults(),
            final(gpio)@ == old(gpio)@.insert(SwitchConfig::defaults().left_pin, Level::High).insert(
                SwitchConfig::defaults().right_pin,
                Level::High,
            ),
    {
        UserInterface::with_config(gpio, SwitchConfig::default())
    }

    /// The interface on the lines `toggle_left_pin` and `toggle_right_pin`,
    /// with the default steps.
    pub fn with_pins(gpio: &mut Gpio, toggle_left_pin: u8, toggle_right_pin: u8) -> (r: Result<
        UserInterface,
        HardwareError,
    >)
        ensures
            r is Ok,
            r->Ok_0@ == Command::initial(),
            r->Ok_0.config() == (SwitchConfig {
                left_pin: toggle_left_pin,
                right_pin: toggle_right_pin,
                ..SwitchConfig::defaults()
            }),
            final(gpio)@ == old(gpio)@.insert(toggle_left_pin, Level::High).insert(
                toggle_right_pin,
                Level::High,
            ),
    {
        let defaults = SwitchConfig::default();
        let config = SwitchConfig {
            left_pin: toggle_left_pin,
            right_pin: toggle_right_pin,
            adjust_left: defaults.adjust_left,
            adjust_right: defaults.adjust_right,
            max_offset: defaults.max_offset,
        };
        UserInterface::with_config(gpio, config)
    }

    /// The interface that `config` describes. Both lines become pulled-up
    /// inputs. It fails exactly when the configuration is not usable, and
    /// then the bank is left as it was.
    pub fn with_config(gpio: &mut Gpio, config: SwitchConfig) -> (r: Result<
        UserInterface,
        HardwareError,
    >)
        ensures
            r is Ok <==> config.valid(),
            r matches Ok(ui) ==> {
                &&& ui@ == Command::initial()
                &&& ui.config() == config
                &&& final(gpio)@ == old(gpio)@.insert(config.left_pin, Level::High).insert(
                    config.right_pin,
                    Level::High,
                )
            },
            r matches Err(e) ==> e == HardwareError::InvalidConfig && final(gpio)@ == old(gpio)@,
    {
        if !config.is_valid() {
            return Err(HardwareError::InvalidConfig);
        }
        let left = match gpio.get(config.left_pin) {
            Ok(pin) => pin,
            Err(e) => {
                return Err(e);
            },
        };
        let toggle_left = left.into_input_pullup(gpio);
        let right = match gpio.get(config.right_pin) {
            Ok(pin) => pin,
            Err(e) => {
                return Err(e);
            },
        };
        let toggle_right = right.into_input_pullup(gpio);
        Ok(
            UserInterface {
                toggle_left,
                toggle_right,
                config,
                gps_heading: None,
                offset: 0,
                last_toggle_position: SwitchPosition::Neutral,
            },
        )
    }

    /// Where the toggle stands now, read off the bank.
    pub fn read_toggle_switch(&self, gpio: &Gpio) -> (r: SwitchPosition)
        ensures
            r == switch_position(
                gpio.level_at(self.config().left_pin),
                gpio.level_at(self.config().right_pin),
            ),
    {
        proof {
            use_type_invariant(self);
        }
        decode_switch(self.toggle_left.read(gpio), self.toggle_right.read(gpio))
    }

    /// Where the toggle stood when it was read last.
    pub fn get_toggle_position(&self) -> (r: SwitchPosition)
        ensures
            r == self@.position,
    {
        self.last_toggle_position
    }

    /// Takes in the live GPS heading, normalized. The offset stays.
    pub fn set_heading(&mut self, heading: i32)
        ensures
            final(self)@ == old(self)@.with_gps_heading(heading as int),
            final(self).config() == old(self).config(),
    {
        proof {
            use_type_invariant(&*self);
        }
        self.gps_heading = Some(normalize_heading(heading));
    }

    /// The heading to steer: GPS heading plus offset, normalized; absent
    /// until a GPS heading was taken in.
    pub fn get_heading(&self) -> (r: Option<i32>)
        ensures
            r is Some <==> self@.target() is Some,
            r matches Some(target) ==> self@.target() == Some(target as int) && 0 <= target
                < FULL_TURN,
    {
        proof {
            use_type_invariant(self);
        }
        match self.gps_heading {
            Some(heading) => {
                let sum: i64 = heading as i64 + self.offset as i64;
                let rem: i64 = sum % (FULL_TURN as i64);
                let target: i64 = if rem < 0 {
                    rem + FULL_TURN as i64
                } else {
                    rem
                };
                Some(target as i32)
            },
            None => None,
        }
    }

    /// Whether a GPS heading was taken in.
    pub fn has_heading(&self) -> (r: bool)
        ensures
            r == (self@.gps_heading is Some),
    {
        self.gps_heading.is_some()
    }

    /// The GPS heading taken in last, normalized.
    pub fn get_gps_heading(&self) -> (r: Option<i32>)
        ensures
            r is Some <==> self@.gps_heading is Some,
            r matches Some(heading) ==> self@.gps_heading == Some(heading as int) && 0 <= heading
                < FULL_TURN,
    {
        proof {
            use_type_invariant(self);
        }
        self.gps_heading
    }

    /// The pilot's offset from the GPS heading.
    pub fn get_offset(&self) -> (r: i32)
        ensures
            r == self@.offset,
            -self.config().max_offset <= r <= self.config().max_offset,
    {
        proof {
            use_type_invariant(self);
        }
        self.offset
    }

    /// Adds `delta` to the offset. Where the sum would leave
    /// `[-max_offset, max_offset]` it is held to the nearer bound and the
    /// result is `false`; else the result is `true`.
    pub fn adjust_offset(&mut self, delta: i32) -> (applied: bool)
        ensures
            final(self)@ == old(self)@.adjusted(delta as int, old(self).config().max_offset as int),
            applied == offset_fits(
                old(self)@.offset,
                delta as int,
                old(self).config().max_offset as int,
            ),
            final(self).config() == old(self).config(),
    {
        proof {
            use_type_invariant(&*self);
        }
        let max: i64 = self.config.max_offset as i64;
        let candidate: i64 = self.offset as i64 + delta as i64;
        if candidate > max {
            self.offset = self.config.max_offset;
            false
        } else if candidate < -max {
            self.offset = -self.config.max_offset;
            false
        } else {
            self.offset = candidate as i32;
            true
        }
    }

    /// Takes in one reading of the toggle. An edge into left or right moves
    /// the offset by that side's step, once a GPS heading is there; holding
    /// the toggle moves nothing. The result says whether there was an edge
    /// with a GPS heading there.
    pub fn process_toggle(&mut self, position: SwitchPosition) -> (changed: bool)
        ensures
            final(self)@ == old(self)@.polled(old(self).config(), position),
            changed == old(self)@.reports(position),
            final(self).config() == old(self).config(),
    {
        proof {
            use_type_invariant(&*self);
        }
        let position_changed = position != self.last_toggle_position;
        if position_changed {
            self.last_toggle_position = position;
            if self.gps_heading.is_some() {
                match position {
                    SwitchPosition::Left => {
                        let step: i32 = self.config.adjust_left;
                        self.adjust_offset(step);
                    },
                    SwitchPosition::Right => {
                        let step: i32 = self.config.adjust_right;
                        self.adjust_offset(step);
                    },
                    SwitchPosition::Neutral => {},
                }
            }
        }
        position_changed && self.gps_heading.is_some()
    }

    /// Polls the toggle on the bank and takes the reading in. It never
    /// fails.
    pub fn update(&mut self, gpio: &Gpio) -> (r: Result<bool, HardwareError>)
        ensures
            r is Ok,
            final(self)@ == old(self)@.polled(
                old(self).config(),
                switch_position(
                    gpio.level_at(old(self).config().left_pin),
                    gpio.level_at(old(self).config().right_pin),
                ),
            ),
            r->Ok_0 == old(self)@.reports(
                switch_position(
                    gpio.level_at(old(self).config().left_pin),
                    gpio.level_at(old(self).config().right_pin),
                ),
            ),
            final(self).config() == old(self).config(),
    {
        let position = self.read_toggle_switch(gpio);
        Ok(self.process_toggle(position))
    }
}

/// The offset after `delta` was asked for `count` times in a row.
pub open spec fn offset_after_pushes(offset: int, delta: int, max: int, count: nat) -> int
    decreases count,
{
    if count == 0 {
        offset
    } else {
        offset_after(offset_after_pushes(offset, delta, max, (count - 1) as nat), delta, max)
    }
}

/// An offset within its bound stays within it whatever is asked for. What
/// fits is added in full; what does not fit leaves the offset at the bound
/// on the side that was asked for.
pub proof fn lemma_offset_stays_bounded(offset: int, delta: int, max: int)
    requires
        -max <= offset <= max,
    ensures
        -max <= offset_after(offset, delta, max) <= max,
        offset_fits(offset, delta, max) ==> offset_after(offset, delta, max) == offset + delta,
        !offset_fits(offset, delta, max) && delta > 0 ==> offset_after(offset, delta, max) == max,
        !offset_fits(offset, delta, max) && delta < 0 ==> offset_after(offset, delta, max) == -max,
{
}

/// Pushing the same way again and again adds up until the bound is reached
/// and stays there: after `count` pushes of a `delta` that is not negative
/// the offset is the sum, or the bound where the sum is beyond it.
pub proof fn lemma_pushes_saturate(offset: int, delta: int, max: int, count: nat)
    requires
        -max <= offset <= max,
        delta >= 0,
    ensures
        offset_after_pushes(offset, delta, max, count) == if offset + count * delta > max {
            max
        } else {
            offset + count * delta
        },
    decreases count,
{
    if count > 0 {
        let before = (count - 1) as nat;
        lemma_pushes_saturate(offset, delta, max, before);
        assert(count * delta == before * delta + delta) by (nonlinear_arith)
            requires
                before == count - 1,
        ;
        assert(before * delta >= 0) by (nonlinear_arith)
            requires
                delta >= 0,
        ;
    } else {
        assert(count * delta == 0) by (nonlinear_arith)
            requires
                count == 0,
        ;
    }
}

/// The target follows the GPS heading at the distance of the offset. A new
/// GPS heading leaves toggle and offset as they are, and the target is then
/// the new heading plus the offset, normalized; with no offset it is the
/// new heading itself, normalized.
pub proof fn lemma_target_follows_gps(command: Command, heading: int)
    ensures
        command.with_gps_heading(heading).offset == command.offset,
        command.with_gps_heading(heading).position == command.position,
        command.with_gps_heading(heading).target() == Some(normalize(heading + command.offset)),
        command.offset == 0 ==> command.with_gps_heading(heading).target() == Some(
            normalize(heading),
        ),
        command.gps_heading is None ==> command.target() is None,
{
    lemma_add_mod_noop(heading, command.offset, FULL_TURN as int);
    lemma_add_mod_noop(normalize(heading), command.offset, FULL_TURN as int);
    lemma_mod_twice(heading, FULL_TURN as int);
}

/// A toggle that is held fires once. Reading the same position a second
/// time changes nothing and reports nothing.
pub proof fn lemma_held_toggle_is_idle(
    command: Command,
    config: SwitchConfig,
    position: SwitchPosition,
)
    ensures
        command.polled(config, position).polled(config, position) == command.polled(
            config,
            position,
        ),
        !command.polled(config, position).reports(position),
        !command.is_edge(position) ==> command.polled(config, position) == command,
{
}

/// What a reading of the toggle can do. The position read is remembered
/// and the GPS heading is not touched. The offset moves only on an edge
/// into left or right with a GPS heading there, by the step of that side
/// as far as the bound allows; before the first GPS heading, and on an edge
/// into neutral, it stays.
pub proof fn lemma_toggle_moves_offset(
    command: Command,
    config: SwitchConfig,
    position: SwitchPosition,
)
    ensures
        command.polled(config, position).position == position,
        command.polled(config, position).gps_heading == command.gps_heading,
        command.reports(position) ==> command.polled(config, position).offset == offset_after(
            command.offset,
            toggle_step(config, position),
            config.max_offset as int,
        ),
        !command.reports(position) ==> command.polled(config, position).offset == command.offset,
        position == SwitchPosition::Neutral && -config.max_offset <= command.offset
            <= config.max_offset ==> command.polled(config, position).offset == command.offset,
{
}

} // verus!
