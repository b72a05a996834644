//! The decisions of the control loop: when the track is good enough to
//! start, what one cycle does to the heading command and the actuator, and
//! what of it is worth telling the operator. The loop itself, with its
//! clock and its hardware, is the caller's.

use vstd::prelude::*;
use vstd::arithmetic::div_mod::{
    lemma_add_mod_noop, lemma_mod_multiples_vanish, lemma_mod_twice, lemma_small_mod,
};
use crate::angle::{heading_error_of, magnitude, normalize, FULL_TURN, HALF_TURN};
use crate::config::{SteeringConfig, SwitchConfig, SERVO_UPDATE_INTERVAL_MS};
use crate::gpio_input::{
    lemma_target_follows_gps, switch_position, Command, SwitchPosition, UserInterface,
};
use crate::gps_tracker::{GpsTracker, Track};
use crate::mocks::mock_gpio::Gpio;
use crate::pwm::{Actuator, ServoController};

verus! {

/// A correction is announced when it differs from the one announced last by
/// more than this.
pub const ANNOUNCE_CHANGE: i32 = 500;

/// A correction smaller than this is not worth a line.
pub const ANNOUNCE_FLOOR: i32 = 100;

/// While waiting for the first fix, progress is shown every so many
/// attempts.
pub const PROGRESS_EVERY: u32 = 6;

/// While waiting for the first fix, a reminder is shown at this attempt.
pub const REMINDER_AT: u32 = 60;

/// What to show after an attempt to find the first fix has failed.
#[derive(Clone, Copy, Debug, PartialEq, Eq, Structural)]
pub struct WaitNotice {
    pub progress: bool,
    pub reminder: bool,
}

/// What the steering part of a cycle did: whether its timer starts over,
/// the angle that was applied if the servo was driven, and whether that
/// angle is to be shown.
#[derive(Clone, Copy, Debug, PartialEq, Eq, Structural)]
pub struct SteeringOutcome {
    pub timer_reset: bool,
    pub correction: Option<i32>,
    pub announce: bool,
}

/// What one whole cycle did: whether a GPS heading was taken in, whether
/// the toggle reported a change, the target after it, and the steering
/// part.
#[derive(Clone, Copy, Debug, PartialEq, Eq, Structural)]
pub struct CycleReport {
    pub heading_seen: bool,
    pub toggle_changed: bool,
    pub target: Option<i32>,
    pub steering: SteeringOutcome,
}

/// The notice due after `attempts` failed attempts.
pub open spec fn notice_after(attempts: u32) -> WaitNotice {
    WaitNotice {
        progress: attempts % PROGRESS_EVERY == 0,
        reminder: attempts == REMINDER_AT,
    }
}

/// The command after the track's heading, if it has one, was taken in.
pub open spec fn synced(command: Command, track: Track) -> Command {
    match track.heading {
        Some(heading) => command.with_gps_heading(heading as int),
        None => command,
    }
}

/// Where the toggle of an interface made with `config` stands on the bank.
pub open spec fn toggle_reading(
    config: SwitchConfig,
    gpio: &Gpio,
) -> SwitchPosition {
    switch_position(gpio.level_at(config.left_pin), gpio.level_at(config.right_pin))
}

/// The command after one cycle: the track's heading is taken in, then the
/// toggle is read.
pub open spec fn cycle_command(
    command: Command,
    config: SwitchConfig,
    track: Track,
    gpio: &Gpio,
) -> Command {
    synced(command, track).polled(config, toggle_reading(config, gpio))
}

/// Target and live heading for the steering part of a cycle: both are
/// there, and the interval has elapsed.
pub open spec fn steering_inputs(command: Command, track: Track, elapsed_ms: int) -> Option<
    (int, int),
> {
    if elapsed_ms >= SERVO_UPDATE_INTERVAL_MS {
        match (command.target(), track.heading) {
            (Some(target), Some(heading)) => Some((target, heading as int)),
            _ => None,
        }
    } else {
        None
    }
}

/// Whether a correction differs enough from the one remembered to replace
/// it.
pub open spec fn correction_moved(correction: int, last: int) -> bool {
    magnitude(correction - last) > ANNOUNCE_CHANGE
}

/// Whether a correction is shown: it has moved, and it is not negligible.
pub open spec fn correction_announced(correction: int, last: int) -> bool {
    correction_moved(correction, last) && magnitude(correction) > ANNOUNCE_FLOOR
}

/// The actuator after the steering part of a cycle.
pub open spec fn steering_actuator(
    actuator: Actuator,
    config: SteeringConfig,
    inputs: Option<(int, int)>,
    elapsed_ms: int,
) -> Actuator {
    match inputs {
        Some((target, heading)) => actuator.steered(config, target, heading, elapsed_ms),
        None => actuator,
    }
}

/// The angle that the steering part of a cycle applies, if it steers.
pub open spec fn steering_angle(
    actuator: Actuator,
    config: SteeringConfig,
    inputs: Option<(int, int)>,
    elapsed_ms: int,
) -> Option<int> {
    match inputs {
        Some((target, heading)) => Some(actuator.steer_angle(config, target, heading, elapsed_ms)),
        None => None,
    }
}

/// The correction remembered for the operator after `applied`: the new one
/// where it has moved far enough, else the old one.
pub open spec fn remembered_correction(last: int, applied: Option<int>) -> int {
    match applied {
        Some(correction) => if correction_moved(correction, last) {
            correction
        } else {
            last
        },
        None => last,
    }
}

/// Whether the steering part of a cycle has something to show.
pub open spec fn steering_announced(last: int, applied: Option<int>) -> bool {
    match applied {
        Some(correction) => correction_announced(correction, last),
        None => false,
    }
}

/// Whether an interval of `interval_ms` is over once `elapsed_ms` have gone
/// by.
pub fn interval_elapsed(elapsed_ms: u32, interval_ms: u32) -> (r: bool)
    ensures
        r == (elapsed_ms >= interval_ms),
{
    elapsed_ms >= interval_ms
}

/// Says what to show after `attempts` failed attempts to find the first
/// fix.
pub fn wait_notice(attempts: u32) -> (r: WaitNotice)
    ensures
        r == notice_after(attempts),
{
    WaitNotice { progress: attempts % PROGRESS_EVERY == 0, reminder: attempts == REMINDER_AT }
}

/// Looks for the first fix. The fix is there once the track has a position;
/// the track's heading, if it has one by then, becomes the GPS heading of
/// the command. Without a position nothing is touched.
pub fn acquire_fix(tracker: &GpsTracker, ui: &mut UserInterface) -> (acquired: bool)
    ensures
        acquired == (tracker@.position is Some),
        final(ui)@ == if acquired {
            synced(old(ui)@, tracker@)
        } else {
            old(ui)@
        },
        final(ui).config() == old(ui).config(),
{
    if tracker.get_current_position().is_none() {
        return false;
    }
    match tracker.get_current_heading() {
        Some(heading) => {
            ui.set_heading(heading);
        },
        None => {},
    }
    true
}

/// Takes the track's heading in as the GPS heading of the command, so that
/// the offset stays relative to the course as it moves. The result says
/// whether the track had a heading.
pub fn sync_heading(tracker: &GpsTracker, ui: &mut UserInterface) -> (seen: bool)
    ensures
        seen == (tracker@.heading is Some),
        final(ui)@ == synced(old(ui)@, tracker@),
        final(ui).config() == old(ui).config(),
{
    match tracker.get_current_heading() {
        Some(heading) => {
            ui.set_heading(heading);
            true
        },
        None => false,
    }
}

/// The steering part of a cycle, `elapsed_ms` after the last one that ran.
/// Before the interval has elapsed nothing happens. After it the timer
/// starts over, and where the command has a target and the track a heading
/// the servo is steered by them. The correction remembered for the
/// operator is replaced where the new one has moved far enough from it.
pub fn apply_servo_correction(
    tracker: &GpsTracker,
    ui: &UserInterface,
    servo: &mut ServoController,
    elapsed_ms: u32,
    last_correction: &mut i32,
) -> (outcome: SteeringOutcome)
    ensures
        outcome.timer_reset == (elapsed_ms >= SERVO_UPDATE_INTERVAL_MS),
        final(servo).config() == old(servo).config(),
        final(servo).pin() == old(servo).pin(),
        final(servo)@ == steering_actuator(
            old(servo)@,
            old(servo).config(),
            steering_inputs(ui@, tracker@, elapsed_ms as int),
            elapsed_ms as int,
        ),
        outcome.correction is Some <==> steering_inputs(ui@, tracker@, elapsed_ms as int) is Some,
        outcome.correction matches Some(correction) ==> steering_angle(
            old(servo)@,
            old(servo).config(),
            steering_inputs(ui@, tracker@, elapsed_ms as int),
            elapsed_ms as int,
        ) == Some(correction as int),
        outcome.announce == steering_announced(
            *old(last_correction) as int,
            steering_angle(
                old(servo)@,
                old(servo).config(),
                steering_inputs(ui@, tracker@, elapsed_ms as int),
                elapsed_ms as int,
            ),
        ),
        *final(last_correction) == remembered_correction(
            *old(last_correction) as int,
            steering_angle(
                old(servo)@,
                old(servo).config(),
                steering_inputs(ui@, tracker@, elapsed_ms as int),
                elapsed_ms as int,
            ),
        ),
{
    let idle = SteeringOutcome { timer_reset: false, correction: None, announce: false };
    if !interval_elapsed(elapsed_ms, SERVO_UPDATE_INTERVAL_MS) {
        return idle;
    }
    let waiting = SteeringOutcome { timer_reset: true, correction: None, announce: false };
    let target: i32 = match ui.get_heading() {
        Some(target) => target,
        None => {
            return waiting;
        },
    };
    let heading: i32 = match tracker.get_current_heading() {
        Some(heading) => heading,
        None => {
            return waiting;
        },
    };
    let correction: i32 = match servo.auto_steer(target, heading, elapsed_ms) {
        Ok(correction) => correction,
        Err(_) => {
            return waiting;
        },
    };
    let change: i64 = correction as i64 - *last_correction as i64;
    let moved = change > ANNOUNCE_CHANGE as i64 || -change > ANNOUNCE_CHANGE as i64;
    let size: i64 = if correction < 0 {
        -(correction as i64)
    } else {
        correction as i64
    };
    if moved {
        *last_correction = correction;
    }
    SteeringOutcome {
        timer_reset: true,
        correction: Some(correction),
        announce: moved && size > ANNOUNCE_FLOOR as i64,
    }
}

/// One cycle of the control loop: the track's heading is taken in, the
/// toggle is polled on the bank, and the servo is steered if its interval
/// has elapsed.
pub fn control_cycle(
    tracker: &GpsTracker,
    ui: &mut UserInterface,
    gpio: &Gpio,
    servo: &mut ServoController,
    elapsed_ms: u32,
    last_correction: &mut i32,
) -> (report: CycleReport)
    ensures
        report.heading_seen == (tracker@.heading is Some),
        final(ui)@ == cycle_command(old(ui)@, old(ui).config(), tracker@, gpio),
        final(ui).config() == old(ui).config(),
        report.toggle_changed == synced(old(ui)@, tracker@).reports(
            toggle_reading(old(ui).config(), gpio),
        ),
        report.target is Some <==> final(ui)@.target() is Some,
        report.target matches Some(target) ==> final(ui)@.target() == Some(target as int),
        final(servo).config() == old(servo).config(),
        final(servo).pin() == old(servo).pin(),
        report.steering.timer_reset == (elapsed_ms >= SERVO_UPDATE_INTERVAL_MS),
        final(servo)@ == steering_actuator(
            old(servo)@,
            old(servo).config(),
            steering_inputs(final(ui)@, tracker@, elapsed_ms as int),
            elapsed_ms as int,
        ),
        report.steering.correction is Some <==> steering_inputs(
            final(ui)@,
            tracker@,
            elapsed_ms as int,
        ) is Some,
        report.steering.correction matches Some(correction) ==> steering_angle(
            old(servo)@,
            old(servo).config(),
            steering_inputs(final(ui)@, tracker@, elapsed_ms as int),
            elapsed_ms as int,
        ) == Some(correction as int),
        report.steering.announce == steering_announced(
            *old(last_correction) as int,
            steering_angle(
                old(servo)@,
                old(servo).config(),
                steering_inputs(final(ui)@, tracker@, elapsed_ms as int),
                elapsed_ms as int,
            ),
        ),
        *final(last_correction) == remembered_correction(
            *old(last_correction) as int,
            steering_angle(
                old(servo)@,
                old(servo).config(),
                steering_inputs(final(ui)@, tracker@, elapsed_ms as int),
                elapsed_ms as int,
            ),
        ),
{
    let heading_seen = sync_heading(tracker, ui);
    let toggle_changed = match ui.update(gpio) {
        Ok(changed) => changed,
        Err(_) => false,
    };
    let target = ui.get_heading();
    let steering = apply_servo_correction(tracker, ui, servo, elapsed_ms, last_correction);
    CycleReport { heading_seen, toggle_changed, target, steering }
}

/// While the command is kept in step with the track, the error that the
/// servo is steered by is the offset turned round: the track's heading,
/// normalized, lies behind the target by the offset exactly.
pub proof fn lemma_error_is_offset(command: Command, track: Track)
    requires
        track.heading is Some,
        -HALF_TURN < command.offset < HALF_TURN,
    ensures
        synced(command, track).target() matches Some(target) && heading_error_of(
            target,
            normalize(track.heading->Some_0 as int),
        ) == -command.offset,
{
    let heading = track.heading->Some_0 as int;
    let base = normalize(heading);
    let full = FULL_TURN as int;
    let target = normalize(heading + command.offset);
    lemma_target_follows_gps(command, heading);
    lemma_add_mod_noop(heading, command.offset, full);
    lemma_mod_twice(heading, full);
    assert(target == (base + command.offset) % full) by {
        lemma_add_mod_noop(base, command.offset, full);
        lemma_small_mod(base as nat, full as nat);
    }
    if base + command.offset >= full {
        lemma_mod_multiples_vanish(-1, base + command.offset, full);
    } else if base + command.offset < 0 {
        lemma_mod_multiples_vanish(1, base + command.offset, full);
    }
}

} // verus!
