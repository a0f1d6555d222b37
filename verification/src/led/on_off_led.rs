//! A plain LED on a GPIO pin: off, on, or blinking with equal on and off
//! times.

use vstd::prelude::*;
use crate::driver::{next_deadline, Received};

verus! {

/// GPIO pin (BCM numbering) the plain LED is wired to: GPIO 2, the pin the buzzer uses
/// too, so the program does not run the LED loop while it serves the buzzer.
pub const LED_GPIO_PIN: u8 = 2;

/// What the LED should do.
#[derive(Clone, Copy, PartialEq, Eq, Debug, Structural)]
pub enum LedMode {
    Off,
    On,
    /// On and off in turn, each for half of `period_ms`.
    BlinkEqualOnOff { period_ms: u64 },
}

/// What the LED loop does after an instruction or a deadline.
#[derive(Clone, Copy, PartialEq, Eq, Debug, Structural)]
pub enum LedAction {
    /// Drive the pin high (`true`) or low.
    SetPin(bool),
    /// End the loop.
    Stop,
}

/// The state of the LED loop.
#[derive(Clone, Copy, PartialEq, Eq, Debug, Structural)]
pub struct LedDriver {
    /// The mode in force.
    pub mode: LedMode,
    /// Whether the pin is high.
    pub pin_high: bool,
    /// When the next blink is due, while blinking.
    pub next_blink: Option<u64>,
}

/// The mode after `event`: a new instruction replaces the mode, anything else keeps it.
pub open spec fn mode_after(mode: LedMode, event: Received<LedMode>) -> LedMode {
    match event {
        Received::Message(m) => m,
        _ => mode,
    }
}

/// Whether the next blink time after `event` fits in a `u64`.
pub open spec fn led_step_fits(d: LedDriver, event: Received<LedMode>, now_ms: u64) -> bool {
    event !is Disconnected ==> match mode_after(d.mode, event) {
        LedMode::BlinkEqualOnOff { period_ms } => next_deadline(d.next_blink, now_ms, period_ms / 2) <= u64::MAX,
        _ => true,
    }
}

/// The LED loop after `event` at time `now_ms`, and what it does.
///
/// When no sender is left the loop stops and nothing changes. Otherwise a new instruction
/// replaces the mode; then "off" drives the pin low and "on" high, with nothing scheduled,
/// and blinking turns the pin over and schedules the next blink half a period after the
/// previous one (after `now_ms` when blinking starts).
pub open spec fn led_next(d: LedDriver, event: Received<LedMode>, now_ms: u64) -> (LedDriver, LedAction) {
    if event is Disconnected {
        (d, LedAction::Stop)
    } else {
        let mode = mode_after(d.mode, event);
        let next = match mode {
            LedMode::Off => LedDriver { mode, pin_high: false, next_blink: None },
            LedMode::On => LedDriver { mode, pin_high: true, next_blink: None },
            LedMode::BlinkEqualOnOff { period_ms } => LedDriver {
                mode,
                pin_high: !d.pin_high,
                next_blink: Some(next_deadline(d.next_blink, now_ms, period_ms / 2) as u64),
            },
        };
        (next, LedAction::SetPin(next.pin_high))
    }
}

impl LedDriver {
    /// A loop that has not yet started: LED off, pin low, nothing scheduled.
    pub fn new() -> (d: LedDriver)
        ensures
            d.mode == LedMode::Off,
            !d.pin_high,
            d.next_blink is None,
    {
        LedDriver { mode: LedMode::Off, pin_high: false, next_blink: None }
    }

    /// Whether the turn after `event` at time `now_ms` can schedule its next blink within
    /// the range of the clock.
    pub fn step_fits(&self, event: Received<LedMode>, now_ms: u64) -> (r: bool)
        ensures
            r == led_step_fits(*self, event, now_ms),
    {
        let mode = match event {
            Received::Message(m) => m,
            Received::Timeout => self.mode,
            Received::Disconnected => return true,
        };
        match mode {
            LedMode::BlinkEqualOnOff { period_ms } => {
                let base = match self.next_blink {
                    Some(t) => t,
                    None => now_ms,
                };
                base.checked_add(period_ms / 2).is_some()
            },
            _ => true,
        }
    }

    /// One turn of the LED loop, after `event` at time `now_ms` (see `led_next`).
    pub fn step(&mut self, event: Received<LedMode>, now_ms: u64) -> (action: LedAction)
        requires
            led_step_fits(*old(self), event, now_ms),
        ensures
            (*final(self), action) == led_next(*old(self), event, now_ms),
    {
        match event {
            Received::Message(m) => {
                self.mode = m;
            },
            Received::Disconnected => {
                return LedAction::Stop;
            },
            Received::Timeout => {},
        }
        match self.mode {
            LedMode::Off => {
                self.pin_high = false;
                self.next_blink = None;
            },
            LedMode::On => {
                self.pin_high = true;
                self.next_blink = None;
            },
            LedMode::BlinkEqualOnOff { period_ms } => {
                self.pin_high = !self.pin_high;
                let base = match self.next_blink {
                    Some(t) => t,
                    None => now_ms,
                };
                self.next_blink = Some(base + period_ms / 2);
            },
        }
        LedAction::SetPin(self.pin_high)
    }
}

/// A blinking LED is back where it was after two deadlines: the pin is as it was and,
/// when a blink was scheduled, the next one is a whole period (two half periods) later.
pub proof fn lemma_blink_two_deadlines(d: LedDriver, t1: u64, t2: u64)
    requires
        d.mode is BlinkEqualOnOff,
        led_step_fits(d, Received::Timeout, t1),
        led_step_fits(led_next(d, Received::Timeout, t1).0, Received::Timeout, t2),
    ensures
        ({
            let d2 = led_next(led_next(d, Received::Timeout, t1).0, Received::Timeout, t2).0;
            let half = (d.mode->period_ms / 2) as int;
            &&& d2.mode == d.mode
            &&& d2.pin_high == d.pin_high
            &&& led_next(d, Received::Timeout, t1).1 == LedAction::SetPin(!d.pin_high)
            &&& (d.next_blink matches Some(t) ==> d2.next_blink == Some((t + 2 * half) as u64))
        }),
{
}

/// "Off" and "on" leave nothing scheduled and drive the pin to their level, whatever the
/// loop did before; a deadline does not change a steady mode.
pub proof fn lemma_steady_modes(d: LedDriver, m: LedMode, now_ms: u64)
    requires
        m is Off || m is On,
    ensures
        ({
            let (d1, a1) = led_next(d, Received::Message(m), now_ms);
            let (d2, a2) = led_next(d1, Received::Timeout, now_ms);
            &&& d1.next_blink is None
            &&& d1.pin_high == (m is On)
            &&& a1 == LedAction::SetPin(m is On)
            &&& d2 == d1
            &&& a2 == a1
        }),
{
}

/// When no sender is left the loop stops and its state is untouched.
pub proof fn lemma_disconnect_stops(d: LedDriver, now_ms: u64)
    ensures
        led_next(d, Received::Disconnected, now_ms) == (d, LedAction::Stop),
{
}


/// A blink is scheduled exactly while the LED blinks: the loop starts with none, and every
/// turn keeps it so.
pub proof fn lemma_schedule_only_while_blinking(d: LedDriver, event: Received<LedMode>, now_ms: u64)
    requires
        (d.next_blink is Some) == (d.mode is BlinkEqualOnOff),
    ensures
        ({
            let d1 = led_next(d, event, now_ms).0;
            (d1.next_blink is Some) == (d1.mode is BlinkEqualOnOff)
        }),
{
}


/// Every instruction is put in force at once, whatever the loop did before: "off" drives
/// the pin low and "on" high with nothing scheduled; a blink instruction turns the pin
/// over and schedules the next blink half its period after the previous schedule (after
/// `now_ms` when none was set). The action always sets the pin to its new level.
pub proof fn lemma_every_instruction_in_force(d: LedDriver, m: LedMode, now_ms: u64)
    ensures
        ({
            let (d1, action) = led_next(d, Received::Message(m), now_ms);
            &&& d1.mode == m
            &&& action == LedAction::SetPin(d1.pin_high)
            &&& m is Off ==> !d1.pin_high && d1.next_blink is None
            &&& m is On ==> d1.pin_high && d1.next_blink is None
            &&& m matches LedMode::BlinkEqualOnOff { period_ms } ==> {
                &&& d1.pin_high == !d.pin_high
                &&& d1.next_blink == Some((match d.next_blink {
                    Some(t) => t as int,
                    None => now_ms as int,
                } + period_ms / 2) as u64)
            }
        }),
{
}

/// A deadline keeps the mode: a blinking LED turns its pin over and moves its schedule
/// on by half the period; a steady LED keeps its level with nothing scheduled.
pub proof fn lemma_deadline_keeps_mode(d: LedDriver, now_ms: u64)
    ensures
        ({
            let (d1, action) = led_next(d, Received::Timeout, now_ms);
            &&& d1.mode == d.mode
            &&& action == LedAction::SetPin(d1.pin_high)
            &&& d.mode is Off ==> !d1.pin_high && d1.next_blink is None
            &&& d.mode is On ==> d1.pin_high && d1.next_blink is None
            &&& d.mode matches LedMode::BlinkEqualOnOff { period_ms } ==> {
                &&& d1.pin_high == !d.pin_high
                &&& d1.next_blink == Some((match d.next_blink {
                    Some(t) => t as int,
                    None => now_ms as int,
                } + period_ms / 2) as u64)
            }
        }),
{
}

} // verus!
