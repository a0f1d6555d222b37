//! The LED on the PWM channel: which waveform is in force and when the duty
//! cycle is next updated. The duty cycle itself is a floating-point
//! computation done by the program around this library.

use vstd::prelude::*;
use crate::driver::{next_deadline, Received};

verus! {

/// Milliseconds between two duty-cycle updates of an animated waveform
/// (the update rate is 100 Hz).
pub const PWM_UPDATE_INTERVAL_MS: u64 = 10;

/// What the PWM LED should do. Animated waveforms repeat every `period_ms`.
#[derive(Clone, Copy, PartialEq, Eq, Debug, Structural)]
pub enum PwmLedMode {
    Off,
    On,
    Half,
    BlinkEqualOnOff { period_ms: u16 },
    Breath { period_ms: u16 },
    BreathLinear { period_ms: u16 },
    Wave { period_ms: u16 },
    WaveLinear { period_ms: u16 },
    RisingSawTooth { period_ms: u16 },
    RisingSawToothLinear { period_ms: u16 },
    FallingSawTooth { period_ms: u16 },
    FallingSawToothLinear { period_ms: u16 },
}

impl PwmLedMode {
    /// Whether the duty cycle changes over time (it then has to be updated periodically).
    pub open spec fn is_animated(self) -> bool {
        !(self is Off || self is On || self is Half || self is BlinkEqualOnOff)
    }

    /// Whether the duty cycle changes over time.
    pub fn animated(&self) -> (r: bool)
        ensures
            r == self.is_animated(),
    {
        match self {
            PwmLedMode::Off | PwmLedMode::On | PwmLedMode::Half
            | PwmLedMode::BlinkEqualOnOff { .. } => false,
            _ => true,
        }
    }
}

/// What the PWM loop does after an instruction or a deadline.
#[derive(Clone, Copy, PartialEq, Eq, Debug, Structural)]
pub enum PwmAction {
    /// Publish this mode as the current one and drive the channel with its waveform
    /// (advancing the waveform's phase when it is animated).
    Output(PwmLedMode),
    /// Switch the channel off and end the loop.
    Shutdown,
}

/// The state of the PWM loop.
#[derive(Clone, Copy, PartialEq, Eq, Debug, Structural)]
pub struct PwmLedDriver {
    /// The mode in force.
    pub mode: PwmLedMode,
    /// When the next duty-cycle update is due, while animated.
    pub next_update: Option<u64>,
}

/// The mode after `event`: a new instruction replaces the mode, anything else keeps it.
pub open spec fn pwm_mode_after(mode: PwmLedMode, event: Received<PwmLedMode>) -> PwmLedMode {
    match event {
        Received::Message(m) => m,
        _ => mode,
    }
}

/// The PWM loop after `event` at time `now_ms`, and what it does.
///
/// When no sender is left the channel is switched off and the loop ends. Otherwise a new
/// instruction replaces the mode and the mode is output; an animated mode schedules its
/// next update `PWM_UPDATE_INTERVAL_MS` after the previous one (after `now_ms` when the
/// animation starts), a steady mode schedules nothing.
pub open spec fn pwm_next(d: PwmLedDriver, event: Received<PwmLedMode>, now_ms: u64) -> (PwmLedDriver, PwmAction) {
    if event is Disconnected {
        (d, PwmAction::Shutdown)
    } else {
        let mode = pwm_mode_after(d.mode, event);
        let next_update = if mode.is_animated() {
            Some(next_deadline(d.next_update, now_ms, PWM_UPDATE_INTERVAL_MS) as u64)
        } else {
            None
        };
        (PwmLedDriver { mode, next_update }, PwmAction::Output(mode))
    }
}

/// Whether the next update time after `event` fits in a `u64`.
pub open spec fn pwm_step_fits(d: PwmLedDriver, event: Received<PwmLedMode>, now_ms: u64) -> bool {
    event !is Disconnected && pwm_mode_after(d.mode, event).is_animated()
        ==> next_deadline(d.next_update, now_ms, PWM_UPDATE_INTERVAL_MS) <= u64::MAX
}

impl PwmLedDriver {
    /// A loop that has not yet started: LED off, nothing scheduled.
    pub fn new() -> (d: PwmLedDriver)
        ensures
            d.mode == PwmLedMode::Off,
            d.next_update is None,
    {
        PwmLedDriver { mode: PwmLedMode::Off, next_update: None }
    }

    /// Whether the turn after `event` at time `now_ms` can schedule its next update within
    /// the range of the clock.
    pub fn step_fits(&self, event: Received<PwmLedMode>, now_ms: u64) -> (r: bool)
        ensures
            r == pwm_step_fits(*self, event, now_ms),
    {
        let mode = match event {
            Received::Message(m) => m,
            Received::Timeout => self.mode,
            Received::Disconnected => return true,
        };
        if mode.animated() {
            let base = match self.next_update {
                Some(t) => t,
                None => now_ms,
            };
            base.checked_add(PWM_UPDATE_INTERVAL_MS).is_some()
        } else {
            true
        }
    }

    /// One turn of the PWM loop, after `event` at time `now_ms` (see `pwm_next`).
    pub fn step(&mut self, event: Received<PwmLedMode>, now_ms: u64) -> (action: PwmAction)
        requires
            pwm_step_fits(*old(self), event, now_ms),
        ensures
            (*final(self), action) == pwm_next(*old(self), event, now_ms),
    {
        match event {
            Received::Message(m) => {
                self.mode = m;
            },
            Received::Disconnected => {
                return PwmAction::Shutdown;
            },
            Received::Timeout => {},
        }
        if self.mode.animated() {
            let base = match self.next_update {
                Some(t) => t,
                None => now_ms,
            };
            self.next_update = Some(base + PWM_UPDATE_INTERVAL_MS);
        } else {
            self.next_update = None;
        }
        PwmAction::Output(self.mode)
    }
}

/// An animated waveform keeps a steady update rate: each deadline moves the next update
/// exactly one interval on, however late the loop woke up, and the mode stays.
pub proof fn lemma_animation_rate(d: PwmLedDriver, t: u64, now_ms: u64)
    requires
        d.mode.is_animated(),
        d.next_update == Some(t),
        t + PWM_UPDATE_INTERVAL_MS <= u64::MAX,
    ensures
        pwm_next(d, Received::Timeout, now_ms) == (
            PwmLedDriver { mode: d.mode, next_update: Some((t + PWM_UPDATE_INTERVAL_MS) as u64) },
            PwmAction::Output(d.mode),
        ),
{
}

/// Every instruction is put in force at once, and only an animated one keeps the loop
/// waking up; a lost sender always shuts the channel off.
pub proof fn lemma_instruction_in_force(d: PwmLedDriver, m: PwmLedMode, now_ms: u64)
    ensures
        pwm_next(d, Received::Message(m), now_ms).0.mode == m,
        pwm_next(d, Received::Message(m), now_ms).1 == PwmAction::Output(m),
        pwm_next(d, Received::Message(m), now_ms).0.next_update is Some <==> m.is_animated(),
        pwm_next(d, Received::Disconnected, now_ms).1 == PwmAction::Shutdown,
{
}


/// An update is scheduled exactly while the waveform is animated: the loop starts with
/// none, and every turn keeps it so.
pub proof fn lemma_schedule_only_while_animated(d: PwmLedDriver, event: Received<PwmLedMode>, now_ms: u64)
    requires
        (d.next_update is Some) == d.mode.is_animated(),
    ensures
        ({
            let d1 = pwm_next(d, event, now_ms).0;
            (d1.next_update is Some) == d1.mode.is_animated()
        }),
{
}

/// The PWM loop after a run of events, each with the time it came at.
pub open spec fn pwm_run(d: PwmLedDriver, events: Seq<(Received<PwmLedMode>, u64)>) -> PwmLedDriver
    decreases events.len(),
{
    if events.len() == 0 {
        d
    } else {
        let last = events.last();
        pwm_next(pwm_run(d, events.drop_last()), last.0, last.1).0
    }
}

/// The last instruction among `events`, or `mode` when they bring none.
pub open spec fn last_instruction(mode: PwmLedMode, events: Seq<(Received<PwmLedMode>, u64)>) -> PwmLedMode
    decreases events.len(),
{
    if events.len() == 0 {
        mode
    } else {
        match events.last().0 {
            Received::Message(m) => m,
            _ => last_instruction(mode, events.drop_last()),
        }
    }
}

/// Over any run of events, the mode in force is the last instruction received (a lost
/// sender changes nothing), and each turn outputs, and so publishes, exactly the mode in
/// force after it, or shuts the channel off when no sender is left. This needs no bound
/// on the clock: it speaks of the loop's transition function, whose overflow bound only
/// concerns the schedule.
pub proof fn lemma_published_mode_is_last_instruction(d: PwmLedDriver, events: Seq<(Received<PwmLedMode>, u64)>)
    ensures
        pwm_run(d, events).mode == last_instruction(d.mode, events),
        forall|i: int|
            0 <= i < events.len() ==> {
                let (d1, action) = #[trigger] pwm_next(pwm_run(d, events.take(i)), events[i].0, events[i].1);
                &&& events[i].0 is Disconnected ==> action == PwmAction::Shutdown && d1 == pwm_run(d, events.take(i))
                &&& events[i].0 !is Disconnected ==> action == PwmAction::Output(d1.mode)
                    && d1.mode == last_instruction(d.mode, events.take(i + 1))
            },
    decreases events.len(),
{
    if events.len() > 0 {
        lemma_published_mode_is_last_instruction(d, events.drop_last());
    }
    assert forall|i: int| 0 <= i < events.len() implies {
        let (d1, action) = #[trigger] pwm_next(pwm_run(d, events.take(i)), events[i].0, events[i].1);
        &&& events[i].0 is Disconnected ==> action == PwmAction::Shutdown && d1 == pwm_run(d, events.take(i))
        &&& events[i].0 !is Disconnected ==> action == PwmAction::Output(d1.mode)
            && d1.mode == last_instruction(d.mode, events.take(i + 1))
    } by {
        let pre = events.take(i + 1);
        assert(pre.drop_last() =~= events.take(i));
        assert(pre.last() == events[i]);
        lemma_published_mode_is_last_instruction(d, events.take(i));
    }
}


/// Which waveforms are animated: off, on, half and blinking are steady (the PWM channel
/// does the blinking); breathing, waves and saw teeth, linear or not, are animated.
pub proof fn lemma_animated_modes(p: u16)
    ensures
        !PwmLedMode::Off.is_animated(),
        !PwmLedMode::On.is_animated(),
        !PwmLedMode::Half.is_animated(),
        !(PwmLedMode::BlinkEqualOnOff { period_ms: p }).is_animated(),
        (PwmLedMode::Breath { period_ms: p }).is_animated(),
        (PwmLedMode::BreathLinear { period_ms: p }).is_animated(),
        (PwmLedMode::Wave { period_ms: p }).is_animated(),
        (PwmLedMode::WaveLinear { period_ms: p }).is_animated(),
        (PwmLedMode::RisingSawTooth { period_ms: p }).is_animated(),
        (PwmLedMode::RisingSawToothLinear { period_ms: p }).is_animated(),
        (PwmLedMode::FallingSawTooth { period_ms: p }).is_animated(),
        (PwmLedMode::FallingSawToothLinear { period_ms: p }).is_animated(),
{
}


/// An animated waveform is updated every 10 ms, counted from the previous update (from
/// the instruction when it starts); a deadline keeps the mode in force.
pub proof fn lemma_update_every_ten_ms(d: PwmLedDriver, event: Received<PwmLedMode>, now_ms: u64)
    ensures
        event is Timeout ==> pwm_next(d, event, now_ms).0.mode == d.mode
            && pwm_next(d, event, now_ms).1 == PwmAction::Output(d.mode),
        event !is Disconnected && pwm_mode_after(d.mode, event).is_animated() ==>
            pwm_next(d, event, now_ms).0.next_update == Some((match d.next_update {
                Some(t) => t as int,
                None => now_ms as int,
            } + 10) as u64),
{
}

} // verus!
