//! The 8x8 LED matrix (four MAX7219-driven displays on one SPI bus): what
//! each instruction writes to the first display, and the back-and-forth
//! animation.

use vstd::prelude::*;
use crate::driver::{next_deadline, Received};

verus! {

/// Number of chained displays on the bus.
pub const MATRIX_DISPLAYS: usize = 4;

/// Highest intensity a display takes.
pub const MAX_INTENSITY: u8 = 0x0F;

/// Milliseconds between two frames of the animation.
pub const ANIMATION_INTERVAL_MS: u64 = 120;

/// What the matrix should show.
#[derive(Clone, Copy, PartialEq, Eq, Debug, Structural)]
pub enum MatrixDisplayMode {
    AllOff,
    AllOn,
    Brightness(u8),
    Animation,
}

/// One command for the display chain.
#[derive(Clone, Copy, PartialEq, Eq, Debug)]
pub enum DisplayCommand {
    PowerOn,
    /// Switch the chain off (the loop ends after it).
    PowerOff,
    ClearDisplay(usize),
    SetIntensity { display: usize, level: u8 },
    /// Write the eight row bytes of a display.
    WriteRaw { display: usize, rows: [u8; 8] },
}

/// A display command with its rows as a sequence.
pub enum DisplayOp {
    PowerOn,
    PowerOff,
    ClearDisplay(usize),
    SetIntensity { display: usize, level: u8 },
    WriteRaw { display: usize, rows: Seq<u8> },
}

impl View for DisplayCommand {
    type V = DisplayOp;

    open spec fn view(&self) -> DisplayOp {
        match *self {
            DisplayCommand::PowerOn => DisplayOp::PowerOn,
            DisplayCommand::PowerOff => DisplayOp::PowerOff,
            DisplayCommand::ClearDisplay(i) => DisplayOp::ClearDisplay(i),
            DisplayCommand::SetIntensity { display, level } => DisplayOp::SetIntensity { display, level },
            DisplayCommand::WriteRaw { display, rows } => DisplayOp::WriteRaw { display, rows: rows@ },
        }
    }
}

/// The state of the display loop.
#[derive(Clone, Copy, PartialEq, Eq, Debug, Structural)]
pub struct MatrixState {
    /// The mode in force.
    pub mode: MatrixDisplayMode,
    /// The frame of the animation shown last.
    pub animation_index: i8,
    /// The direction the animation runs: 1 forward, -1 backward.
    pub animation_inc: i8,
    /// When the next frame is due, while animating.
    pub next_update: Option<u64>,
}

/// The commands that start the chain: power on, then clear each display and set it to
/// full intensity.
pub open spec fn startup_ops() -> Seq<DisplayOp> {
    Seq::new(
        (1 + 2 * MATRIX_DISPLAYS) as nat,
        |k: int|
            if k == 0 {
                DisplayOp::PowerOn
            } else if k % 2 == 1 {
                DisplayOp::ClearDisplay(((k - 1) / 2) as usize)
            } else {
                DisplayOp::SetIntensity { display: ((k - 2) / 2) as usize, level: MAX_INTENSITY }
            },
    )
}

/// The commands that start the chain (see `startup_ops`).
pub fn startup_commands() -> (cmds: Vec<DisplayCommand>)
    ensures
        cmds@.len() == startup_ops().len(),
        forall|k: int| 0 <= k < cmds@.len() ==> #[trigger] cmds@[k]@ == startup_ops()[k],
{
    let mut cmds: Vec<DisplayCommand> = Vec::new();
    cmds.push(DisplayCommand::PowerOn);
    let mut i: usize = 0;
    while i < MATRIX_DISPLAYS
        invariant
            i <= MATRIX_DISPLAYS,
            cmds@.len() == 1 + 2 * i,
            forall|k: int| 0 <= k < cmds@.len() ==> #[trigger] cmds@[k]@ == startup_ops()[k],
        decreases MATRIX_DISPLAYS - i,
    {
        cmds.push(DisplayCommand::ClearDisplay(i));
        cmds.push(DisplayCommand::SetIntensity { display: i, level: MAX_INTENSITY });
        i = i + 1;
    }
    cmds
}

/// The row bytes of frame `i` of the animation: a diagonal band that sweeps across the
/// display.
pub open spec fn animation_frame_rows(i: int) -> Seq<u8> {
    if i == 0 {
        seq![0x01u8, 0x02u8, 0x04u8, 0x08u8, 0x10u8, 0x20u8, 0x40u8, 0x80u8]
    } else if i == 1 {
        seq![0x02u8, 0x07u8, 0x0Eu8, 0x1Cu8, 0x38u8, 0x70u8, 0xE0u8, 0x40u8]
    } else if i == 2 {
        seq![0x04u8, 0x0Eu8, 0x1Fu8, 0x3Eu8, 0x7Cu8, 0xF8u8, 0x70u8, 0x20u8]
    } else if i == 3 {
        seq![0x08u8, 0x1Cu8, 0x3Eu8, 0x7Fu8, 0xFEu8, 0x7Cu8, 0x38u8, 0x10u8]
    } else if i == 4 {
        seq![0x10u8, 0x38u8, 0x7Cu8, 0xFEu8, 0x7Fu8, 0x3Eu8, 0x1Cu8, 0x08u8]
    } else if i == 5 {
        seq![0x20u8, 0x70u8, 0xF8u8, 0x7Cu8, 0x3Eu8, 0x1Fu8, 0x0Eu8, 0x04u8]
    } else if i == 6 {
        seq![0x40u8, 0xE0u8, 0x70u8, 0x38u8, 0x1Cu8, 0x0Eu8, 0x07u8, 0x02u8]
    } else {
        seq![0x80u8, 0x40u8, 0x20u8, 0x10u8, 0x08u8, 0x04u8, 0x02u8, 0x01u8]
    }
}

/// The row bytes of frame `index` of the animation.
pub fn animation_frame(index: usize) -> (rows: [u8; 8])
    requires
        index < 8,
    ensures
        rows@ == animation_frame_rows(index as int),
{
    let rows: [u8; 8] = if index == 0 {
        [0x01, 0x02, 0x04, 0x08, 0x10, 0x20, 0x40, 0x80]
    } else if index == 1 {
        [0x02, 0x07, 0x0E, 0x1C, 0x38, 0x70, 0xE0, 0x40]
    } else if index == 2 {
        [0x04, 0x0E, 0x1F, 0x3E, 0x7C, 0xF8, 0x70, 0x20]
    } else if index == 3 {
        [0x08, 0x1C, 0x3E, 0x7F, 0xFE, 0x7C, 0x38, 0x10]
    } else if index == 4 {
        [0x10, 0x38, 0x7C, 0xFE, 0x7F, 0x3E, 0x1C, 0x08]
    } else if index == 5 {
        [0x20, 0x70, 0xF8, 0x7C, 0x3E, 0x1F, 0x0E, 0x04]
    } else if index == 6 {
        [0x40, 0xE0, 0x70, 0x38, 0x1C, 0x0E, 0x07, 0x02]
    } else {
        [0x80, 0x40, 0x20, 0x10, 0x08, 0x04, 0x02, 0x01]
    };
    assert(rows@ =~= animation_frame_rows(index as int));
    rows
}

/// Whether an animation position is one the animation reaches: a frame of the table,
/// running forward or backward, and never about to run off either end.
pub open spec fn animation_ok(index: i8, inc: i8) -> bool {
    &&& 0 <= index <= 7
    &&& inc == 1 || inc == -1
    &&& inc == 1 ==> index <= 6
    &&& inc == -1 ==> index >= 1
}

/// The animation position after one frame: one frame on in the running direction,
/// turning round on reaching the first or the last frame.
pub open spec fn animation_advance(index: i8, inc: i8) -> (i8, i8) {
    let next = (index + inc) as i8;
    if next == 7 || next == 0 { (next, (-inc) as i8) } else { (next, inc) }
}

/// The mode after `event`: a new instruction replaces the mode, anything else keeps it.
pub open spec fn matrix_mode_after(mode: MatrixDisplayMode, event: Received<MatrixDisplayMode>) -> MatrixDisplayMode {
    match event {
        Received::Message(m) => m,
        _ => mode,
    }
}

/// `v` capped at the highest intensity.
pub open spec fn capped_intensity(v: u8) -> u8 {
    if v <= MAX_INTENSITY { v } else { MAX_INTENSITY }
}

/// The display loop after `event` at time `now_ms`, and the command it sends.
///
/// When no sender is left the chain is powered off and the loop ends. Otherwise a new
/// instruction replaces the mode; "all off" and "all on" write blank and full rows to the
/// first display, a brightness sets its intensity (capped at `MAX_INTENSITY`), all three
/// with nothing scheduled; the animation shows its next frame and schedules the one after
/// `ANIMATION_INTERVAL_MS` after the previous one (after `now_ms` when it starts).
pub open spec fn matrix_next(s: MatrixState, event: Received<MatrixDisplayMode>, now_ms: u64) -> (MatrixState, DisplayOp) {
    if event is Disconnected {
        (s, DisplayOp::PowerOff)
    } else {
        let mode = matrix_mode_after(s.mode, event);
        match mode {
            MatrixDisplayMode::AllOff => (
                MatrixState { mode, next_update: None, ..s },
                DisplayOp::WriteRaw { display: 0, rows: Seq::new(8, |i: int| 0u8) },
            ),
            MatrixDisplayMode::AllOn => (
                MatrixState { mode, next_update: None, ..s },
                DisplayOp::WriteRaw { display: 0, rows: Seq::new(8, |i: int| 0xFFu8) },
            ),
            MatrixDisplayMode::Brightness(v) => (
                MatrixState { mode, next_update: None, ..s },
                DisplayOp::SetIntensity { display: 0, level: capped_intensity(v) },
            ),
            MatrixDisplayMode::Animation => {
                let (index, inc) = animation_advance(s.animation_index, s.animation_inc);
                (
                    MatrixState {
                        mode,
                        animation_index: index,
                        animation_inc: inc,
                        next_update: Some(next_deadline(s.next_update, now_ms, ANIMATION_INTERVAL_MS) as u64),
                    },
                    DisplayOp::WriteRaw { display: 0, rows: animation_frame_rows(index as int) },
                )
            },
        }
    }
}

/// Whether the next frame time after `event` fits in a `u64`.
pub open spec fn matrix_step_fits(s: MatrixState, event: Received<MatrixDisplayMode>, now_ms: u64) -> bool {
    event !is Disconnected && matrix_mode_after(s.mode, event) is Animation
        ==> next_deadline(s.next_update, now_ms, ANIMATION_INTERVAL_MS) <= u64::MAX
}

/// The display loop.
pub struct MatrixDisplayDriver {
    state: MatrixState,
}

impl View for MatrixDisplayDriver {
    type V = MatrixState;

    closed spec fn view(&self) -> MatrixState {
        self.state
    }
}

impl MatrixDisplayDriver {
    #[verifier::type_invariant]
    closed spec fn animation_in_table(self) -> bool {
        animation_ok(self.state.animation_index, self.state.animation_inc)
    }

    /// A loop that has not yet started: all off, the animation at its first frame running
    /// forward, nothing scheduled.
    pub fn new() -> (d: MatrixDisplayDriver)
        ensures
            d@ == (MatrixState {
                mode: MatrixDisplayMode::AllOff,
                animation_index: 0,
                animation_inc: 1,
                next_update: None,
            }),
    {
        MatrixDisplayDriver {
            state: MatrixState {
                mode: MatrixDisplayMode::AllOff,
                animation_index: 0,
                animation_inc: 1,
                next_update: None,
            },
        }
    }

    /// The state of the loop; its animation position is always one the animation reaches.
    pub fn state(&self) -> (s: MatrixState)
        ensures
            s == self@,
            animation_ok(s.animation_index, s.animation_inc),
    {
        proof {
            use_type_invariant(self);
        }
        self.state
    }

    /// Whether the turn after `event` at time `now_ms` can schedule its next frame within
    /// the range of the clock.
    pub fn step_fits(&self, event: Received<MatrixDisplayMode>, now_ms: u64) -> (r: bool)
        ensures
            r == matrix_step_fits(self@, event, now_ms),
    {
        let mode = match event {
            Received::Message(m) => m,
            Received::Timeout => self.state.mode,
            Received::Disconnected => return true,
        };
        match mode {
            MatrixDisplayMode::Animation => {
                let base = match self.state.next_update {
                    Some(t) => t,
                    None => now_ms,
                };
                base.checked_add(ANIMATION_INTERVAL_MS).is_some()
            },
            _ => true,
        }
    }

    /// One turn of the display loop, after `event` at time `now_ms` (see `matrix_next`).
    pub fn step(&mut self, event: Received<MatrixDisplayMode>, now_ms: u64) -> (cmd: DisplayCommand)
        requires
            matrix_step_fits(old(self)@, event, now_ms),
        ensures
            (final(self)@, cmd@) == matrix_next(old(self)@, event, now_ms),
            animation_ok(final(self)@.animation_index, final(self)@.animation_inc),
    {
        proof {
            use_type_invariant(&*self);
        }
        let mut s = self.state;
        match event {
            Received::Message(m) => {
                s.mode = m;
            },
            Received::Disconnected => {
                return DisplayCommand::PowerOff;
            },
            Received::Timeout => {},
        }
        let cmd = match s.mode {
            MatrixDisplayMode::AllOff => {
                s.next_update = None;
                let rows: [u8; 8] = [0; 8];
                assert(rows@ =~= Seq::new(8, |i: int| 0u8));
                DisplayCommand::WriteRaw { display: 0, rows }
            },
            MatrixDisplayMode::AllOn => {
                s.next_update = None;
                let rows: [u8; 8] = [0xFF; 8];
                assert(rows@ =~= Seq::new(8, |i: int| 0xFFu8));
                DisplayCommand::WriteRaw { display: 0, rows }
            },
            MatrixDisplayMode::Brightness(v) => {
                s.next_update = None;
                let level = if v <= MAX_INTENSITY { v } else { MAX_INTENSITY };
                DisplayCommand::SetIntensity { display: 0, level }
            },
            MatrixDisplayMode::Animation => {
                s.animation_index = s.animation_index + s.animation_inc;
                if s.animation_index == 7 || s.animation_index == 0 {
                    s.animation_inc = -s.animation_inc;
                }
                let base = match s.next_update {
                    Some(t) => t,
                    None => now_ms,
                };
                s.next_update = Some(base + ANIMATION_INTERVAL_MS);
                let index: usize = s.animation_index as usize;
                DisplayCommand::WriteRaw { display: 0, rows: animation_frame(index) }
            },
        };
        self.state = s;
        cmd
    }
}

/// Every animation frame is followed by a position the animation reaches: the frame index
/// never leaves the table.
pub proof fn lemma_animation_stays_in_table(index: i8, inc: i8)
    requires
        animation_ok(index, inc),
    ensures
        animation_ok(animation_advance(index, inc).0, animation_advance(index, inc).1),
{
}

/// The position after `n` frames.
pub open spec fn animation_after(index: i8, inc: i8, n: nat) -> (i8, i8)
    decreases n,
{
    if n == 0 {
        (index, inc)
    } else {
        let (i2, c2) = animation_advance(index, inc);
        animation_after(i2, c2, (n - 1) as nat)
    }
}

/// The animation runs back and forth: after fourteen frames it is where it started.
#[verifier::spinoff_prover]
pub proof fn lemma_animation_period(index: i8, inc: i8)
    requires
        animation_ok(index, inc),
    ensures
        animation_after(index, inc, 14) == (index, inc),
{
    reveal_with_fuel(animation_after, 15);
}


/// A frame is scheduled exactly while the matrix animates: the loop starts with none, and
/// every turn keeps it so; the commands of a turn go to the first display only.
pub proof fn lemma_schedule_only_while_animating(s: MatrixState, event: Received<MatrixDisplayMode>, now_ms: u64)
    requires
        (s.next_update is Some) == (s.mode is Animation),
    ensures
        ({
            let (s1, op) = matrix_next(s, event, now_ms);
            &&& (s1.next_update is Some) == (s1.mode is Animation)
            &&& op matches DisplayOp::WriteRaw { display, .. } ==> display == 0
            &&& op matches DisplayOp::SetIntensity { display, level } ==> display == 0 && level <= MAX_INTENSITY
        }),
{
}

/// The display loop after a run of events, each with the time it came at.
pub open spec fn matrix_run(s: MatrixState, events: Seq<(Received<MatrixDisplayMode>, u64)>) -> MatrixState
    decreases events.len(),
{
    if events.len() == 0 {
        s
    } else {
        let last = events.last();
        matrix_next(matrix_run(s, events.drop_last()), last.0, last.1).0
    }
}

/// A command a turn of the display loop may send: blank rows, full rows or a frame of the
/// image table, or an intensity of at most `MAX_INTENSITY`, all to the first display; or
/// switching the chain off.
pub open spec fn turn_command(op: DisplayOp) -> bool {
    match op {
        DisplayOp::WriteRaw { display, rows } => display == 0 && (
            rows == Seq::new(8, |i: int| 0u8)
            || rows == Seq::new(8, |i: int| 0xFFu8)
            || exists|k: int| 0 <= k <= 7 && rows == #[trigger] animation_frame_rows(k)
        ),
        DisplayOp::SetIntensity { display, level } => display == 0 && level <= MAX_INTENSITY,
        DisplayOp::PowerOff => true,
        _ => false,
    }
}

proof fn lemma_turn(s: MatrixState, event: Received<MatrixDisplayMode>, now_ms: u64)
    requires
        animation_ok(s.animation_index, s.animation_inc),
    ensures
        animation_ok(matrix_next(s, event, now_ms).0.animation_index, matrix_next(s, event, now_ms).0.animation_inc),
        turn_command(matrix_next(s, event, now_ms).1),
{
    let (s1, op) = matrix_next(s, event, now_ms);
    if event !is Disconnected && matrix_mode_after(s.mode, event) is Animation {
        let k = s1.animation_index as int;
        assert(op == DisplayOp::WriteRaw { display: 0, rows: animation_frame_rows(k) });
        assert(0 <= k <= 7);
    }
}

/// Whatever events come, in whatever order and at whatever times, the animation index of a
/// loop that starts in a position the animation reaches never leaves the image table, and
/// every turn sends only blank, full or table rows, a capped intensity, or the power-off.
/// This needs no bound on the clock: it speaks of the loop's transition function, whose
/// overflow bound only concerns the schedule.
pub proof fn lemma_run_stays_in_table(s: MatrixState, events: Seq<(Received<MatrixDisplayMode>, u64)>)
    requires
        animation_ok(s.animation_index, s.animation_inc),
    ensures
        animation_ok(matrix_run(s, events).animation_index, matrix_run(s, events).animation_inc),
        forall|i: int|
            0 <= i < events.len() ==> turn_command(
                #[trigger] matrix_next(matrix_run(s, events.take(i)), events[i].0, events[i].1).1,
            ),
    decreases events.len(),
{
    if events.len() > 0 {
        lemma_run_stays_in_table(s, events.drop_last());
        let last = events.last();
        lemma_turn(matrix_run(s, events.drop_last()), last.0, last.1);
    }
    assert forall|i: int| 0 <= i < events.len() implies turn_command(
        #[trigger] matrix_next(matrix_run(s, events.take(i)), events[i].0, events[i].1).1,
    ) by {
        lemma_run_stays_in_table(s, events.take(i));
        lemma_turn(matrix_run(s, events.take(i)), events[i].0, events[i].1);
    }
}


/// The animation's image table is this data, frame by frame.
pub proof fn lemma_animation_table_data()
    ensures
        animation_frame_rows(0) == seq![0x01u8, 0x02u8, 0x04u8, 0x08u8, 0x10u8, 0x20u8, 0x40u8, 0x80u8],
        animation_frame_rows(1) == seq![0x02u8, 0x07u8, 0x0Eu8, 0x1Cu8, 0x38u8, 0x70u8, 0xE0u8, 0x40u8],
        animation_frame_rows(2) == seq![0x04u8, 0x0Eu8, 0x1Fu8, 0x3Eu8, 0x7Cu8, 0xF8u8, 0x70u8, 0x20u8],
        animation_frame_rows(3) == seq![0x08u8, 0x1Cu8, 0x3Eu8, 0x7Fu8, 0xFEu8, 0x7Cu8, 0x38u8, 0x10u8],
        animation_frame_rows(4) == seq![0x10u8, 0x38u8, 0x7Cu8, 0xFEu8, 0x7Fu8, 0x3Eu8, 0x1Cu8, 0x08u8],
        animation_frame_rows(5) == seq![0x20u8, 0x70u8, 0xF8u8, 0x7Cu8, 0x3Eu8, 0x1Fu8, 0x0Eu8, 0x04u8],
        animation_frame_rows(6) == seq![0x40u8, 0xE0u8, 0x70u8, 0x38u8, 0x1Cu8, 0x0Eu8, 0x07u8, 0x02u8],
        animation_frame_rows(7) == seq![0x80u8, 0x40u8, 0x20u8, 0x10u8, 0x08u8, 0x04u8, 0x02u8, 0x01u8],
{
}

/// The frames form a sweep: each has eight rows; the top row of frame `k` lights exactly
/// column `k` (so no two frames are alike); and frame `7 - k` is frame `k` upside down.
pub proof fn lemma_animation_table_sweep()
    ensures
        forall|k: int| 0 <= k < 8 ==> #[trigger] animation_frame_rows(k).len() == 8,
        animation_frame_rows(0)[0] == 1u8 && animation_frame_rows(1)[0] == 2u8
            && animation_frame_rows(2)[0] == 4u8 && animation_frame_rows(3)[0] == 8u8
            && animation_frame_rows(4)[0] == 16u8 && animation_frame_rows(5)[0] == 32u8
            && animation_frame_rows(6)[0] == 64u8 && animation_frame_rows(7)[0] == 128u8,
        forall|j: int, k: int| 0 <= j < 8 && 0 <= k < 8 && j != k ==>
            #[trigger] animation_frame_rows(j) != #[trigger] animation_frame_rows(k),
        forall|k: int| 0 <= k < 8 ==> #[trigger] animation_frame_rows(7 - k) == animation_frame_rows(k).reverse(),
{
    assert forall|k: int| 0 <= k < 8 implies #[trigger] animation_frame_rows(7 - k) == animation_frame_rows(k).reverse() by {
        assert(animation_frame_rows(7 - k) =~= animation_frame_rows(k).reverse());
    }
    assert forall|j: int, k: int| 0 <= j < 8 && 0 <= k < 8 && j != k implies
        #[trigger] animation_frame_rows(j) != #[trigger] animation_frame_rows(k) by {
        assert(animation_frame_rows(j)[0] != animation_frame_rows(k)[0]);
    }
}

/// The frame index shown `n` frames into the animation started from the first frame: up
/// 1, 2, ..., 7, then down 6, ..., 0, and again.
pub open spec fn bounce_index(n: nat) -> int {
    let r = (n % 14) as int;
    if r <= 7 { r } else { 14 - r }
}

proof fn lemma_animation_after_add(index: i8, inc: i8, a: nat, b: nat)
    ensures
        animation_after(index, inc, a + b) == ({
            let (i2, c2) = animation_after(index, inc, a);
            animation_after(i2, c2, b)
        }),
    decreases a,
{
    if a > 0 {
        let (i1, c1) = animation_advance(index, inc);
        lemma_animation_after_add(i1, c1, (a - 1) as nat, b);
        assert((a + b - 1) as nat == ((a - 1) + b) as nat);
    }
}

/// From the first frame running forward, the animation shows the frames up and down the
/// table in turn, one step at a time: after `n` frames it is at `bounce_index(n)`.
#[verifier::spinoff_prover]
pub proof fn lemma_animation_sweeps_back_and_forth(n: nat)
    ensures
        animation_after(0, 1, n).0 == bounce_index(n),
    decreases n,
{
    if n < 14 {
        reveal_with_fuel(animation_after, 15);
    } else {
        lemma_animation_after_add(0, 1, 14, (n - 14) as nat);
        lemma_animation_period(0, 1);
        lemma_animation_sweeps_back_and_forth((n - 14) as nat);
        assert(((n - 14) as nat) % 14 == n % 14);
        assert(n == 14 + (n - 14) as nat);
    }
}

/// Every instruction is put in force at once: "all off" and "all on" write blank and full
/// rows to the first display; a brightness sets the first display to the level asked for,
/// or to 15 when more is asked for; the animation moves one frame in its direction and
/// shows it. The animation position changes only for the animation.
pub proof fn lemma_every_instruction_in_force(s: MatrixState, m: MatrixDisplayMode, now_ms: u64)
    requires
        animation_ok(s.animation_index, s.animation_inc),
    ensures
        ({
            let (s1, op) = matrix_next(s, Received::Message(m), now_ms);
            &&& s1.mode == m
            &&& m is AllOff ==> op == (DisplayOp::WriteRaw { display: 0, rows: seq![0u8, 0u8, 0u8, 0u8, 0u8, 0u8, 0u8, 0u8] })
            &&& m is AllOn ==> op == (DisplayOp::WriteRaw { display: 0, rows: seq![255u8, 255u8, 255u8, 255u8, 255u8, 255u8, 255u8, 255u8] })
            &&& m matches MatrixDisplayMode::Brightness(v) ==> op == (DisplayOp::SetIntensity {
                display: 0,
                level: if v <= 15 { v } else { 15u8 },
            })
            &&& m !is Animation ==> s1.animation_index == s.animation_index && s1.animation_inc == s.animation_inc
                && s1.next_update is None
            &&& m is Animation ==> {
                &&& s1.animation_index == s.animation_index + s.animation_inc
                &&& (s1.animation_index - s.animation_index == 1 || s1.animation_index - s.animation_index == -1)
                &&& op == (DisplayOp::WriteRaw { display: 0, rows: animation_frame_rows(s1.animation_index as int) })
            }
        }),
{
    let (s1, op) = matrix_next(s, Received::Message(m), now_ms);
    if m is AllOff {
        assert(Seq::new(8, |i: int| 0u8) =~= seq![0u8, 0u8, 0u8, 0u8, 0u8, 0u8, 0u8, 0u8]);
    }
    if m is AllOn {
        assert(Seq::new(8, |i: int| 0xFFu8) =~= seq![255u8, 255u8, 255u8, 255u8, 255u8, 255u8, 255u8, 255u8]);
    }
}


/// The chain starts with power-on, then clears each of its four displays and sets it to
/// intensity 15, display by display.
pub proof fn lemma_startup_order()
    ensures
        startup_ops().len() == 9,
        startup_ops()[0] == DisplayOp::PowerOn,
        forall|i: int| 0 <= i < 4 ==> #[trigger] startup_ops()[1 + 2 * i] == DisplayOp::ClearDisplay(i as usize),
        forall|i: int| 0 <= i < 4 ==> #[trigger] startup_ops()[2 + 2 * i] == (DisplayOp::SetIntensity {
            display: i as usize,
            level: 15,
        }),
{
    assert forall|i: int| 0 <= i < 4 implies #[trigger] startup_ops()[2 + 2 * i] == (DisplayOp::SetIntensity {
        display: i as usize,
        level: 15,
    }) by {
        assert((2 + 2 * i) % 2 == 0);
        assert(((2 + 2 * i) - 2) / 2 == i);
    }
    assert forall|i: int| 0 <= i < 4 implies #[trigger] startup_ops()[1 + 2 * i] == DisplayOp::ClearDisplay(i as usize) by {
        assert((1 + 2 * i) % 2 == 1);
        assert(((1 + 2 * i) - 1) / 2 == i);
    }
}

/// The animation shows a frame every 120 ms, counted from the previous frame (from the
/// instruction when it starts); a deadline keeps the mode in force, and a lost sender
/// powers the chain off and leaves the loop as it was.
pub proof fn lemma_animation_timing(s: MatrixState, event: Received<MatrixDisplayMode>, now_ms: u64)
    ensures
        event is Disconnected ==> matrix_next(s, event, now_ms) == (s, DisplayOp::PowerOff),
        event is Timeout ==> matrix_next(s, event, now_ms).0.mode == s.mode,
        event !is Disconnected && matrix_mode_after(s.mode, event) is Animation ==>
            matrix_next(s, event, now_ms).0.next_update == Some((match s.next_update {
                Some(t) => t as int,
                None => now_ms as int,
            } + 120) as u64),
{
}

} // verus!
