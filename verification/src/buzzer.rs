//! The buzzer: which pin steps a request asks for, and the status text it is
//! answered with.

use vstd::prelude::*;
use crate::text::{opt_str_view, str_eq};

verus! {

/// GPIO pin (BCM numbering) the buzzer is wired to: GPIO 2, physical pin 3.
pub const BUZZER_GPIO_PIN: u8 = 2;

/// Longest time, in milliseconds, the buzzer stays on or off within a pair of a sequence.
pub const MAX_DURATION_MS: u16 = 1500;

/// Longest time, in milliseconds, the buzzer sounds for the last entry of a sequence.
pub const MAX_FINAL_ON_MS: u16 = 1000;

/// Most entries a sequence may have.
pub const MAX_SEQUENCE_LENGTH: usize = 11;

/// One thing to do with the buzzer pin.
#[derive(Clone, Copy, PartialEq, Eq, Debug, Structural)]
pub enum BuzzerStep {
    /// Drive the pin high (sound on).
    SetHigh,
    /// Drive the pin low (sound off).
    SetLow,
    /// Wait this many milliseconds.
    SleepMs(u64),
    /// Drive the pin low if it reads high.
    SetLowIfHigh,
}

/// The body of a buzzer request.
#[derive(Clone, PartialEq, Eq, Debug)]
pub struct BuzzerParams {
    pub buzzer_instruction: Option<String>,
}

/// What a buzzer request does: the pin steps, in order, and the status it is answered with.
#[derive(Clone, PartialEq, Eq, Debug)]
pub struct BuzzerPlan {
    pub steps: Vec<BuzzerStep>,
    pub status: String,
}

/// `v` capped at `cap`.
pub open spec fn capped(v: u16, cap: u16) -> u64 {
    if v <= cap { v as u64 } else { cap as u64 }
}

/// The steps for the sequence entries from the start of `s` on: each pair of entries
/// sounds for the first and pauses for the second (both capped at `MAX_DURATION_MS`);
/// a last single entry sounds for it (capped at `MAX_FINAL_ON_MS`) and stops.
pub open spec fn chunk_steps(s: Seq<u16>) -> Seq<BuzzerStep>
    decreases s.len(),
{
    if s.len() == 0 {
        seq![]
    } else if s.len() == 1 {
        seq![
            BuzzerStep::SetHigh,
            BuzzerStep::SleepMs(capped(s[0], MAX_FINAL_ON_MS)),
            BuzzerStep::SetLow,
        ]
    } else {
        seq![
            BuzzerStep::SetHigh,
            BuzzerStep::SleepMs(capped(s[0], MAX_DURATION_MS)),
            BuzzerStep::SetLow,
            BuzzerStep::SleepMs(capped(s[1], MAX_DURATION_MS)),
        ] + chunk_steps(s.skip(2))
    }
}

/// Whether a sequence is played at all: it must have an odd number of entries, at most
/// `MAX_SEQUENCE_LENGTH`.
pub open spec fn playable(s: Seq<u16>) -> bool {
    s.len() % 2 == 1 && s.len() <= MAX_SEQUENCE_LENGTH
}

/// The steps that play an on/off sequence.
pub open spec fn sequence_steps(s: Seq<u16>) -> Seq<BuzzerStep> {
    if playable(s) { chunk_steps(s) } else { seq![] }
}

/// Every wait in `steps` lasts at most `MAX_DURATION_MS`.
pub open spec fn waits_bounded(steps: Seq<BuzzerStep>) -> bool {
    forall|i: int| 0 <= i < steps.len() ==> (#[trigger] steps[i] matches BuzzerStep::SleepMs(ms) ==> ms <= MAX_DURATION_MS)
}

/// The buzzer is low at the end of `steps` if it ever went high: the last pin step is
/// `SetLow`.
pub open spec fn ends_low(steps: Seq<BuzzerStep>) -> bool {
    steps.len() > 0 ==> exists|i: int| 0 <= i < steps.len() && steps[i] == BuzzerStep::SetLow
        && forall|j: int| i < j < steps.len() ==> #[trigger] steps[j] is SleepMs
}

proof fn lemma_chunk_steps_safe(s: Seq<u16>)
    ensures
        waits_bounded(chunk_steps(s)),
        ends_low(chunk_steps(s)),
    decreases s.len(),
{
    let c = chunk_steps(s);
    if s.len() == 0 {
    } else if s.len() == 1 {
        assert(c[2] == BuzzerStep::SetLow);
    } else {
        lemma_chunk_steps_safe(s.skip(2));
        let head = seq![
            BuzzerStep::SetHigh,
            BuzzerStep::SleepMs(capped(s[0], MAX_DURATION_MS)),
            BuzzerStep::SetLow,
            BuzzerStep::SleepMs(capped(s[1], MAX_DURATION_MS)),
        ];
        let tail = chunk_steps(s.skip(2));
        assert(c == head + tail);
        assert forall|i: int| 0 <= i < c.len() implies (#[trigger] c[i] matches BuzzerStep::SleepMs(ms) ==> ms <= MAX_DURATION_MS) by {
            if i >= 4 {
                assert(c[i] == tail[i - 4]);
            }
        }
        if tail.len() == 0 {
            assert(c[2] == BuzzerStep::SetLow);
            assert forall|j: int| 2 < j < c.len() implies #[trigger] c[j] is SleepMs by {}
        } else {
            let k = choose|i: int| 0 <= i < tail.len() && tail[i] == BuzzerStep::SetLow
                && forall|j: int| i < j < tail.len() ==> #[trigger] tail[j] is SleepMs;
            assert(c[k + 4] == BuzzerStep::SetLow);
            assert forall|j: int| k + 4 < j < c.len() implies #[trigger] c[j] is SleepMs by {
                assert(c[j] == tail[j - 4]);
            }
        }
    }
}

/// The steps that play `sequence`, alternating sound and silence.
///
/// A sequence with an even number of entries, or with more than `MAX_SEQUENCE_LENGTH`,
/// plays nothing. No wait lasts longer than `MAX_DURATION_MS`, and a played sequence
/// leaves the buzzer low.
pub fn odd_on_off_buzzer_sequence(sequence: &[u16]) -> (steps: Vec<BuzzerStep>)
    ensures
        steps@ == sequence_steps(sequence@),
        waits_bounded(steps@),
        ends_low(steps@),
{
    proof {
        lemma_chunk_steps_safe(sequence@);
    }
    let mut steps: Vec<BuzzerStep> = Vec::new();
    let len = sequence.len();
    if len % 2 == 0 || len > MAX_SEQUENCE_LENGTH {
        assert(steps@ =~= seq![]);
        return steps;
    }
    let mut i: usize = 0;
    assert(sequence@.skip(0) =~= sequence@);
    while i < len
        invariant
            len == sequence@.len(),
            len <= MAX_SEQUENCE_LENGTH,
            i <= len,
            steps@ + chunk_steps(sequence@.skip(i as int)) == chunk_steps(sequence@),
        decreases len - i,
    {
        let ghost rest = sequence@.skip(i as int);
        if i + 1 < len {
            let on_ms = sequence[i];
            let off_ms = sequence[i + 1];
            let on_ms = if on_ms <= MAX_DURATION_MS { on_ms } else { MAX_DURATION_MS };
            let off_ms = if off_ms <= MAX_DURATION_MS { off_ms } else { MAX_DURATION_MS };
            let ghost before = steps@;
            steps.push(BuzzerStep::SetHigh);
            steps.push(BuzzerStep::SleepMs(on_ms as u64));
            steps.push(BuzzerStep::SetLow);
            steps.push(BuzzerStep::SleepMs(off_ms as u64));
            assert(rest.skip(2) =~= sequence@.skip(i + 2));
            assert(steps@ =~= before + seq![
                BuzzerStep::SetHigh,
                BuzzerStep::SleepMs(capped(rest[0], MAX_DURATION_MS)),
                BuzzerStep::SetLow,
                BuzzerStep::SleepMs(capped(rest[1], MAX_DURATION_MS)),
            ]);
            i = i + 2;
        } else {
            let on_ms = sequence[i];
            let on_ms = if on_ms <= MAX_FINAL_ON_MS { on_ms } else { MAX_FINAL_ON_MS };
            let ghost before = steps@;
            steps.push(BuzzerStep::SetHigh);
            steps.push(BuzzerStep::SleepMs(on_ms as u64));
            steps.push(BuzzerStep::SetLow);
            assert(sequence@.skip(i + 1) =~= seq![]);
            assert(steps@ =~= before + chunk_steps(rest));
            i = i + 1;
        }
    }
    assert(sequence@.skip(len as int) =~= seq![]);
    assert(steps@ =~= chunk_steps(sequence@));
    steps
}


/// The steps and the status text for a buzzer instruction, given that the buzzer is free.
pub open spec fn message_plan(instruction: Option<Seq<char>>) -> (Seq<BuzzerStep>, Seq<char>) {
    match instruction {
        Some(s) => if s == "off"@ {
            (seq![BuzzerStep::SetLow], "buzzer_ok"@)
        } else if s == "short"@ {
            (sequence_steps(seq![250u16]), "buzzer_ok"@)
        } else if s == "double"@ {
            (sequence_steps(seq![100u16, 200u16, 100u16]), "buzzer_ok"@)
        } else if s == "silent_2000"@ {
            (seq![BuzzerStep::SleepMs(2000)], "buzzer_silent_ok"@)
        } else {
            (seq![BuzzerStep::SetLowIfHigh], "buzzer_unknown_signal"@)
        },
        None => (seq![], "buzzer_unknown_signal"@),
    }
}

/// The plan for a buzzer instruction on a buzzer that is free: "off" silences it,
/// "short" and "double" play their sequences, "silent_2000" waits two seconds, any other
/// instruction silences a sounding buzzer, and no instruction does nothing.
pub fn handle_message(buzzer_instruction: Option<&str>) -> (plan: BuzzerPlan)
    ensures
        (plan.steps@, plan.status@) == message_plan(opt_str_view(buzzer_instruction)),
{
    match buzzer_instruction {
        Some(s) => {
            if str_eq(s, "off") {
                let mut steps = Vec::new();
                steps.push(BuzzerStep::SetLow);
                assert(steps@ =~= seq![BuzzerStep::SetLow]);
                BuzzerPlan { steps, status: String::from_str("buzzer_ok") }
            } else if str_eq(s, "short") {
                let seq: [u16; 1] = [250];
                assert(seq@ =~= seq![250u16]);
                BuzzerPlan { steps: odd_on_off_buzzer_sequence(&seq), status: String::from_str("buzzer_ok") }
            } else if str_eq(s, "double") {
                let seq: [u16; 3] = [100, 200, 100];
                assert(seq@ =~= seq![100u16, 200u16, 100u16]);
                BuzzerPlan { steps: odd_on_off_buzzer_sequence(&seq), status: String::from_str("buzzer_ok") }
            } else if str_eq(s, "silent_2000") {
                let mut steps = Vec::new();
                steps.push(BuzzerStep::SleepMs(2000));
                assert(steps@ =~= seq![BuzzerStep::SleepMs(2000)]);
                BuzzerPlan { steps, status: String::from_str("buzzer_silent_ok") }
            } else {
                let mut steps = Vec::new();
                steps.push(BuzzerStep::SetLowIfHigh);
                assert(steps@ =~= seq![BuzzerStep::SetLowIfHigh]);
                BuzzerPlan { steps, status: String::from_str("buzzer_unknown_signal") }
            }
        },
        None => {
            let steps = Vec::new();
            assert(steps@ =~= Seq::<BuzzerStep>::empty());
            BuzzerPlan { steps, status: String::from_str("buzzer_unknown_signal") }
        },
    }
}

/// The plan for a buzzer request: while another request holds the buzzer the answer is
/// "buzzer_busy" and nothing is done; otherwise the instruction is handled.
pub fn buzzer_signals_handler(buzzer_free: bool, buzzer_instruction: Option<&str>) -> (plan: BuzzerPlan)
    ensures
        !buzzer_free ==> plan.steps@ == Seq::<BuzzerStep>::empty() && plan.status@ == "buzzer_busy"@,
        buzzer_free ==> (plan.steps@, plan.status@) == message_plan(opt_str_view(buzzer_instruction)),
{
    if buzzer_free {
        handle_message(buzzer_instruction)
    } else {
        let steps = Vec::new();
        assert(steps@ =~= Seq::<BuzzerStep>::empty());
        BuzzerPlan { steps, status: String::from_str("buzzer_busy") }
    }
}

/// The levels steps drive the pin to, in order: `true` for each `SetHigh`, `false` for each
/// `SetLow` (waits, and the conditional `SetLowIfHigh`, drive no fixed level).
pub open spec fn pin_levels(steps: Seq<BuzzerStep>) -> Seq<bool>
    decreases steps.len(),
{
    if steps.len() == 0 {
        seq![]
    } else {
        let rest = pin_levels(steps.drop_first());
        match steps[0] {
            BuzzerStep::SetHigh => seq![true] + rest,
            BuzzerStep::SetLow => seq![false] + rest,
            _ => rest,
        }
    }
}

/// How many times steps drive the pin high.
pub open spec fn high_count(steps: Seq<BuzzerStep>) -> nat
    decreases steps.len(),
{
    if steps.len() == 0 {
        0
    } else {
        high_count(steps.drop_first()) + if steps[0] is SetHigh { 1nat } else { 0nat }
    }
}

/// How long steps wait in all, in milliseconds.
pub open spec fn total_wait(steps: Seq<BuzzerStep>) -> nat
    decreases steps.len(),
{
    if steps.len() == 0 {
        0
    } else {
        total_wait(steps.drop_first()) + match steps[0] {
            BuzzerStep::SleepMs(ms) => ms as nat,
            _ => 0nat,
        }
    }
}

/// Levels that alternate high and low, starting high, `n` of them.
pub open spec fn alternating(n: nat) -> Seq<bool> {
    Seq::new(n, |i: int| i % 2 == 0)
}

proof fn lemma_measures_concat(a: Seq<BuzzerStep>, b: Seq<BuzzerStep>)
    ensures
        pin_levels(a + b) == pin_levels(a) + pin_levels(b),
        high_count(a + b) == high_count(a) + high_count(b),
        total_wait(a + b) == total_wait(a) + total_wait(b),
    decreases a.len(),
{
    if a.len() == 0 {
        assert(a + b =~= b);
        assert(pin_levels(a) + pin_levels(b) =~= pin_levels(b));
    } else {
        assert((a + b).drop_first() =~= a.drop_first() + b);
        assert((a + b)[0] == a[0]);
        lemma_measures_concat(a.drop_first(), b);
        match a[0] {
            BuzzerStep::SetHigh => {
                assert(pin_levels(a + b) =~= pin_levels(a) + pin_levels(b));
            },
            BuzzerStep::SetLow => {
                assert(pin_levels(a + b) =~= pin_levels(a) + pin_levels(b));
            },
            _ => {},
        }
    }
}

proof fn lemma_chunk_measures(s: Seq<u16>)
    requires
        s.len() % 2 == 1,
    ensures
        pin_levels(chunk_steps(s)) == alternating((s.len() + 1) as nat),
        high_count(chunk_steps(s)) == (s.len() + 1) / 2,
        total_wait(chunk_steps(s)) <= (s.len() / 2) * (2 * MAX_DURATION_MS) + MAX_FINAL_ON_MS,
    decreases s.len(),
{
    let c = chunk_steps(s);
    if s.len() == 1 {
        reveal_with_fuel(pin_levels, 4);
        reveal_with_fuel(high_count, 4);
        reveal_with_fuel(total_wait, 4);
        assert(c.drop_first() =~= seq![BuzzerStep::SleepMs(capped(s[0], MAX_FINAL_ON_MS)), BuzzerStep::SetLow]);
        assert(c.drop_first().drop_first() =~= seq![BuzzerStep::SetLow]);
        assert(c.drop_first().drop_first().drop_first() =~= Seq::<BuzzerStep>::empty());
        assert(pin_levels(c) =~= alternating(2));
    } else {
        let head = seq![
            BuzzerStep::SetHigh,
            BuzzerStep::SleepMs(capped(s[0], MAX_DURATION_MS)),
            BuzzerStep::SetLow,
            BuzzerStep::SleepMs(capped(s[1], MAX_DURATION_MS)),
        ];
        let rest = s.skip(2);
        assert(c == head + chunk_steps(rest));
        lemma_chunk_measures(rest);
        lemma_measures_concat(head, chunk_steps(rest));
        reveal_with_fuel(pin_levels, 5);
        reveal_with_fuel(high_count, 5);
        reveal_with_fuel(total_wait, 5);
        assert(head.drop_first() =~= seq![
            BuzzerStep::SleepMs(capped(s[0], MAX_DURATION_MS)),
            BuzzerStep::SetLow,
            BuzzerStep::SleepMs(capped(s[1], MAX_DURATION_MS)),
        ]);
        assert(head.drop_first().drop_first() =~= seq![
            BuzzerStep::SetLow,
            BuzzerStep::SleepMs(capped(s[1], MAX_DURATION_MS)),
        ]);
        assert(head.drop_first().drop_first().drop_first() =~= seq![
            BuzzerStep::SleepMs(capped(s[1], MAX_DURATION_MS)),
        ]);
        assert(head.drop_first().drop_first().drop_first().drop_first() =~= Seq::<BuzzerStep>::empty());
        assert(pin_levels(head) =~= seq![true, false]);
        assert(total_wait(head) <= 2 * MAX_DURATION_MS);
        assert(high_count(head) == 1);
        assert(pin_levels(c) =~= alternating((s.len() + 1) as nat));
    }
}

/// A sequence drives the pin only when it is played: then the pin goes high and low in
/// turn, starting high and ending low, once per entry and once more (one high for each
/// sounding, (len + 1) / 2 in all), and the whole sequence waits at most 5 * (1500 + 1500)
/// + 1000 = 16 000 milliseconds. A sequence that is not played drives nothing and waits
/// for nothing.
pub proof fn lemma_sequence_shape(s: Seq<u16>)
    ensures
        playable(s) ==> pin_levels(sequence_steps(s)) == alternating((s.len() + 1) as nat),
        playable(s) ==> high_count(sequence_steps(s)) == (s.len() + 1) / 2,
        total_wait(sequence_steps(s)) <= 16000,
        !playable(s) ==> pin_levels(sequence_steps(s)).len() == 0 && total_wait(sequence_steps(s)) == 0,
{
    if playable(s) {
        lemma_chunk_measures(s);
        assert((s.len() / 2) * (2 * MAX_DURATION_MS) + MAX_FINAL_ON_MS <= 16000) by (nonlinear_arith)
            requires
                s.len() <= 11,
        ;
    }
}


/// The pin step and the wait for entry `i` of an odd sequence of `n` entries: entry `i`
/// drives the pin high when `i` is even (sound) and low when odd (pause), then waits for
/// the entry's time, at most 1500 ms, or at most 1000 ms for the last entry.
proof fn lemma_chunk_index(s: Seq<u16>)
    requires
        s.len() % 2 == 1,
    ensures
        chunk_steps(s).len() == 2 * s.len() + 1,
        forall|i: int| 0 <= i < s.len() ==> #[trigger] chunk_steps(s)[2 * i] == (if i % 2 == 0 {
            BuzzerStep::SetHigh
        } else {
            BuzzerStep::SetLow
        }),
        forall|i: int| 0 <= i < s.len() ==> #[trigger] chunk_steps(s)[2 * i + 1] == BuzzerStep::SleepMs(
            if i == s.len() - 1 {
                if s[i] <= 1000 { s[i] as u64 } else { 1000u64 }
            } else {
                if s[i] <= 1500 { s[i] as u64 } else { 1500u64 }
            },
        ),
        chunk_steps(s)[2 * s.len() as int] == BuzzerStep::SetLow,
    decreases s.len(),
{
    let c = chunk_steps(s);
    if s.len() == 1 {
        assert forall|i: int| 0 <= i < s.len() implies #[trigger] c[2 * i] == (if i % 2 == 0 {
            BuzzerStep::SetHigh
        } else {
            BuzzerStep::SetLow
        }) by {
            assert(i == 0);
        }
        assert forall|i: int| 0 <= i < s.len() implies #[trigger] c[2 * i + 1] == BuzzerStep::SleepMs(
            if i == s.len() - 1 {
                if s[i] <= 1000 { s[i] as u64 } else { 1000u64 }
            } else {
                if s[i] <= 1500 { s[i] as u64 } else { 1500u64 }
            },
        ) by {
            assert(i == 0);
        }
    } else {
        let head = seq![
            BuzzerStep::SetHigh,
            BuzzerStep::SleepMs(capped(s[0], MAX_DURATION_MS)),
            BuzzerStep::SetLow,
            BuzzerStep::SleepMs(capped(s[1], MAX_DURATION_MS)),
        ];
        let rest = s.skip(2);
        let t = chunk_steps(rest);
        assert(c == head + t);
        lemma_chunk_index(rest);
        assert forall|i: int| 0 <= i < s.len() implies #[trigger] c[2 * i] == (if i % 2 == 0 {
            BuzzerStep::SetHigh
        } else {
            BuzzerStep::SetLow
        }) by {
            if i >= 2 {
                assert(c[2 * i] == t[2 * (i - 2)]);
                assert(rest.len() == s.len() - 2);
            }
        }
        assert forall|i: int| 0 <= i < s.len() implies #[trigger] c[2 * i + 1] == BuzzerStep::SleepMs(
            if i == s.len() - 1 {
                if s[i] <= 1000 { s[i] as u64 } else { 1000u64 }
            } else {
                if s[i] <= 1500 { s[i] as u64 } else { 1500u64 }
            },
        ) by {
            if i >= 2 {
                assert(c[2 * i + 1] == t[2 * (i - 2) + 1]);
                assert(rest[i - 2] == s[i]);
            }
        }
        assert(c[2 * s.len() as int] == t[2 * rest.len() as int]);
    }
}

/// A played sequence of `n` entries gives `2n + 1` steps: for each entry `i`, the pin goes
/// high (even `i`, a sound) or low (odd `i`, a pause), then the loop waits the entry's
/// time capped at 1500 ms, or at 1000 ms for the last entry; a final step drives the pin
/// low. A sequence with an even number of entries, or more than 11, gives no step.
pub proof fn lemma_sequence_steps_by_entry(s: Seq<u16>)
    ensures
        !(s.len() % 2 == 1 && s.len() <= 11) ==> sequence_steps(s).len() == 0,
        s.len() % 2 == 1 && s.len() <= 11 ==> {
            let steps = sequence_steps(s);
            &&& steps.len() == 2 * s.len() + 1
            &&& forall|i: int| 0 <= i < s.len() ==> #[trigger] steps[2 * i] == (if i % 2 == 0 {
                BuzzerStep::SetHigh
            } else {
                BuzzerStep::SetLow
            })
            &&& forall|i: int| 0 <= i < s.len() ==> #[trigger] steps[2 * i + 1] == BuzzerStep::SleepMs(
                if i == s.len() - 1 {
                    if s[i] <= 1000 { s[i] as u64 } else { 1000u64 }
                } else {
                    if s[i] <= 1500 { s[i] as u64 } else { 1500u64 }
                },
            )
            &&& steps[2 * s.len() as int] == BuzzerStep::SetLow
        },
{
    if s.len() % 2 == 1 && s.len() <= 11 {
        lemma_chunk_index(s);
    }
}


/// What each instruction does to a free buzzer: "off" drives it low; "short" sounds for
/// 250 ms; "double" sounds 100 ms, pauses 200 ms and sounds 100 ms; these three are
/// answered "buzzer_ok". "silent_2000" waits two seconds without touching the pin and is
/// answered "buzzer_silent_ok". Any other instruction only silences a sounding buzzer, and
/// no instruction does nothing; both are answered "buzzer_unknown_signal".
pub proof fn lemma_instructions(instruction: Option<Seq<char>>)
    ensures
        instruction == Some("off"@) ==> message_plan(instruction) == (seq![BuzzerStep::SetLow], "buzzer_ok"@),
        instruction == Some("short"@) ==> message_plan(instruction) == (
            seq![BuzzerStep::SetHigh, BuzzerStep::SleepMs(250), BuzzerStep::SetLow],
            "buzzer_ok"@,
        ),
        instruction == Some("double"@) ==> message_plan(instruction) == (
            seq![
                BuzzerStep::SetHigh, BuzzerStep::SleepMs(100), BuzzerStep::SetLow, BuzzerStep::SleepMs(200),
                BuzzerStep::SetHigh, BuzzerStep::SleepMs(100), BuzzerStep::SetLow,
            ],
            "buzzer_ok"@,
        ),
        instruction == Some("silent_2000"@) ==> message_plan(instruction) == (
            seq![BuzzerStep::SleepMs(2000)],
            "buzzer_silent_ok"@,
        ),
        instruction is None ==> message_plan(instruction) == (Seq::<BuzzerStep>::empty(), "buzzer_unknown_signal"@),
        instruction matches Some(s) && s != "off"@ && s != "short"@ && s != "double"@ && s != "silent_2000"@
            ==> message_plan(instruction) == (seq![BuzzerStep::SetLowIfHigh], "buzzer_unknown_signal"@),
{
    reveal_strlit("off");
    reveal_strlit("short");
    reveal_strlit("double");
    reveal_strlit("silent_2000");
    assert("off"@.len() == 3 && "short"@.len() == 5 && "double"@.len() == 6 && "silent_2000"@.len() == 11);
    if instruction == Some("short"@) {
        lemma_sequence_steps_by_entry(seq![250u16]);
        assert(sequence_steps(seq![250u16]) =~= seq![BuzzerStep::SetHigh, BuzzerStep::SleepMs(250), BuzzerStep::SetLow]);
    }
    if instruction == Some("double"@) {
        let s = seq![100u16, 200u16, 100u16];
        lemma_sequence_steps_by_entry(s);
        let st = sequence_steps(s);
        assert(st[2 * 0int] == BuzzerStep::SetHigh && st[2 * 0int + 1] == BuzzerStep::SleepMs(100));
        assert(st[2 * 1int] == BuzzerStep::SetLow && st[2 * 1int + 1] == BuzzerStep::SleepMs(200));
        assert(st[2 * 2int] == BuzzerStep::SetHigh && st[2 * 2int + 1] == BuzzerStep::SleepMs(100));
        assert(st =~= seq![
            BuzzerStep::SetHigh, BuzzerStep::SleepMs(100), BuzzerStep::SetLow, BuzzerStep::SleepMs(200),
            BuzzerStep::SetHigh, BuzzerStep::SleepMs(100), BuzzerStep::SetLow,
        ]);
    }
}

} // verus!
