use buzzer_control_webserver::buzzer::{
    buzzer_signals_handler, handle_message, odd_on_off_buzzer_sequence, BuzzerStep,
};
use BuzzerStep::{SetHigh, SetLow, SetLowIfHigh, SleepMs};

#[test]
fn single_entry_sounds_once() {
    assert_eq!(odd_on_off_buzzer_sequence(&[250]), vec![SetHigh, SleepMs(250), SetLow]);
}

#[test]
fn three_entries_sound_pause_sound() {
    assert_eq!(
        odd_on_off_buzzer_sequence(&[100, 200, 100]),
        vec![SetHigh, SleepMs(100), SetLow, SleepMs(200), SetHigh, SleepMs(100), SetLow]
    );
}

#[test]
fn even_or_long_sequences_play_nothing() {
    assert!(odd_on_off_buzzer_sequence(&[]).is_empty());
    assert!(odd_on_off_buzzer_sequence(&[100, 100]).is_empty());
    assert!(odd_on_off_buzzer_sequence(&[100; 13]).is_empty());
    assert_eq!(odd_on_off_buzzer_sequence(&[100; 11]).len(), 5 * 4 + 3);
}

#[test]
fn long_durations_are_capped() {
    assert_eq!(
        odd_on_off_buzzer_sequence(&[2000, 1501, 1200]),
        vec![SetHigh, SleepMs(1500), SetLow, SleepMs(1500), SetHigh, SleepMs(1000), SetLow]
    );
    assert_eq!(
        odd_on_off_buzzer_sequence(&[1500, 1500, 1000]),
        vec![SetHigh, SleepMs(1500), SetLow, SleepMs(1500), SetHigh, SleepMs(1000), SetLow]
    );
}

#[test]
fn every_played_sequence_ends_low() {
    for len in [1usize, 3, 5, 7, 9, 11] {
        let seq: Vec<u16> = (0..len as u16).map(|i| i * 400).collect();
        let steps = odd_on_off_buzzer_sequence(&seq);
        assert_eq!(*steps.last().unwrap(), SetLow);
        assert!(steps.iter().all(|s| match s {
            SleepMs(ms) => *ms <= 1500,
            _ => true,
        }));
    }
}

#[test]
fn instructions_of_a_free_buzzer() {
    let off = handle_message(Some("off"));
    assert_eq!(off.steps, vec![SetLow]);
    assert_eq!(off.status, "buzzer_ok");

    let short = handle_message(Some("short"));
    assert_eq!(short.steps, vec![SetHigh, SleepMs(250), SetLow]);
    assert_eq!(short.status, "buzzer_ok");

    let double = handle_message(Some("double"));
    assert_eq!(
        double.steps,
        vec![SetHigh, SleepMs(100), SetLow, SleepMs(200), SetHigh, SleepMs(100), SetLow]
    );
    assert_eq!(double.status, "buzzer_ok");

    let silent = handle_message(Some("silent_2000"));
    assert_eq!(silent.steps, vec![SleepMs(2000)]);
    assert_eq!(silent.status, "buzzer_silent_ok");

    let unknown = handle_message(Some("long"));
    assert_eq!(unknown.steps, vec![SetLowIfHigh]);
    assert_eq!(unknown.status, "buzzer_unknown_signal");

    let none = handle_message(None);
    assert!(none.steps.is_empty());
    assert_eq!(none.status, "buzzer_unknown_signal");
}

#[test]
fn a_held_buzzer_is_busy() {
    let busy = buzzer_signals_handler(false, Some("short"));
    assert!(busy.steps.is_empty());
    assert_eq!(busy.status, "buzzer_busy");

    let free = buzzer_signals_handler(true, Some("short"));
    assert_eq!(free, handle_message(Some("short")));
}

fn levels(steps: &[BuzzerStep]) -> Vec<bool> {
    steps
        .iter()
        .filter_map(|s| match s {
            SetHigh => Some(true),
            SetLow => Some(false),
            _ => None,
        })
        .collect()
}

fn waited(steps: &[BuzzerStep]) -> u64 {
    steps.iter().map(|s| if let SleepMs(ms) = s { *ms } else { 0 }).sum()
}

#[test]
fn played_sequences_alternate_starting_high() {
    for len in [1usize, 3, 5, 7, 9, 11] {
        let seq: Vec<u16> = vec![300; len];
        let lv = levels(&odd_on_off_buzzer_sequence(&seq));
        assert_eq!(lv.len(), len + 1);
        for (i, level) in lv.iter().enumerate() {
            assert_eq!(*level, i % 2 == 0);
        }
        assert_eq!(lv.iter().filter(|l| **l).count(), (len + 1) / 2);
    }
}

#[test]
fn longest_sequence_waits_sixteen_seconds_at_most() {
    assert_eq!(waited(&odd_on_off_buzzer_sequence(&[u16::MAX; 11])), 16000);
    assert_eq!(waited(&odd_on_off_buzzer_sequence(&[100, 200, 100])), 400);
    assert_eq!(waited(&odd_on_off_buzzer_sequence(&[u16::MAX; 12])), 0);
}
