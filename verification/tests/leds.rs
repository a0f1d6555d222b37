use buzzer_control_webserver::driver::{wait_for, Received, Wait};
use buzzer_control_webserver::led::on_off_led::{LedAction, LedDriver, LedMode};
use buzzer_control_webserver::led::pwm_led::{PwmAction, PwmLedDriver, PwmLedMode};
use buzzer_control_webserver::led::{led_signals_handler, LedCommand};
use buzzer_control_webserver::led_handler;

#[test]
fn waiting_follows_the_deadline() {
    assert_eq!(wait_for(None, 5), Wait::Forever);
    assert_eq!(wait_for(Some(120), 100), Wait::AtMostMs(20));
    assert_eq!(wait_for(Some(100), 100), Wait::AtMostMs(0));
    assert_eq!(wait_for(Some(90), 100), Wait::AtMostMs(0));
}

#[test]
fn led_starts_off() {
    let d = LedDriver::new();
    assert_eq!(d.mode, LedMode::Off);
    assert!(!d.pin_high);
    assert_eq!(d.next_blink, None);
}

#[test]
fn led_on_and_off() {
    let mut d = LedDriver::new();
    assert_eq!(d.step(Received::Message(LedMode::On), 10), LedAction::SetPin(true));
    assert!(d.pin_high);
    assert_eq!(d.next_blink, None);
    assert_eq!(d.step(Received::Timeout, 20), LedAction::SetPin(true));
    assert_eq!(d.step(Received::Message(LedMode::Off), 30), LedAction::SetPin(false));
    assert!(!d.pin_high);
    assert_eq!(d.next_blink, None);
}

#[test]
fn led_blinks_on_a_steady_schedule() {
    let mut d = LedDriver::new();
    let blink = LedMode::BlinkEqualOnOff { period_ms: 250 };
    assert_eq!(d.step(Received::Message(blink), 1000), LedAction::SetPin(true));
    assert_eq!(d.next_blink, Some(1125));
    assert_eq!(d.step(Received::Timeout, 1130), LedAction::SetPin(false));
    assert_eq!(d.next_blink, Some(1250));
    assert_eq!(d.step(Received::Timeout, 1251), LedAction::SetPin(true));
    assert_eq!(d.next_blink, Some(1375));
    // turning it on stops the schedule
    assert_eq!(d.step(Received::Message(LedMode::On), 1300), LedAction::SetPin(true));
    assert_eq!(d.next_blink, None);
}

#[test]
fn led_stops_when_disconnected() {
    let mut d = LedDriver::new();
    d.step(Received::Message(LedMode::On), 0);
    let before = d;
    assert_eq!(d.step(Received::Disconnected, 5), LedAction::Stop);
    assert_eq!(d, before);
}

#[test]
fn pwm_steady_and_animated_modes() {
    let mut d = PwmLedDriver::new();
    assert_eq!(d.mode, PwmLedMode::Off);
    assert_eq!(d.step(Received::Message(PwmLedMode::Half), 0), PwmAction::Output(PwmLedMode::Half));
    assert_eq!(d.next_update, None);
    let breath = PwmLedMode::Breath { period_ms: 1500 };
    assert_eq!(d.step(Received::Message(breath), 100), PwmAction::Output(breath));
    assert_eq!(d.next_update, Some(110));
    assert_eq!(d.step(Received::Timeout, 115), PwmAction::Output(breath));
    assert_eq!(d.next_update, Some(120));
    let blink = PwmLedMode::BlinkEqualOnOff { period_ms: 250 };
    assert_eq!(d.step(Received::Message(blink), 118), PwmAction::Output(blink));
    assert_eq!(d.next_update, None);
    assert_eq!(d.step(Received::Disconnected, 200), PwmAction::Shutdown);
    assert_eq!(d.mode, blink);
}

#[test]
fn pwm_animated_modes() {
    assert!(!PwmLedMode::Off.animated());
    assert!(!PwmLedMode::On.animated());
    assert!(!PwmLedMode::Half.animated());
    assert!(!PwmLedMode::BlinkEqualOnOff { period_ms: 250 }.animated());
    assert!(PwmLedMode::Wave { period_ms: 1 }.animated());
    assert!(PwmLedMode::WaveLinear { period_ms: 1 }.animated());
    assert!(PwmLedMode::FallingSawTooth { period_ms: 1 }.animated());
    assert!(PwmLedMode::FallingSawToothLinear { period_ms: 1 }.animated());
    assert!(PwmLedMode::RisingSawTooth { period_ms: 1 }.animated());
    assert!(PwmLedMode::RisingSawToothLinear { period_ms: 1 }.animated());
    assert!(PwmLedMode::BreathLinear { period_ms: 1 }.animated());
}

#[test]
fn plain_led_requests() {
    let r = led_signals_handler(Some("led"), Some("on"));
    assert_eq!(r.command, Some(LedCommand::OnOff(LedMode::On)));
    assert_eq!(r.response, "led_ok");
    let r = led_signals_handler(Some("led"), Some("off"));
    assert_eq!(r.command, Some(LedCommand::OnOff(LedMode::Off)));
    let r = led_signals_handler(Some("led"), Some("blink_equal_250"));
    assert_eq!(r.command, Some(LedCommand::OnOff(LedMode::BlinkEqualOnOff { period_ms: 250 })));
    let r = led_signals_handler(Some("led"), Some("half"));
    assert_eq!(r.command, None);
    assert_eq!(r.response, "led_ok");
    let r = led_signals_handler(Some("led"), None);
    assert_eq!(r.command, None);
    assert_eq!(r.response, "led_ok");
}

#[test]
fn pwm_led_requests() {
    let cases = [
        ("off", PwmLedMode::Off),
        ("on", PwmLedMode::On),
        ("half", PwmLedMode::Half),
        ("blink_equal_250", PwmLedMode::BlinkEqualOnOff { period_ms: 250 }),
        ("breath", PwmLedMode::Breath { period_ms: 1500 }),
        ("breath_linear", PwmLedMode::BreathLinear { period_ms: 2500 }),
        ("rising_sawtooth", PwmLedMode::RisingSawTooth { period_ms: 1500 }),
        ("rising_sawtooth_linear", PwmLedMode::RisingSawToothLinear { period_ms: 1500 }),
    ];
    for (signal, mode) in cases {
        let r = led_signals_handler(Some("pwm_led"), Some(signal));
        assert_eq!(r.command, Some(LedCommand::Pwm(mode)));
        assert_eq!(r.response, "pwm_led_ok");
    }
    let r = led_signals_handler(Some("pwm_led"), Some("wave"));
    assert_eq!(r.command, None);
    assert_eq!(r.response, "pwm_led_ok");
}

#[test]
fn unknown_led_requests() {
    let r = led_signals_handler(Some("rgb"), Some("on"));
    assert_eq!(r.command, None);
    assert_eq!(r.response, "unknown_signal: led_id: \"rgb\", led_signal: Some(\"on\")");
    let r = led_signals_handler(Some("x\"y"), None);
    assert_eq!(r.response, "unknown_signal: led_id: \"x\\\"y\", led_signal: None");
    let r = led_signals_handler(None, Some("on"));
    assert_eq!(r.command, None);
    assert_eq!(r.response, "unknown_signal");
}

#[test]
fn signal_only_led_requests() {
    assert_eq!(led_handler::led_signals_handler(Some("off")), Some(LedMode::Off));
    assert_eq!(led_handler::led_signals_handler(Some("on")), Some(LedMode::On));
    assert_eq!(
        led_handler::led_signals_handler(Some("blink_equal_250")),
        Some(LedMode::BlinkEqualOnOff { period_ms: 250 })
    );
    assert_eq!(
        led_handler::led_signals_handler(Some("blink_equal_100")),
        Some(LedMode::BlinkEqualOnOff { period_ms: 100 })
    );
    assert_eq!(led_handler::led_signals_handler(Some("breath")), None);
    assert_eq!(led_handler::led_signals_handler(None), None);
}

#[test]
fn led_and_buzzer_share_gpio_2() {
    assert_eq!(buzzer_control_webserver::led::on_off_led::LED_GPIO_PIN, 2);
    assert_eq!(buzzer_control_webserver::buzzer::BUZZER_GPIO_PIN, 2);
}

#[test]
fn led_on_off_on_then_lost_sender() {
    let mut d = LedDriver::new();
    let events = [
        Received::Message(LedMode::On),
        Received::Message(LedMode::Off),
        Received::Message(LedMode::On),
        Received::Disconnected,
    ];
    let actions: Vec<LedAction> = events.iter().map(|e| d.step(*e, 0)).collect();
    assert_eq!(
        actions,
        vec![LedAction::SetPin(true), LedAction::SetPin(false), LedAction::SetPin(true), LedAction::Stop]
    );
}

#[test]
fn pwm_publishes_the_last_instruction() {
    let mut d = PwmLedDriver::new();
    let wave = PwmLedMode::Wave { period_ms: 800 };
    let events = [
        (Received::Message(PwmLedMode::On), 0),
        (Received::Message(wave), 5),
        (Received::Timeout, 15),
        (Received::Timeout, 26),
        (Received::Disconnected, 30),
    ];
    let actions: Vec<PwmAction> = events.iter().map(|(e, t)| d.step(*e, *t)).collect();
    assert_eq!(
        actions,
        vec![
            PwmAction::Output(PwmLedMode::On),
            PwmAction::Output(wave),
            PwmAction::Output(wave),
            PwmAction::Output(wave),
            PwmAction::Shutdown,
        ]
    );
    assert_eq!(d.mode, wave);
}
