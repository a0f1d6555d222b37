//! LED requests: which LED instruction a request carries and what it is
//! answered with.

pub mod on_off_led;
pub mod pwm_led;

use vstd::prelude::*;
use crate::led::on_off_led::LedMode;
use crate::led::pwm_led::PwmLedMode;
use crate::text::{debug_opt_str, debug_str, opt_str_debug, opt_str_view, str_debug, str_eq};

verus! {

/// The body of an LED request: which LED, and what it should do.
#[derive(Clone, PartialEq, Eq, Debug)]
pub struct LedParams {
    pub led_id: Option<String>,
    pub led_signal: Option<String>,
}

/// An instruction for one of the LED loops.
#[derive(Clone, Copy, PartialEq, Eq, Debug, Structural)]
pub enum LedCommand {
    /// For the plain LED.
    OnOff(LedMode),
    /// For the PWM LED.
    Pwm(PwmLedMode),
}

/// What an LED request does: the instruction to pass on, if any, and the answer.
#[derive(Clone, PartialEq, Eq, Debug)]
pub struct LedOutcome {
    pub command: Option<LedCommand>,
    pub response: String,
}

/// The plain-LED instruction a signal names.
pub open spec fn on_off_command(signal: Option<Seq<char>>) -> Option<LedMode> {
    match signal {
        Some(s) => if s == "off"@ {
            Some(LedMode::Off)
        } else if s == "on"@ {
            Some(LedMode::On)
        } else if s == "blink_equal_250"@ {
            Some(LedMode::BlinkEqualOnOff { period_ms: 250 })
        } else {
            None
        },
        None => None,
    }
}

/// The PWM-LED instruction a signal names.
pub open spec fn pwm_command(signal: Option<Seq<char>>) -> Option<PwmLedMode> {
    match signal {
        Some(s) => if s == "off"@ {
            Some(PwmLedMode::Off)
        } else if s == "on"@ {
            Some(PwmLedMode::On)
        } else if s == "half"@ {
            Some(PwmLedMode::Half)
        } else if s == "blink_equal_250"@ {
            Some(PwmLedMode::BlinkEqualOnOff { period_ms: 250 })
        } else if s == "breath"@ {
            Some(PwmLedMode::Breath { period_ms: 1500 })
        } else if s == "breath_linear"@ {
            Some(PwmLedMode::BreathLinear { period_ms: 2500 })
        } else if s == "rising_sawtooth"@ {
            Some(PwmLedMode::RisingSawTooth { period_ms: 1500 })
        } else if s == "rising_sawtooth_linear"@ {
            Some(PwmLedMode::RisingSawToothLinear { period_ms: 1500 })
        } else {
            None
        },
        None => None,
    }
}

/// What an LED request for `led_id` with `led_signal` does.
///
/// "led" passes the signal's instruction to the plain LED and answers "led_ok";
/// "pwm_led" passes it to the PWM LED and answers "pwm_led_ok" (an unknown signal passes
/// nothing, with the same answer); another LED is answered with both values as `Debug`
/// text, and a request without an LED with "unknown_signal".
pub open spec fn led_outcome(led_id: Option<Seq<char>>, led_signal: Option<Seq<char>>) -> (Option<LedCommand>, Seq<char>) {
    match led_id {
        Some(id) => if id == "led"@ {
            (match on_off_command(led_signal) {
                Some(m) => Some(LedCommand::OnOff(m)),
                None => None,
            }, "led_ok"@)
        } else if id == "pwm_led"@ {
            (match pwm_command(led_signal) {
                Some(m) => Some(LedCommand::Pwm(m)),
                None => None,
            }, "pwm_led_ok"@)
        } else {
            (None, "unknown_signal: led_id: "@ + str_debug(id) + ", led_signal: "@ + opt_str_debug(led_signal))
        },
        None => (None, "unknown_signal"@),
    }
}

fn on_off_instruction(signal: Option<&str>) -> (m: Option<LedMode>)
    ensures
        m == on_off_command(opt_str_view(signal)),
{
    match signal {
        Some(s) => if str_eq(s, "off") {
            Some(LedMode::Off)
        } else if str_eq(s, "on") {
            Some(LedMode::On)
        } else if str_eq(s, "blink_equal_250") {
            Some(LedMode::BlinkEqualOnOff { period_ms: 250 })
        } else {
            None
        },
        None => None,
    }
}

fn pwm_instruction(signal: Option<&str>) -> (m: Option<PwmLedMode>)
    ensures
        m == pwm_command(opt_str_view(signal)),
{
    match signal {
        Some(s) => if str_eq(s, "off") {
            Some(PwmLedMode::Off)
        } else if str_eq(s, "on") {
            Some(PwmLedMode::On)
        } else if str_eq(s, "half") {
            Some(PwmLedMode::Half)
        } else if str_eq(s, "blink_equal_250") {
            Some(PwmLedMode::BlinkEqualOnOff { period_ms: 250 })
        } else if str_eq(s, "breath") {
            Some(PwmLedMode::Breath { period_ms: 1500 })
        } else if str_eq(s, "breath_linear") {
            Some(PwmLedMode::BreathLinear { period_ms: 2500 })
        } else if str_eq(s, "rising_sawtooth") {
            Some(PwmLedMode::RisingSawTooth { period_ms: 1500 })
        } else if str_eq(s, "rising_sawtooth_linear") {
            Some(PwmLedMode::RisingSawToothLinear { period_ms: 1500 })
        } else {
            None
        },
        None => None,
    }
}

/// What an LED request does (see `led_outcome`).
pub fn led_signals_handler(led_id: Option<&str>, led_signal: Option<&str>) -> (out: LedOutcome)
    ensures
        (out.command, out.response@) == led_outcome(opt_str_view(led_id), opt_str_view(led_signal)),
{
    match led_id {
        Some(id) => {
            if str_eq(id, "led") {
                let command = match on_off_instruction(led_signal) {
                    Some(m) => Some(LedCommand::OnOff(m)),
                    None => None,
                };
                LedOutcome { command, response: String::from_str("led_ok") }
            } else if str_eq(id, "pwm_led") {
                let command = match pwm_instruction(led_signal) {
                    Some(m) => Some(LedCommand::Pwm(m)),
                    None => None,
                };
                LedOutcome { command, response: String::from_str("pwm_led_ok") }
            } else {
                let mut response = String::from_str("unknown_signal: led_id: ");
                let id_text = debug_str(id);
                response.append(id_text.as_str());
                response.append(", led_signal: ");
                let signal_text = debug_opt_str(led_signal);
                response.append(signal_text.as_str());
                LedOutcome { command: None, response }
            }
        },
        None => LedOutcome { command: None, response: String::from_str("unknown_signal") },
    }
}


proof fn lemma_signal_literals()
    ensures
        "off"@.len() == 3, "on"@.len() == 2, "half"@.len() == 4, "blink_equal_250"@.len() == 15,
        "breath"@.len() == 6, "breath_linear"@.len() == 13, "rising_sawtooth"@.len() == 15,
        "rising_sawtooth_linear"@.len() == 22, "blink_equal_250"@[0] == 'b', "rising_sawtooth"@[0] == 'r',
        "led"@.len() == 3, "pwm_led"@.len() == 7,
{
    reveal_strlit("off");
    reveal_strlit("on");
    reveal_strlit("half");
    reveal_strlit("blink_equal_250");
    reveal_strlit("breath");
    reveal_strlit("breath_linear");
    reveal_strlit("rising_sawtooth");
    reveal_strlit("rising_sawtooth_linear");
    reveal_strlit("led");
    reveal_strlit("pwm_led");
}

/// Which LED a request reaches and what it is answered: a request for "led" only ever
/// instructs the plain LED and is answered "led_ok"; one for "pwm_led" only ever instructs
/// the PWM LED and is answered "pwm_led_ok"; a request for any other LED instructs nothing
/// and is answered with both values as `Debug` text; a request without an LED instructs
/// nothing and is answered "unknown_signal".
pub proof fn lemma_requests_reach_their_led(led_id: Option<Seq<char>>, led_signal: Option<Seq<char>>)
    ensures
        led_id == Some("led"@) ==> led_outcome(led_id, led_signal).1 == "led_ok"@
            && (led_outcome(led_id, led_signal).0 matches Some(c) ==> c is OnOff),
        led_id == Some("pwm_led"@) ==> led_outcome(led_id, led_signal).1 == "pwm_led_ok"@
            && (led_outcome(led_id, led_signal).0 matches Some(c) ==> c is Pwm),
        led_id is Some && led_id.unwrap() != "led"@ && led_id.unwrap() != "pwm_led"@ ==> led_outcome(
            led_id,
            led_signal,
        ) == (
            None::<LedCommand>,
            "unknown_signal: led_id: "@ + str_debug(led_id.unwrap()) + ", led_signal: "@ + opt_str_debug(led_signal),
        ),
        led_id is None ==> led_outcome(led_id, led_signal) == (None::<LedCommand>, "unknown_signal"@),
{
    lemma_signal_literals();
}

/// The instructions each LED takes: the plain LED "off", "on" and "blink_equal_250"
/// (blinking with a 250 ms period); the PWM LED "off", "on", "half", "blink_equal_250",
/// "breath" (1500 ms), "breath_linear" (2500 ms), "rising_sawtooth" (1500 ms) and
/// "rising_sawtooth_linear" (1500 ms). Any other signal, or none, instructs nothing.
pub proof fn lemma_instruction_tables(s: Option<Seq<char>>)
    ensures
        s == Some("off"@) ==> on_off_command(s) == Some(LedMode::Off) && pwm_command(s) == Some(PwmLedMode::Off),
        s == Some("on"@) ==> on_off_command(s) == Some(LedMode::On) && pwm_command(s) == Some(PwmLedMode::On),
        s == Some("blink_equal_250"@) ==> on_off_command(s) == Some(LedMode::BlinkEqualOnOff { period_ms: 250 })
            && pwm_command(s) == Some(PwmLedMode::BlinkEqualOnOff { period_ms: 250 }),
        s == Some("half"@) ==> on_off_command(s) is None && pwm_command(s) == Some(PwmLedMode::Half),
        s == Some("breath"@) ==> on_off_command(s) is None && pwm_command(s) == Some(PwmLedMode::Breath { period_ms: 1500 }),
        s == Some("breath_linear"@) ==> on_off_command(s) is None
            && pwm_command(s) == Some(PwmLedMode::BreathLinear { period_ms: 2500 }),
        s == Some("rising_sawtooth"@) ==> on_off_command(s) is None
            && pwm_command(s) == Some(PwmLedMode::RisingSawTooth { period_ms: 1500 }),
        s == Some("rising_sawtooth_linear"@) ==> on_off_command(s) is None
            && pwm_command(s) == Some(PwmLedMode::RisingSawToothLinear { period_ms: 1500 }),
        s is None ==> on_off_command(s) is None && pwm_command(s) is None,
        s matches Some(t) && t != "off"@ && t != "on"@ && t != "blink_equal_250"@ ==> on_off_command(s) is None,
        s matches Some(t) && t != "off"@ && t != "on"@ && t != "half"@ && t != "blink_equal_250"@ && t != "breath"@
            && t != "breath_linear"@ && t != "rising_sawtooth"@ && t != "rising_sawtooth_linear"@
            ==> pwm_command(s) is None,
{
    lemma_signal_literals();
}

} // verus!
