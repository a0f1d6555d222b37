//! Plain-LED requests that carry only a signal: which instruction they pass
//! to the LED loop (`crate::led::on_off_led::LedDriver`).

use vstd::prelude::*;
pub use crate::led::on_off_led::LedMode;
use crate::text::{opt_str_view, str_eq};

verus! {

/// The body of a plain-LED request.
#[derive(Clone, PartialEq, Eq, Debug)]
pub struct LedParams {
    pub led_signal: Option<String>,
}

/// The plain-LED instruction a signal names: "off", "on", and blinking with a period of
/// 250 or 100 milliseconds; any other signal, or none, names nothing.
pub open spec fn led_signal_command(signal: Option<Seq<char>>) -> Option<LedMode> {
    match signal {
        Some(s) => if s == "off"@ {
            Some(LedMode::Off)
        } else if s == "on"@ {
            Some(LedMode::On)
        } else if s == "blink_equal_250"@ {
            Some(LedMode::BlinkEqualOnOff { period_ms: 250 })
        } else if s == "blink_equal_100"@ {
            Some(LedMode::BlinkEqualOnOff { period_ms: 100 })
        } else {
            None
        },
        None => None,
    }
}

/// The instruction a plain-LED request passes to the LED loop (see `led_signal_command`).
pub fn led_signals_handler(led_signal: Option<&str>) -> (m: Option<LedMode>)
    ensures
        m == led_signal_command(opt_str_view(led_signal)),
{
    match led_signal {
        Some(s) => if str_eq(s, "off") {
            Some(LedMode::Off)
        } else if str_eq(s, "on") {
            Some(LedMode::On)
        } else if str_eq(s, "blink_equal_250") {
            Some(LedMode::BlinkEqualOnOff { period_ms: 250 })
        } else if str_eq(s, "blink_equal_100") {
            Some(LedMode::BlinkEqualOnOff { period_ms: 100 })
        } else {
            None
        },
        None => None,
    }
}


/// The instructions a signal-only request passes to the plain LED: "off", "on", and
/// blinking with a 250 ms ("blink_equal_250") or 100 ms ("blink_equal_100") period. Any
/// other signal, or none, passes nothing.
pub proof fn lemma_signal_table(s: Option<Seq<char>>)
    ensures
        s == Some("off"@) ==> led_signal_command(s) == Some(LedMode::Off),
        s == Some("on"@) ==> led_signal_command(s) == Some(LedMode::On),
        s == Some("blink_equal_250"@) ==> led_signal_command(s) == Some(LedMode::BlinkEqualOnOff { period_ms: 250 }),
        s == Some("blink_equal_100"@) ==> led_signal_command(s) == Some(LedMode::BlinkEqualOnOff { period_ms: 100 }),
        s is None ==> led_signal_command(s) is None,
        s matches Some(t) && t != "off"@ && t != "on"@ && t != "blink_equal_250"@ && t != "blink_equal_100"@
            ==> led_signal_command(s) is None,
{
    reveal_strlit("off");
    reveal_strlit("on");
    reveal_strlit("blink_equal_250");
    reveal_strlit("blink_equal_100");
    assert("off"@.len() == 3 && "on"@.len() == 2 && "blink_equal_250"@.len() == 15);
    assert("blink_equal_250"@[13] == '5' && "blink_equal_100"@[13] == '0');
}

} // verus!
