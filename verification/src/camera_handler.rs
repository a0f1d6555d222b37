//! Camera requests guarded by an in-use flag: whether a picture is taken,
//! at which quality, and the answer, which does not carry the file name.

use vstd::prelude::*;
use crate::camera::{GOOD_IMAGE_QUALITY, SHITTY_IMAGE_QUALITY};
use crate::text::{opt_str_view, str_eq};

verus! {

/// The body of a camera request.
#[derive(Clone, PartialEq, Eq, Debug)]
pub struct CameraParams {
    pub camera_signal: Option<String>,
}

/// What a camera request does: the quality of the picture to take, if any, and the answer.
#[derive(Clone, PartialEq, Eq, Debug)]
pub struct CameraRequestOutcome {
    pub capture_quality: Option<u8>,
    pub response: String,
}

/// What a camera request does: while the camera is in use it is answered "camera_busy";
/// "good" and "shitty" take a picture at their quality and "camera_ready" follows, as it
/// does for any other signal; no signal is answered "camera_unknown_error".
pub open spec fn camera_outcome(camera_in_use: bool, signal: Option<Seq<char>>) -> (Option<u8>, Seq<char>) {
    if camera_in_use {
        (None, "camera_busy"@)
    } else {
        match signal {
            Some(s) => if s == "good"@ {
                (Some(GOOD_IMAGE_QUALITY), "camera_ready"@)
            } else if s == "shitty"@ {
                (Some(SHITTY_IMAGE_QUALITY), "camera_ready"@)
            } else {
                (None, "camera_ready"@)
            },
            None => (None, "camera_unknown_error"@),
        }
    }
}

/// What a camera request does (see `camera_outcome`).
pub fn camera_signals_handler(camera_in_use: bool, camera_signal: Option<&str>) -> (r: CameraRequestOutcome)
    ensures
        (r.capture_quality, r.response@) == camera_outcome(camera_in_use, opt_str_view(camera_signal)),
{
    if camera_in_use {
        return CameraRequestOutcome { capture_quality: None, response: String::from_str("camera_busy") };
    }
    match camera_signal {
        Some(s) => if str_eq(s, "good") {
            CameraRequestOutcome { capture_quality: Some(GOOD_IMAGE_QUALITY), response: String::from_str("camera_ready") }
        } else if str_eq(s, "shitty") {
            CameraRequestOutcome { capture_quality: Some(SHITTY_IMAGE_QUALITY), response: String::from_str("camera_ready") }
        } else {
            CameraRequestOutcome { capture_quality: None, response: String::from_str("camera_ready") }
        },
        None => CameraRequestOutcome { capture_quality: None, response: String::from_str("camera_unknown_error") },
    }
}


/// While the camera is in use no picture is taken and the answer is "camera_busy",
/// whatever the signal; otherwise the answer is never "camera_busy", a picture is taken
/// only for "good" (quality 95) and "shitty" (quality 5), and both are answered
/// "camera_ready".
pub proof fn lemma_no_capture_while_in_use(signal: Option<Seq<char>>)
    ensures
        camera_outcome(true, signal) == (None::<u8>, "camera_busy"@),
        camera_outcome(false, signal).1 != "camera_busy"@,
        camera_outcome(false, signal).0 matches Some(q) ==>
            (signal == Some("good"@) && q == 95) || (signal == Some("shitty"@) && q == 5),
        signal == Some("good"@) ==> camera_outcome(false, signal) == (Some(95u8), "camera_ready"@),
        signal == Some("shitty"@) ==> camera_outcome(false, signal) == (Some(5u8), "camera_ready"@),
        signal is None ==> camera_outcome(false, signal) == (None::<u8>, "camera_unknown_error"@),
{
    reveal_strlit("good");
    reveal_strlit("shitty");
    reveal_strlit("camera_busy");
    reveal_strlit("camera_ready");
    reveal_strlit("camera_unknown_error");
    assert("good"@.len() == 4 && "shitty"@.len() == 6);
    assert("camera_busy"@.len() == 11 && "camera_ready"@.len() == 12 && "camera_unknown_error"@.len() == 20);
}

} // verus!
