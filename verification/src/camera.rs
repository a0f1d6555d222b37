//! Camera requests: whether a picture is taken, at which quality, and what
//! the request is answered with.

use vstd::prelude::*;
use crate::text::{opt_str_view, str_eq};

verus! {

/// JPEG quality of a "good" picture.
pub const GOOD_IMAGE_QUALITY: u8 = 95;

/// JPEG quality of a "shitty" picture.
pub const SHITTY_IMAGE_QUALITY: u8 = 5;

/// The body of a camera request.
#[derive(Clone, PartialEq, Eq, Debug)]
pub struct CameraParams {
    pub camera_signal: Option<String>,
}

/// The answer to a camera request.
#[derive(Clone, PartialEq, Eq, Debug)]
pub struct CameraHandlerResponse {
    pub lib_camera_status: String,
    pub latest_image: String,
}

/// What a camera request does.
#[derive(Clone, Copy, PartialEq, Eq, Debug, Structural)]
pub enum CameraAction {
    /// Another request holds the camera.
    Busy,
    /// The request names no known picture.
    UnknownSignal,
    /// Take a picture at this JPEG quality.
    TakeImage { quality: u8 },
}

/// What a camera request does: nothing while another request holds the camera; a
/// picture at `GOOD_IMAGE_QUALITY` for "good" and at `SHITTY_IMAGE_QUALITY` for "shitty";
/// nothing for any other signal or none.
pub open spec fn camera_action(camera_free: bool, signal: Option<Seq<char>>) -> CameraAction {
    if !camera_free {
        CameraAction::Busy
    } else {
        match signal {
            Some(s) => if s == "good"@ {
                CameraAction::TakeImage { quality: GOOD_IMAGE_QUALITY }
            } else if s == "shitty"@ {
                CameraAction::TakeImage { quality: SHITTY_IMAGE_QUALITY }
            } else {
                CameraAction::UnknownSignal
            },
            None => CameraAction::UnknownSignal,
        }
    }
}

/// What a camera request does (see `camera_action`).
pub fn camera_signals_handler(camera_free: bool, camera_signal: Option<&str>) -> (a: CameraAction)
    ensures
        a == camera_action(camera_free, opt_str_view(camera_signal)),
{
    if !camera_free {
        return CameraAction::Busy;
    }
    match camera_signal {
        Some(s) => if str_eq(s, "good") {
            CameraAction::TakeImage { quality: GOOD_IMAGE_QUALITY }
        } else if str_eq(s, "shitty") {
            CameraAction::TakeImage { quality: SHITTY_IMAGE_QUALITY }
        } else {
            CameraAction::UnknownSignal
        },
        None => CameraAction::UnknownSignal,
    }
}

/// The answer to a camera request: the status and file name the capture gave when a
/// picture was taken; otherwise "camera_busy" or "camera_unknown_signal" and no file.
pub fn camera_response(action: CameraAction, capture: Option<(String, String)>) -> (r: CameraHandlerResponse)
    requires
        action is TakeImage <==> capture is Some,
    ensures
        action is Busy ==> r.lib_camera_status@ == "camera_busy"@ && r.latest_image@ == Seq::<char>::empty(),
        action is UnknownSignal ==> r.lib_camera_status@ == "camera_unknown_signal"@
            && r.latest_image@ == Seq::<char>::empty(),
        capture matches Some(c) ==> r.lib_camera_status@ == c.0@ && r.latest_image@ == c.1@,
{
    match capture {
        Some((status, file)) => CameraHandlerResponse { lib_camera_status: status, latest_image: file },
        None => {
            let status = match action {
                CameraAction::Busy => String::from_str("camera_busy"),
                _ => String::from_str("camera_unknown_signal"),
            };
            CameraHandlerResponse { lib_camera_status: status, latest_image: String::new() }
        },
    }
}


/// A camera held by another request never takes a picture, whatever the signal; a free
/// camera is never answered "busy"; and a picture is taken only for "good" (at quality 95)
/// and "shitty" (at quality 5), each of which always takes one.
pub proof fn lemma_pictures_only_when_free(signal: Option<Seq<char>>)
    ensures
        camera_action(false, signal) == CameraAction::Busy,
        camera_action(true, signal) != CameraAction::Busy,
        camera_action(true, signal) matches CameraAction::TakeImage { quality } ==>
            (signal == Some("good"@) && quality == 95) || (signal == Some("shitty"@) && quality == 5),
        signal == Some("good"@) ==> camera_action(true, signal) == (CameraAction::TakeImage { quality: 95 }),
        signal == Some("shitty"@) ==> camera_action(true, signal) == (CameraAction::TakeImage { quality: 5 }),
{
    reveal_strlit("good");
    reveal_strlit("shitty");
    assert("good"@.len() == 4 && "shitty"@.len() == 6);
}

} // verus!
