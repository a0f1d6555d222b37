//! Taking a picture with `libcamera-still`: the file name, the command line
//! and what the request is told about the result.

use vstd::prelude::*;
use std::fmt::Write;
use crate::text::{decimal, decimal_string, joined};

verus! {

/// Picture sizes (width, height) the camera module takes.
pub const CAMERA_MODES: [(u16, u16); 4] = [(640, 480), (1296, 972), (1920, 1080), (2592, 1944)];

/// The file pictures are written to when none was named.
pub open spec fn example_image() -> Seq<char> {
    "example.jpg"@
}

/// chrono's rendering of the UTC time `unix_secs` seconds after the Unix epoch with the
/// format string `pattern`; `None` where the time is out of chrono's range or the pattern
/// cannot be rendered.
pub uninterp spec fn utc_formatted(unix_secs: i64, pattern: Seq<char>) -> Option<Seq<char>>;

/// The UTC time `unix_secs` seconds after the Unix epoch, formatted by chrono with
/// `pattern` (`DateTime::<Utc>::from_timestamp` and `DateTime::format`). The contract
/// names the result; `None` stands for a time out of chrono's range or a pattern whose
/// rendering fails, which the contract does not spell out.
#[verifier::external_body]
fn format_utc(unix_secs: i64, pattern: &str) -> (r: Option<String>)
    ensures
        r matches Some(s) ==> utc_formatted(unix_secs, pattern@) == Some(s@),
        r is None ==> utc_formatted(unix_secs, pattern@) is None,
{
    match chrono::DateTime::from_timestamp(unix_secs, 0) {
        Some(t) => {
            let mut out = String::new();
            match write!(out, "{}", t.format(pattern)) {
                Ok(()) => Some(out),
                Err(_) => None,
            }
        },
        None => None,
    }
}

/// The file name of a picture taken at `unix_secs`: the UTC time as
/// `YYYY_MM_DD-HHMMSS`, then `.jpg`.
pub fn capture_file_name(unix_secs: i64) -> (name: Option<String>)
    ensures
        match utc_formatted(unix_secs, "%Y_%m_%d-%H%M%S"@) {
            Some(stamp) => name matches Some(n) && n@ == stamp + ".jpg"@,
            None => name is None,
        },
{
    match format_utc(unix_secs, "%Y_%m_%d-%H%M%S") {
        Some(stamp) => Some(joined(stamp.as_str(), ".jpg")),
        None => None,
    }
}

/// The arguments of `libcamera-still` for a picture at `quality`, written to `file_name`:
/// no preview, a 20 ms timeout, the second camera mode's size.
pub fn take_image_args(quality: u8, file_name: &str) -> (args: Vec<String>)
    ensures
        args@.len() == 6,
        args@[0]@ == "-n"@,
        args@[1]@ == "-t 20"@,
        args@[2]@ == "--width="@ + decimal(CAMERA_MODES[1].0 as nat),
        args@[3]@ == "--height="@ + decimal(CAMERA_MODES[1].1 as nat),
        args@[4]@ == "-q"@ + decimal(quality as nat),
        args@[5]@ == "-o"@ + file_name@,
{
    let (width, height) = CAMERA_MODES[1];
    let mut args: Vec<String> = Vec::new();
    args.push(String::from_str("-n"));
    args.push(String::from_str("-t 20"));
    let w = decimal_string(width as u64);
    args.push(joined("--width=", w.as_str()));
    let h = decimal_string(height as u64);
    args.push(joined("--height=", h.as_str()));
    let q = decimal_string(quality as u64);
    args.push(joined("-q", q.as_str()));
    args.push(joined("-o", file_name));
    args
}

/// What a capture reports: "camera_ok" and the picture's file when `libcamera-still` ran,
/// "camera_error" and the example image when it could not be started.
pub fn take_image_outcome(started: bool, file_name: String) -> (r: (String, String))
    ensures
        started ==> r.0@ == "camera_ok"@ && r.1@ == file_name@,
        !started ==> r.0@ == "camera_error"@ && r.1@ == example_image(),
{
    if started {
        (String::from_str("camera_ok"), file_name)
    } else {
        (String::from_str("camera_error"), String::from_str("example.jpg"))
    }
}


/// The camera modes are 640x480, 1296x972, 1920x1080 and 2592x1944; pictures are taken at
/// the second.
pub proof fn lemma_camera_modes()
    ensures
        CAMERA_MODES@ == seq![(640u16, 480u16), (1296u16, 972u16), (1920u16, 1080u16), (2592u16, 1944u16)],
{
    assert(CAMERA_MODES@ =~= seq![(640u16, 480u16), (1296u16, 972u16), (1920u16, 1080u16), (2592u16, 1944u16)]);
}

} // verus!
