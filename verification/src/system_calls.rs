//! Updating the example image: a full-size picture written over
//! `example.jpg`, reported by the text `libcamera-still` printed.

use vstd::prelude::*;
use vstd::utf8::{decode_utf8, valid_utf8};
use crate::text::{decimal, decimal_string, joined};
use crate::use_libcamera::CAMERA_MODES;

verus! {

/// std's `Display` text of the error `str::from_utf8` gives for `bytes`.
pub uninterp spec fn utf8_error_text(bytes: Seq<u8>) -> Seq<char>;

/// `std::str::from_utf8`: the text `bytes` encode when they are valid UTF-8, else the
/// `Display` text of the error. The contract states validity and the decoded text by
/// vstd's UTF-8 model and names the error text.
#[verifier::external_body]
fn decode_utf8_bytes(bytes: &[u8]) -> (r: Result<String, String>)
    ensures
        r is Ok <==> valid_utf8(bytes@),
        r matches Ok(s) ==> s@ == decode_utf8(bytes@),
        r matches Err(m) ==> m@ == utf8_error_text(bytes@),
{
    match std::str::from_utf8(bytes) {
        Ok(s) => Ok(s.to_string()),
        Err(e) => Err(e.to_string()),
    }
}

/// The arguments of `libcamera-still` for the update: no preview, a 50 ms timeout, the
/// largest camera mode, written to `example.jpg`.
pub fn update_image_args() -> (args: Vec<String>)
    ensures
        args@.len() == 5,
        args@[0]@ == "-n"@,
        args@[1]@ == "-t 50"@,
        args@[2]@ == "--width="@ + decimal(CAMERA_MODES[3].0 as nat),
        args@[3]@ == "--height="@ + decimal(CAMERA_MODES[3].1 as nat),
        args@[4]@ == "-oexample.jpg"@,
{
    let (width, height) = CAMERA_MODES[3];
    let mut args: Vec<String> = Vec::new();
    args.push(String::from_str("-n"));
    args.push(String::from_str("-t 50"));
    let w = decimal_string(width as u64);
    args.push(joined("--width=", w.as_str()));
    let h = decimal_string(height as u64);
    args.push(joined("--height=", h.as_str()));
    args.push(String::from_str("-oexample.jpg"));
    args
}

/// What the update reports: the text `libcamera-still` printed, or, when that is not
/// UTF-8, "invalid UTF-8 sequence: " and the decoding error.
pub fn update_image_report(stdout: &[u8]) -> (report: String)
    ensures
        valid_utf8(stdout@) ==> report@ == decode_utf8(stdout@),
        !valid_utf8(stdout@) ==> report@ == "invalid UTF-8 sequence: "@ + utf8_error_text(stdout@),
{
    match decode_utf8_bytes(stdout) {
        Ok(text) => text,
        Err(message) => joined("invalid UTF-8 sequence: ", message.as_str()),
    }
}

} // verus!
