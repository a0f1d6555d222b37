//! The answer to a status request.

use vstd::prelude::*;

verus! {

/// What the server reports about itself.
#[derive(Clone, PartialEq, Eq, Debug)]
pub struct StatusResponse {
    pub buzzer_status: String,
    pub latest_image: String,
    pub camera_status: String,
    pub server_status: String,
}

/// The status report, given whether the buzzer is held by a request and the latest image
/// (`None` while a capture holds the camera): the buzzer is "buzzer_busy" or
/// "buzzer_free"; the camera is "camera_ok" with its latest image, or "camera_busy" with
/// the example image; the server is "online".
///
/// The report is a function of these two values alone: it takes them by value, has no
/// `&mut` parameter and reaches no shared state, so asking for the status changes nothing.
/// The program reads the two locks with `try_lock` and lets go of them at once.
pub fn status_response(buzzer_locked: bool, latest_image: Option<String>) -> (r: StatusResponse)
    ensures
        r.buzzer_status@ == (if buzzer_locked { "buzzer_busy"@ } else { "buzzer_free"@ }),
        latest_image matches Some(image) ==> r.latest_image@ == image@ && r.camera_status@ == "camera_ok"@,
        latest_image is None ==> r.latest_image@ == "img/example.jpg"@ && r.camera_status@ == "camera_busy"@,
        r.server_status@ == "online"@,
{
    let (latest_image, camera_status) = match latest_image {
        Some(image) => (image, String::from_str("camera_ok")),
        None => (String::from_str("img/example.jpg"), String::from_str("camera_busy")),
    };
    StatusResponse {
        buzzer_status: if buzzer_locked {
            String::from_str("buzzer_busy")
        } else {
            String::from_str("buzzer_free")
        },
        latest_image,
        camera_status,
        server_status: String::from_str("online"),
    }
}

} // verus!
