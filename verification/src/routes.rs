//! Paths of the HTTP API: the single source of truth for the server's router
//! and for the client.

use vstd::prelude::*;
use vstd::string::*;

verus! {

/// Liveness probe.
pub const HEALTHZ: &'static str = "/healthz";

/// Camera registration.
pub const REGISTER_CAMERA: &'static str = "/api/v1/cameras/register";

/// Viewer pairing by code.
pub const PAIR: &'static str = "/api/v1/pair";

/// The path of a camera's frame upload: `/api/v1/cameras/{camera_id}/frame`.
pub open spec fn spec_camera_frame(camera_id: Seq<char>) -> Seq<char> {
    "/api/v1/cameras/"@ + camera_id + "/frame"@
}

/// The path of a viewer's wallpaper: `/cam/{view_token}/wallpaper.jpg`.
/// The token travels in the path because iOS Shortcuts can only issue a
/// plain GET by URL.
pub open spec fn spec_wallpaper(view_token: Seq<char>) -> Seq<char> {
    "/cam/"@ + view_token + "/wallpaper.jpg"@
}

/// Path at which a camera uploads its frames.
pub fn camera_frame(camera_id: &str) -> (path: String)
    ensures
        path@ == spec_camera_frame(camera_id@),
{
    String::from_str("/api/v1/cameras/").concat(camera_id).concat("/frame")
}

/// Path at which a viewer fetches its wallpaper.
pub fn wallpaper(view_token: &str) -> (path: String)
    ensures
        path@ == spec_wallpaper(view_token@),
{
    String::from_str("/cam/").concat(view_token).concat("/wallpaper.jpg")
}

} // verus!
