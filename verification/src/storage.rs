//! Where frames live: `{data_dir}/frames/{camera_id}.jpg`; the database
//! holds only metadata. `camera_id` always comes from the database (a
//! generated UUID), never from the request.

use vstd::prelude::*;
use vstd::string::*;

verus! {

/// Directory of the frames, inside the data directory.
pub const FRAMES_DIR: &'static str = "frames";

/// File name of a camera's last frame.
pub fn frame_file_name(camera_id: &str) -> (name: String)
    ensures
        name@ == camera_id@ + ".jpg"@,
{
    String::from_str(camera_id).concat(".jpg")
}

/// File name under which a new frame is written before it replaces the old
/// one by a rename, so that a reader never gets half a file.
pub fn frame_temp_file_name(camera_id: &str) -> (name: String)
    ensures
        name@ == camera_id@ + ".jpg.tmp"@,
{
    String::from_str(camera_id).concat(".jpg.tmp")
}

} // verus!
