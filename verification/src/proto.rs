//! Messages of the HTTP API, shared by the server and every client. Their
//! JSON form is given to them where they cross the wire.

use vstd::prelude::*;

verus! {

/// Camera registration request.
#[derive(Debug, Clone)]
pub struct RegisterCameraRequest {
    /// Human-readable camera name ("Дача", "Аквариум").
    pub name: String,
}

/// Camera registration answer.
#[derive(Debug, Clone)]
pub struct RegisterCameraResponse {
    pub camera_id: String,
    /// The camera's secret for frame uploads (Bearer).
    pub upload_token: String,
    /// Short code that a viewer types in to connect.
    pub pairing_code: String,
}

/// Pairing request of a viewer.
#[derive(Debug, Clone)]
pub struct PairRequest {
    pub pairing_code: String,
}

/// Pairing answer.
#[derive(Debug, Clone)]
pub struct PairResponse {
    /// The viewer's token, part of its personal wallpaper URL.
    pub view_token: String,
    pub camera_name: String,
}

/// Answer to a frame upload.
#[derive(Debug, Clone)]
pub struct FrameUploadResponse {
    /// Unix time (seconds) at which the server accepted the frame.
    pub received_at: i64,
}

/// Error body that the server sends along with a status outside 2xx.
#[derive(Debug, Clone)]
pub struct ApiErrorBody {
    /// Machine-readable code ("invalid_pairing_code", "camera_not_found").
    pub code: String,
    /// Human-readable description for logs and UI.
    pub message: String,
}

} // verus!
