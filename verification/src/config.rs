//! State of a device. The platform hands over the directory to keep it in;
//! where files live is the platform's business.

use vstd::prelude::*;

verus! {

/// What a device is for.
#[derive(Debug, Clone, Copy, PartialEq, Eq, Structural)]
pub enum DeviceRole {
    Camera,
    Viewer,
}

/// Configuration of a device. A device that has never saved one starts from
/// [`DeviceConfig::default`], with nothing set.
#[derive(Debug, Clone, PartialEq, Eq)]
pub struct DeviceConfig {
    pub server_url: Option<String>,
    pub role: Option<DeviceRole>,
    // role "camera"
    pub camera_id: Option<String>,
    pub upload_token: Option<String>,
    pub pairing_code: Option<String>,
    pub capture_interval_secs: Option<u32>,
    // role "viewer"
    pub view_token: Option<String>,
}

/// The configuration with nothing set.
pub open spec fn is_empty_config(c: DeviceConfig) -> bool {
    &&& c.server_url is None
    &&& c.role is None
    &&& c.camera_id is None
    &&& c.upload_token is None
    &&& c.pairing_code is None
    &&& c.capture_interval_secs is None
    &&& c.view_token is None
}

impl Default for DeviceConfig {
    /// The configuration of a first start: nothing set.
    fn default() -> (c: Self)
        ensures
            is_empty_config(c),
    {
        DeviceConfig {
            server_url: None,
            role: None,
            camera_id: None,
            upload_token: None,
            pairing_code: None,
            capture_interval_secs: None,
            view_token: None,
        }
    }
}

} // verus!
