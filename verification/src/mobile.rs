//! The mobile boundary: records that Kotlin and Swift see, and the
//! conversions between them and the client core's types.

use crate::config;
use crate::error::{spec_core_message, CoreError};
use crate::proto::{PairResponse, RegisterCameraResponse};
use crate::text::{decimal, push_decimal};
use vstd::prelude::*;
use vstd::std_specs::convert::{FromSpec, FromSpecImpl};
use vstd::string::*;

verus! {

/// `CoreError` in the terms that the mobile platforms receive: network
/// failures and server answers keep their kind, everything else becomes a
/// message.
#[derive(Debug)]
pub enum MobileError {
    Network { message: String },
    Api { status: u16, message: String },
    Other { message: String },
}

/// The mobile error for a core error: `Api` keeps status and message,
/// `Network` keeps its message, and every other error becomes `Other` with
/// its human-readable message.
pub open spec fn mobile_error_matches(e: &CoreError, m: &MobileError) -> bool {
    match e {
        CoreError::Api { status, message } => m matches MobileError::Api { status: s, message: t }
            && s == *status && t@ == message@,
        CoreError::Network(message) => m matches MobileError::Network { message: t } && t@
            == message@,
        _ => m matches MobileError::Other { message: t } && t@ == spec_core_message(e),
    }
}

/// The human-readable message of a mobile error.
pub open spec fn spec_mobile_message(m: &MobileError) -> Seq<char> {
    match m {
        MobileError::Network { message } => "сеть: "@ + message@,
        MobileError::Api { status, message } => "сервер ("@ + decimal(*status as nat) + "): "@
            + message@,
        MobileError::Other { message } => message@,
    }
}

impl MobileError {
    /// Converts a core error.
    pub fn from_core(e: CoreError) -> (m: MobileError)
        ensures
            mobile_error_matches(&e, &m),
    {
        match e {
            CoreError::Api { status, message } => MobileError::Api { status, message },
            CoreError::Network(message) => MobileError::Network { message },
            other => MobileError::Other { message: other.message() },
        }
    }

    /// The human-readable message of the error.
    pub fn message(&self) -> (s: String)
        ensures
            s@ == spec_mobile_message(self),
    {
        match self {
            MobileError::Network { message } => String::from_str("сеть: ").concat(message.as_str()),
            MobileError::Api { status, message } => {
                let mut s = String::from_str("сервер (");
                push_decimal(&mut s, *status as u64);
                s.append("): ");
                s.append(message.as_str());
                s
            },
            MobileError::Other { message } => message.clone(),
        }
    }
}

/// Result of registering a camera, as the platforms receive it.
#[derive(Debug, Clone)]
pub struct CameraRegistration {
    pub camera_id: String,
    pub upload_token: String,
    pub pairing_code: String,
}

/// Result of pairing with a camera, as the platforms receive it.
#[derive(Debug, Clone)]
pub struct PairedCamera {
    pub view_token: String,
    pub camera_name: String,
}

impl From<RegisterCameraResponse> for CameraRegistration {
    fn from(r: RegisterCameraResponse) -> Self {
        CameraRegistration {
            camera_id: r.camera_id,
            upload_token: r.upload_token,
            pairing_code: r.pairing_code,
        }
    }
}

impl FromSpecImpl<RegisterCameraResponse> for CameraRegistration {
    open spec fn obeys_from_spec() -> bool {
        true
    }

    open spec fn from_spec(r: RegisterCameraResponse) -> Self {
        CameraRegistration {
            camera_id: r.camera_id,
            upload_token: r.upload_token,
            pairing_code: r.pairing_code,
        }
    }
}

impl From<PairResponse> for PairedCamera {
    fn from(r: PairResponse) -> Self {
        PairedCamera { view_token: r.view_token, camera_name: r.camera_name }
    }
}

impl FromSpecImpl<PairResponse> for PairedCamera {
    open spec fn obeys_from_spec() -> bool {
        true
    }

    open spec fn from_spec(r: PairResponse) -> Self {
        PairedCamera { view_token: r.view_token, camera_name: r.camera_name }
    }
}

/// What a device is for, as the platforms see it.
#[derive(Debug, Clone, Copy, PartialEq, Eq, Structural)]
pub enum DeviceRole {
    Camera,
    Viewer,
}

/// Mirror of [`config::DeviceConfig`] for the platforms.
#[derive(Debug, Clone, PartialEq, Eq)]
pub struct DeviceConfig {
    pub server_url: Option<String>,
    pub role: Option<DeviceRole>,
    pub camera_id: Option<String>,
    pub upload_token: Option<String>,
    pub pairing_code: Option<String>,
    pub capture_interval_secs: Option<u32>,
    pub view_token: Option<String>,
}

/// The platform role for a core role.
pub open spec fn role_to_mobile(r: config::DeviceRole) -> DeviceRole {
    match r {
        config::DeviceRole::Camera => DeviceRole::Camera,
        config::DeviceRole::Viewer => DeviceRole::Viewer,
    }
}

/// The core role for a platform role.
pub open spec fn role_to_core(r: DeviceRole) -> config::DeviceRole {
    match r {
        DeviceRole::Camera => config::DeviceRole::Camera,
        DeviceRole::Viewer => config::DeviceRole::Viewer,
    }
}

/// The platform role, if any, for a core role, if any.
pub open spec fn opt_role_to_mobile(r: Option<config::DeviceRole>) -> Option<DeviceRole> {
    match r {
        Some(x) => Some(role_to_mobile(x)),
        None => None,
    }
}

/// The core role, if any, for a platform role, if any.
pub open spec fn opt_role_to_core(r: Option<DeviceRole>) -> Option<config::DeviceRole> {
    match r {
        Some(x) => Some(role_to_core(x)),
        None => None,
    }
}

fn role_from_core(r: Option<config::DeviceRole>) -> (m: Option<DeviceRole>)
    ensures
        m == opt_role_to_mobile(r),
{
    match r {
        Some(config::DeviceRole::Camera) => Some(DeviceRole::Camera),
        Some(config::DeviceRole::Viewer) => Some(DeviceRole::Viewer),
        None => None,
    }
}

fn role_into_core(r: Option<DeviceRole>) -> (c: Option<config::DeviceRole>)
    ensures
        c == opt_role_to_core(r),
{
    match r {
        Some(DeviceRole::Camera) => Some(config::DeviceRole::Camera),
        Some(DeviceRole::Viewer) => Some(config::DeviceRole::Viewer),
        None => None,
    }
}

impl From<config::DeviceConfig> for DeviceConfig {
    fn from(c: config::DeviceConfig) -> Self {
        DeviceConfig {
            server_url: c.server_url,
            role: role_from_core(c.role),
            camera_id: c.camera_id,
            upload_token: c.upload_token,
            pairing_code: c.pairing_code,
            capture_interval_secs: c.capture_interval_secs,
            view_token: c.view_token,
        }
    }
}

impl FromSpecImpl<config::DeviceConfig> for DeviceConfig {
    open spec fn obeys_from_spec() -> bool {
        true
    }

    open spec fn from_spec(c: config::DeviceConfig) -> Self {
        DeviceConfig {
            server_url: c.server_url,
            role: opt_role_to_mobile(c.role),
            camera_id: c.camera_id,
            upload_token: c.upload_token,
            pairing_code: c.pairing_code,
            capture_interval_secs: c.capture_interval_secs,
            view_token: c.view_token,
        }
    }
}

impl From<DeviceConfig> for config::DeviceConfig {
    fn from(c: DeviceConfig) -> Self {
        config::DeviceConfig {
            server_url: c.server_url,
            role: role_into_core(c.role),
            camera_id: c.camera_id,
            upload_token: c.upload_token,
            pairing_code: c.pairing_code,
            capture_interval_secs: c.capture_interval_secs,
            view_token: c.view_token,
        }
    }
}

impl FromSpecImpl<DeviceConfig> for config::DeviceConfig {
    open spec fn obeys_from_spec() -> bool {
        true
    }

    open spec fn from_spec(c: DeviceConfig) -> Self {
        config::DeviceConfig {
            server_url: c.server_url,
            role: opt_role_to_core(c.role),
            camera_id: c.camera_id,
            upload_token: c.upload_token,
            pairing_code: c.pairing_code,
            capture_interval_secs: c.capture_interval_secs,
            view_token: c.view_token,
        }
    }
}

/// The platforms' mirror of a configuration holds every field of it in the
/// same place: the server URL, camera id, upload token, pairing code,
/// capture interval and view token are copied as they are, and the role is
/// the same role (camera to camera, viewer to viewer, none to none); and the
/// same holds the way back.
pub proof fn lemma_config_fields_kept(c: config::DeviceConfig, m: DeviceConfig)
    ensures
        <DeviceConfig as FromSpec<config::DeviceConfig>>::from_spec(c).server_url == c.server_url,
        <DeviceConfig as FromSpec<config::DeviceConfig>>::from_spec(c).camera_id == c.camera_id,
        <DeviceConfig as FromSpec<config::DeviceConfig>>::from_spec(c).upload_token
            == c.upload_token,
        <DeviceConfig as FromSpec<config::DeviceConfig>>::from_spec(c).pairing_code
            == c.pairing_code,
        <DeviceConfig as FromSpec<config::DeviceConfig>>::from_spec(c).capture_interval_secs
            == c.capture_interval_secs,
        <DeviceConfig as FromSpec<config::DeviceConfig>>::from_spec(c).view_token == c.view_token,
        (c.role == Some(config::DeviceRole::Camera)) <==> (<DeviceConfig as FromSpec<
            config::DeviceConfig,
        >>::from_spec(c).role == Some(DeviceRole::Camera)),
        (c.role == Some(config::DeviceRole::Viewer)) <==> (<DeviceConfig as FromSpec<
            config::DeviceConfig,
        >>::from_spec(c).role == Some(DeviceRole::Viewer)),
        <config::DeviceConfig as FromSpec<DeviceConfig>>::from_spec(m).server_url == m.server_url,
        <config::DeviceConfig as FromSpec<DeviceConfig>>::from_spec(m).camera_id == m.camera_id,
        <config::DeviceConfig as FromSpec<DeviceConfig>>::from_spec(m).upload_token
            == m.upload_token,
        <config::DeviceConfig as FromSpec<DeviceConfig>>::from_spec(m).pairing_code
            == m.pairing_code,
        <config::DeviceConfig as FromSpec<DeviceConfig>>::from_spec(m).capture_interval_secs
            == m.capture_interval_secs,
        <config::DeviceConfig as FromSpec<DeviceConfig>>::from_spec(m).view_token == m.view_token,
        (m.role == Some(DeviceRole::Camera)) <==> (<config::DeviceConfig as FromSpec<
            DeviceConfig,
        >>::from_spec(m).role == Some(config::DeviceRole::Camera)),
        (m.role == Some(DeviceRole::Viewer)) <==> (<config::DeviceConfig as FromSpec<
            DeviceConfig,
        >>::from_spec(m).role == Some(config::DeviceRole::Viewer)),
{
}

/// Converting a configuration to the platforms' mirror and back gives it
/// back unchanged, and so does the way round from the mirror.
pub proof fn lemma_config_round_trip(c: config::DeviceConfig, m: DeviceConfig)
    ensures
        <config::DeviceConfig as FromSpec<DeviceConfig>>::from_spec(
            <DeviceConfig as FromSpec<config::DeviceConfig>>::from_spec(c),
        ) == c,
        <DeviceConfig as FromSpec<config::DeviceConfig>>::from_spec(
            <config::DeviceConfig as FromSpec<DeviceConfig>>::from_spec(m),
        ) == m,
{
    match c.role {
        Some(r) => assert(role_to_core(role_to_mobile(r)) == r),
        None => {},
    }
    match m.role {
        Some(r) => assert(role_to_mobile(role_to_core(r)) == r),
        None => {},
    }
}

} // verus!
