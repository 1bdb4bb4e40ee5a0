use fortochka::config;
use fortochka::error::CoreError;
use fortochka::mobile::{CameraRegistration, DeviceConfig, DeviceRole, MobileError, PairedCamera};
use fortochka::proto::{PairResponse, RegisterCameraResponse};

#[test]
fn core_errors_map_to_mobile_errors() {
    match MobileError::from_core(CoreError::Api { status: 404, message: "нет".to_string() }) {
        MobileError::Api { status, message } => assert_eq!((status, message.as_str()), (404, "нет")),
        other => panic!("{other:?}"),
    }
    match MobileError::from_core(CoreError::Network("timeout".to_string())) {
        MobileError::Network { message } => assert_eq!(message, "timeout"),
        other => panic!("{other:?}"),
    }
    match MobileError::from_core(CoreError::Io("disk".to_string())) {
        MobileError::Other { message } => assert_eq!(message, "ввод-вывод: disk"),
        other => panic!("{other:?}"),
    }
}

#[test]
fn mobile_error_messages() {
    assert_eq!(MobileError::Network { message: "x".to_string() }.message(), "сеть: x");
    assert_eq!(MobileError::Api { status: 500, message: "y".to_string() }.message(), "сервер (500): y");
    assert_eq!(MobileError::Other { message: "z".to_string() }.message(), "z");
}

#[test]
fn responses_become_records() {
    let r = CameraRegistration::from(RegisterCameraResponse {
        camera_id: "cam-1".into(),
        upload_token: "secret".into(),
        pairing_code: "ABC123".into(),
    });
    assert_eq!((r.camera_id.as_str(), r.upload_token.as_str(), r.pairing_code.as_str()), ("cam-1", "secret", "ABC123"));
    let p = PairedCamera::from(PairResponse { view_token: "tok".into(), camera_name: "Дача".into() });
    assert_eq!((p.view_token.as_str(), p.camera_name.as_str()), ("tok", "Дача"));
}

#[test]
fn config_round_trip_through_mirror() {
    let core = config::DeviceConfig {
        server_url: Some("https://example.com".into()),
        role: Some(config::DeviceRole::Viewer),
        view_token: Some("tok".into()),
        capture_interval_secs: Some(60),
        ..config::DeviceConfig::default()
    };
    let mirror = DeviceConfig::from(core.clone());
    assert_eq!(mirror.role, Some(DeviceRole::Viewer));
    assert_eq!(mirror.server_url.as_deref(), Some("https://example.com"));
    assert_eq!(config::DeviceConfig::from(mirror), core);
}

#[test]
fn default_config_is_empty() {
    let c = config::DeviceConfig::default();
    assert_eq!(c, config::DeviceConfig {
        server_url: None,
        role: None,
        camera_id: None,
        upload_token: None,
        pairing_code: None,
        capture_interval_secs: None,
        view_token: None,
    });
}
