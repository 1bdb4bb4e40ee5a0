use fortochka::client::{
    endpoint, error_message, is_success, parse_base_url, response_error, wallpaper_url,
};
use fortochka::error::CoreError;
use fortochka::proto::ApiErrorBody;
use fortochka::retry::{Backoff, RetryDecision};

#[test]
fn api_error_body_is_surfaced() {
    let body = ApiErrorBody {
        code: "invalid_pairing_code".to_string(),
        message: "нет такого кода".to_string(),
    };
    match response_error(404, Some(body)) {
        CoreError::Api { status, message } => {
            assert_eq!(status, 404);
            assert_eq!(message, "нет такого кода");
        }
        other => panic!("ожидали Api, получили: {other:?}"),
    }
}

#[test]
fn missing_body_falls_back_to_reason_phrase() {
    match response_error(404, None) {
        CoreError::Api { status, message } => {
            assert_eq!(status, 404);
            assert_eq!(message, "Not Found");
        }
        other => panic!("ожидали Api, получили: {other:?}"),
    }
    match response_error(599, None) {
        CoreError::Api { message, .. } => assert_eq!(message, "неизвестная ошибка"),
        other => panic!("ожидали Api, получили: {other:?}"),
    }
    assert_eq!(error_message(None, Some("Bad Gateway")), "Bad Gateway");
}

#[test]
fn client_errors_are_not_retried() {
    let err = response_error(404, None);
    assert!(!err.is_transient());
    assert_eq!(Backoff::default().after_failure(0, err.is_transient()), RetryDecision::GiveUp);
}

#[test]
fn server_errors_are_retried_then_given_up() {
    let policy = Backoff { attempts: 3, base_delay: 1, max_delay: 2 };
    let err = response_error(500, None);
    assert!(err.is_transient());
    let mut retries = 0;
    let mut calls = 1;
    while let RetryDecision::RetryAfter { retries: next, .. } = policy.after_failure(retries, err.is_transient()) {
        retries = next;
        calls += 1;
    }
    assert_eq!(calls, 3);
}

#[test]
fn success_statuses() {
    assert!(is_success(200));
    assert!(is_success(204));
    assert!(is_success(299));
    assert!(!is_success(199));
    assert!(!is_success(300));
    assert!(!is_success(404));
}

#[test]
fn transient_errors() {
    assert!(CoreError::Network("timeout".to_string()).is_transient());
    assert!(CoreError::Api { status: 503, message: String::new() }.is_transient());
    assert!(!CoreError::Api { status: 499, message: String::new() }.is_transient());
    assert!(!CoreError::Io("disk".to_string()).is_transient());
    assert!(!CoreError::Serde("json".to_string()).is_transient());
    assert!(!CoreError::InvalidBaseUrl("x".to_string()).is_transient());
}

#[test]
fn core_error_messages() {
    assert_eq!(
        CoreError::Api { status: 404, message: "нет".to_string() }.message(),
        "сервер вернул 404: нет"
    );
    assert_eq!(CoreError::Network("timeout".to_string()).message(), "сеть: timeout");
    assert_eq!(CoreError::Io("disk".to_string()).message(), "ввод-вывод: disk");
    assert_eq!(CoreError::Serde("eof".to_string()).message(), "сериализация: eof");
    assert_eq!(
        CoreError::InvalidBaseUrl("x".to_string()).message(),
        "некорректный URL сервера: x"
    );
}

#[test]
fn base_url_is_parsed() {
    let base = parse_base_url("http://127.0.0.1:8080").unwrap();
    assert_eq!(base, "http://127.0.0.1:8080/");
    assert_eq!(endpoint(&base, "/healthz").unwrap(), "http://127.0.0.1:8080/healthz");
    assert_eq!(endpoint(&base, "/api/v1/pair").unwrap(), "http://127.0.0.1:8080/api/v1/pair");
    assert_eq!(
        endpoint(&base, "/api/v1/cameras/register").unwrap(),
        "http://127.0.0.1:8080/api/v1/cameras/register"
    );
}

#[test]
fn invalid_base_url_is_refused() {
    match parse_base_url("not a url") {
        Err(CoreError::InvalidBaseUrl(m)) => assert!(m.starts_with("not a url: "), "{m}"),
        other => panic!("ожидали InvalidBaseUrl, получили: {other:?}"),
    }
}

#[test]
fn wallpaper_url_carries_size() {
    let base = parse_base_url("https://fortochka.fun").unwrap();
    let url = wallpaper_url(&base, "tok", 1080, 2400).unwrap();
    assert_eq!(url, "https://fortochka.fun/cam/tok/wallpaper.jpg?w=1080&h=2400");
}

#[test]
fn unresolvable_path_is_invalid_base_url() {
    // A base that cannot be a base ("data:") refuses relative paths.
    let base = parse_base_url("data:text/plain,x").unwrap();
    assert!(matches!(endpoint(&base, "/healthz"), Err(CoreError::InvalidBaseUrl(_))));
    assert!(matches!(wallpaper_url(&base, "tok", 1, 1), Err(CoreError::InvalidBaseUrl(_))));
}
