use fortochka::api_error::ApiError;
use fortochka::handlers::{
    bearer_token, check_upload, crop_failure, is_jpeg, new_camera_credentials,
    no_frame_yet, normalize_pairing_code, random_pairing_code, random_token, register_step,
    render_wallpaper, unix_now, unix_seconds, unknown_pairing_code, unknown_view_token,
    validate_camera_name, wallpaper_size, InsertOutcome, RegisterStep, CODE_ALPHABET, CODE_LEN,
    REGISTER_ATTEMPTS, TOKEN_LEN,
};
use fortochka::images::CropError;
use fortochka::state::ServerConfig;
use fortochka::storage::{frame_file_name, frame_temp_file_name, FRAMES_DIR};
use image::GenericImageView;

fn test_jpeg(w: u32, h: u32) -> Vec<u8> {
    let img = image::RgbImage::from_fn(w, h, |x, y| image::Rgb([(x % 256) as u8, (y % 256) as u8, 200]));
    let mut buf = Vec::new();
    image::codecs::jpeg::JpegEncoder::new_with_quality(&mut buf, 80)
        .encode_image(&image::DynamicImage::ImageRgb8(img))
        .unwrap();
    buf
}

fn code_of(e: &ApiError) -> (u16, String, String) {
    let body = e.body();
    (e.status(), body.code, body.message)
}

#[test]
fn full_cycle_register_upload_pair_view() {
    let name = validate_camera_name("Дача").expect("register");
    assert_eq!(name, "Дача");
    let camera = new_camera_credentials();
    assert_eq!(camera.pairing_code.chars().count(), 6);

    let frame = test_jpeg(400, 800);
    check_upload(Some(camera.upload_token.clone()), &camera.upload_token, &frame).expect("upload");

    assert_eq!(normalize_pairing_code(&camera.pairing_code), camera.pairing_code);

    let size = wallpaper_size(Some(108), Some(240)).expect("size");
    let wallpaper = render_wallpaper(frame, size).expect("wallpaper");
    let img = image::load_from_memory(&wallpaper).expect("валидный JPEG");
    assert_eq!(img.dimensions(), (108, 240));
}

#[test]
fn pairing_code_is_case_insensitive() {
    let code = random_pairing_code();
    let lower = code.to_lowercase();
    assert_eq!(normalize_pairing_code(&lower), code);
    assert_eq!(normalize_pairing_code("  ab2x9k \n"), "AB2X9K");
}

#[test]
fn wrong_upload_token_is_unauthorized() {
    let camera = new_camera_credentials();
    let err = check_upload(Some(camera.upload_token), "чужой-токен", &test_jpeg(4, 4)).unwrap_err();
    assert!(matches!(err, ApiError::Unauthorized { .. }), "{err:?}");
    assert_eq!(err.status(), 401);
}

#[test]
fn unknown_camera_looks_like_wrong_token() {
    let err = check_upload(None, "tok", &test_jpeg(4, 4)).unwrap_err();
    assert_eq!(
        code_of(&err),
        (401, "invalid_upload_token".to_string(), "неизвестная камера или неверный токен".to_string())
    );
}

#[test]
fn garbage_body_is_rejected() {
    let err = check_upload(Some("t".to_string()), "t", b"not a jpeg").unwrap_err();
    assert!(matches!(err, ApiError::BadRequest { .. }), "{err:?}");
    assert_eq!(code_of(&err), (400, "not_a_jpeg".to_string(), "тело запроса не похоже на JPEG".to_string()));
}

#[test]
fn unknown_pairing_code_is_not_found() {
    let err = unknown_pairing_code();
    assert_eq!(code_of(&err), (404, "invalid_pairing_code".to_string(), "камера с таким кодом не найдена".to_string()));
}

#[test]
fn wallpaper_before_first_frame_is_not_found() {
    let err = no_frame_yet();
    assert_eq!(err.status(), 404);
    assert_eq!(err.body().code, "no_frame_yet");
    assert_eq!(code_of(&unknown_view_token()), (404, "invalid_view_token".to_string(), "токен не найден".to_string()));
}

#[test]
fn camera_names() {
    assert_eq!(validate_camera_name("  Аквариум \t").unwrap(), "Аквариум");
    assert!(validate_camera_name("").is_err());
    assert!(validate_camera_name(" \u{3000}\n").is_err());
    assert!(validate_camera_name(&"a".repeat(100)).is_ok());
    assert!(validate_camera_name(&"a".repeat(101)).is_err());
    // 50 Cyrillic letters are 100 bytes; 51 are too many.
    assert!(validate_camera_name(&"я".repeat(50)).is_ok());
    let err = validate_camera_name(&"я".repeat(51)).unwrap_err();
    assert_eq!(code_of(&err), (400, "invalid_name".to_string(), "имя камеры должно быть от 1 до 100 символов".to_string()));
}

#[test]
fn bearer_tokens() {
    assert_eq!(bearer_token(Some("Bearer abc")).unwrap(), "abc");
    assert_eq!(bearer_token(Some("Bearer ")).unwrap(), "");
    for bad in [None, Some("bearer abc"), Some("Basic abc"), Some("Bearer")] {
        let err = bearer_token(bad).unwrap_err();
        assert_eq!(code_of(&err), (401, "missing_token".to_string(), "нужен заголовок Authorization: Bearer …".to_string()));
    }
}

#[test]
fn jpeg_magic() {
    assert!(is_jpeg(&[0xFF, 0xD8]));
    assert!(is_jpeg(&test_jpeg(2, 2)));
    assert!(!is_jpeg(&[0xFF]));
    assert!(!is_jpeg(&[0xD8, 0xFF]));
    assert!(!is_jpeg(b""));
}

#[test]
fn wallpaper_sizes() {
    assert_eq!(wallpaper_size(None, None).unwrap(), None);
    assert_eq!(wallpaper_size(Some(1), Some(4096)).unwrap(), Some((1, 4096)));
    for (w, h) in [(0, 10), (10, 0), (4097, 10), (10, 4097)] {
        let err = wallpaper_size(Some(w), Some(h)).unwrap_err();
        assert_eq!(code_of(&err), (400, "invalid_dimensions".to_string(), "w и h должны быть в диапазоне 1..=4096".to_string()));
    }
    for (w, h) in [(Some(10), None), (None, Some(10))] {
        let err = wallpaper_size(w, h).unwrap_err();
        assert_eq!(code_of(&err), (400, "invalid_dimensions".to_string(), "w и h задаются только вместе".to_string()));
    }
}

#[test]
fn wallpaper_without_size_is_the_frame() {
    let frame = vec![0xFF, 0xD8, 0xFF, 0xE0];
    assert_eq!(render_wallpaper(frame.clone(), None).unwrap(), frame);
}

#[test]
fn broken_frame_is_internal_error() {
    let err = render_wallpaper(b"garbage".to_vec(), Some((10, 10))).unwrap_err();
    assert!(matches!(err, ApiError::Internal(_)), "{err:?}");
    assert_eq!(code_of(&err), (500, "internal".to_string(), "внутренняя ошибка сервера".to_string()));
}

#[test]
fn crop_failures() {
    let err = crop_failure(CropError::ZeroDimension);
    assert_eq!(code_of(&err), (400, "invalid_dimensions".to_string(), "размеры должны быть больше нуля".to_string()));
    match crop_failure(CropError::Image("eof".to_string())) {
        ApiError::Internal(detail) => {
            assert_eq!(detail, "битый кадр на диске: не удалось обработать изображение: eof")
        }
        other => panic!("{other:?}"),
    }
}

#[test]
fn tokens_and_codes() {
    let t = random_token(TOKEN_LEN);
    assert_eq!(t.len(), 40);
    assert!(t.chars().all(|c| c.is_ascii_alphanumeric()));
    assert_eq!(random_token(0), "");
    let code = random_pairing_code();
    assert_eq!(code.chars().count(), CODE_LEN);
    assert!(code.chars().all(|c| CODE_ALPHABET.contains(c)));
    let creds = new_camera_credentials();
    let id: Vec<char> = creds.camera_id.chars().collect();
    assert_eq!(id.len(), 36);
    for (i, c) in id.iter().enumerate() {
        if [8, 13, 18, 23].contains(&i) {
            assert_eq!(*c, '-');
        } else {
            assert!(c.is_ascii_digit() || ('a'..='f').contains(c), "{c}");
        }
    }
    assert_eq!(id[14], '4');
    assert!(['8', '9', 'a', 'b'].contains(&id[19]));
    assert_eq!(creds.upload_token.len(), 40);
}

#[test]
fn registration_retries_collisions_five_times() {
    assert!(matches!(register_step(1, InsertOutcome::Inserted), RegisterStep::Registered));
    for attempt in 1..REGISTER_ATTEMPTS {
        assert!(matches!(register_step(attempt, InsertOutcome::UniqueViolation), RegisterStep::TryAgain));
    }
    match register_step(REGISTER_ATTEMPTS, InsertOutcome::UniqueViolation) {
        RegisterStep::Fail(ApiError::Internal(d)) => {
            assert_eq!(d, "не удалось подобрать уникальный пейринг-код за 5 попыток")
        }
        _ => panic!("ожидали Internal"),
    }
    match register_step(2, InsertOutcome::Failed("db".to_string())) {
        RegisterStep::Fail(ApiError::Internal(d)) => assert_eq!(d, "db"),
        _ => panic!("ожидали Internal"),
    }
}

#[test]
fn unix_time() {
    assert_eq!(unix_seconds(Some(1_700_000_000)).unwrap(), 1_700_000_000);
    assert!(matches!(unix_seconds(None), Err(ApiError::Internal(_))));
    assert!(unix_now().unwrap() > 1_700_000_000);
}

#[test]
fn internal_errors_hide_details() {
    let e = ApiError::internal("password=hunter2".to_string());
    assert_eq!(code_of(&e), (500, "internal".to_string(), "внутренняя ошибка сервера".to_string()));
    assert_eq!(ApiError::bad_request("c", "m").status(), 400);
    assert_eq!(ApiError::unauthorized("c", "m").status(), 401);
    assert_eq!(code_of(&ApiError::not_found("c", "m")), (404, "c".to_string(), "m".to_string()));
}

#[test]
fn server_config_defaults() {
    let c = ServerConfig::from_settings(None, None);
    assert_eq!((c.bind_addr.as_str(), c.data_dir.as_str()), ("0.0.0.0:8080", "./data"));
    let c = ServerConfig::from_settings(Some("127.0.0.1:1".to_string()), Some("/srv".to_string()));
    assert_eq!((c.bind_addr.as_str(), c.data_dir.as_str()), ("127.0.0.1:1", "/srv"));
}

#[test]
fn frame_files() {
    assert_eq!(FRAMES_DIR, "frames");
    assert_eq!(frame_file_name("cam-1"), "cam-1.jpg");
    assert_eq!(frame_temp_file_name("cam-1"), "cam-1.jpg.tmp");
}

#[test]
fn pairing_alphabet_has_no_look_alikes() {
    assert_eq!(CODE_ALPHABET.chars().count(), 32);
    for c in ['0', 'O', '1', 'I'] {
        assert!(!CODE_ALPHABET.contains(c));
    }
}
