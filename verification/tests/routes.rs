use fortochka::routes;

#[test]
fn route_builders() {
    assert_eq!(routes::camera_frame("id-1"), "/api/v1/cameras/id-1/frame");
    assert_eq!(routes::wallpaper("tok"), "/cam/tok/wallpaper.jpg");
}

#[test]
fn route_constants() {
    assert_eq!(routes::HEALTHZ, "/healthz");
    assert_eq!(routes::REGISTER_CAMERA, "/api/v1/cameras/register");
    assert_eq!(routes::PAIR, "/api/v1/pair");
}
