use asset_server::health::{health, readiness};
use asset_server::response::Response;

#[test]
fn health_answers_healthy() {
    let response = health();
    assert_eq!(response.status, 200);
    assert_eq!(response.content_type, None);
    assert_eq!(response.body, b"Healthy".to_vec());
}

#[test]
fn readiness_answers_ready() {
    let response = readiness();
    assert_eq!(response.status, 200);
    assert_eq!(response.content_type, None);
    assert_eq!(response.body, b"Ready".to_vec());
}

#[test]
fn health_answers_the_same_every_time() {
    assert_eq!(health(), health());
    assert_eq!(readiness(), readiness());
    assert_ne!(health(), readiness());
}

#[test]
fn plain_and_bare_responses() {
    assert_eq!(
        Response::plain(404, "gone"),
        Response { status: 404, content_type: None, body: b"gone".to_vec() }
    );
    assert_eq!(
        Response::plain(200, "é"),
        Response { status: 200, content_type: None, body: vec![0xc3, 0xa9] }
    );
    assert_eq!(Response::bare(404), Response { status: 404, content_type: None, body: Vec::new() });
}
