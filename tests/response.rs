use cch23_sentinel1909::response::{HandlerError, IntoWebResponse, StatusCode, WebResponse};

#[test]
fn text_is_plain_ok() {
    let response = "hello".into_web_response();
    assert_eq!(response.status, 200);
    assert_eq!(response.content_type, Some("text/plain".to_string()));
    assert_eq!(response.body, b"hello".to_vec());
    let owned = String::from("h\u{e9}").into_web_response();
    assert_eq!(owned.status, 200);
    assert_eq!(owned.content_type, Some("text/plain".to_string()));
    assert_eq!(owned.body, "h\u{e9}".as_bytes().to_vec());
}

#[test]
fn bytes_are_png_ok() {
    let response = vec![137u8, 80, 78, 71].into_web_response();
    assert_eq!(response.status, 200);
    assert_eq!(response.content_type, Some("image/png".to_string()));
    assert_eq!(response.body, vec![137u8, 80, 78, 71]);
}

#[test]
fn status_alone_has_empty_body() {
    let response = StatusCode(404).into_web_response();
    assert_eq!(response.status, 404);
    assert_eq!(response.content_type, None);
    assert!(response.body.is_empty());
}

#[test]
fn error_is_internal_error_with_message() {
    let response = HandlerError { message: "disk on fire".to_string() }.into_web_response();
    assert_eq!(response.status, 500);
    assert_eq!(response.content_type, Some("text/plain".to_string()));
    assert_eq!(response.body, b"disk on fire".to_vec());
}

#[test]
fn ready_response_passes_through() {
    let ready = WebResponse { status: 418, content_type: None, body: b"teapot".to_vec() };
    let response = ready.clone().into_web_response();
    assert_eq!(response.status, 418);
    assert_eq!(response.content_type, None);
    assert_eq!(response.body, b"teapot".to_vec());
}
