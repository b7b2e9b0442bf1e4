use cch23_sentinel1909::endpoints::{grinch, root};
use cch23_sentinel1909::response::HandlerError;
use cch23_sentinel1909::router::{Router, WebRequest};

fn request(method: &str, target: &str) -> WebRequest {
    WebRequest {
        method: method.to_string(),
        target: target.to_string(),
        path: target.to_string(),
    }
}

fn failed() -> HandlerError {
    HandlerError { message: "handler failed".to_string() }
}

#[test]
fn test_root() {
    let router = Router::create();
    let request = request("GET", "/");
    let route = router.route(&request);
    let response = router.respond(&route, Err(failed()));
    assert_eq!(response.status, 200);
    assert_eq!(response.body, String::from("").as_bytes());
}

#[test]
fn test_fake_error() {
    let router = Router::create();
    let request = request("GET", "/-1/error");
    let route = router.route(&request);
    let response = router.respond(&route, Err(failed()));
    assert_eq!(response.status, 500);
    assert_eq!(response.body, String::from("Internal Server Error").as_bytes());
}

#[test]
fn fake_error_with_any_method() {
    let router = Router::create();
    let route = router.route(&request("DELETE", "/-1/error"));
    let response = router.respond(&route, Err(failed()));
    assert_eq!(response.status, 500);
    assert_eq!(response.body, b"Internal Server Error".to_vec());
    assert_eq!(response.content_type, None);
}

#[test]
fn root_handler_is_empty_ok() {
    let response = root().unwrap();
    assert_eq!(response.status, 200);
    assert!(response.body.is_empty());
    assert_eq!(response.content_type, None);
}

#[test]
fn grinch_says_its_line() {
    let response = grinch().unwrap();
    assert_eq!(response.status, 200);
    assert_eq!(response.body, b"You're a mean one, Mr. Grinch!".to_vec());
}
