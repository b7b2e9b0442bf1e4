use cch23_sentinel1909::response::{HandlerError, WebResponse};
use cch23_sentinel1909::router::{Route, Router, WebRequest};

fn request(method: &str, target: &str) -> WebRequest {
    WebRequest {
        method: method.to_string(),
        target: target.to_string(),
        path: target.to_string(),
    }
}

fn failed() -> HandlerError {
    HandlerError { message: "handler failed".to_string() }
}

fn handled() -> WebResponse {
    WebResponse { status: 200, content_type: Some("text/plain".to_string()), body: b"42".to_vec() }
}

#[test]
fn one_two_x_goes_to_sled_calibration() {
    let router = Router::create();
    match router.route(&request("GET", "/1/2/x")) {
        Route::SledCalibration(values) => assert_eq!(values, vec![1, 2]),
        other => panic!("unexpected route {:?}", other),
    }
}

#[test]
fn three_integers_go_to_packet_calibration() {
    let router = Router::create();
    let route = router.route(&request("GET", "/4/8/-3"));
    match &route {
        Route::PacketCalibration(values) => assert_eq!(values, &vec![4, 8, -3]),
        other => panic!("unexpected route {:?}", other),
    }
    let ok = router.respond(&route, Ok(handled()));
    assert_eq!(ok.status, 200);
    assert_eq!(ok.body, b"42".to_vec());
    let failure = router.respond(&route, Err(failed()));
    assert_eq!(failure.status, 500);
    assert_eq!(failure.body, b"Internal Server Error".to_vec());
}

#[test]
fn sled_calibration_failure_is_bad_request() {
    let router = Router::create();
    let route = router.route(&request("GET", "/1/2/3/4"));
    match &route {
        Route::SledCalibration(values) => assert_eq!(values, &vec![1, 2, 3, 4]),
        other => panic!("unexpected route {:?}", other),
    }
    let failure = router.respond(&route, Err(failed()));
    assert_eq!(failure.status, 400);
    assert_eq!(failure.body, b"Bad Request".to_vec());
    let ok = router.respond(&route, Ok(handled()));
    assert_eq!(ok.status, 200);
}

#[test]
fn get_without_integers_goes_to_sled_calibration() {
    let router = Router::create();
    match router.route(&request("GET", "/day/five")) {
        Route::SledCalibration(values) => assert!(values.is_empty()),
        other => panic!("unexpected route {:?}", other),
    }
}

#[test]
fn twenty_integers_still_calibrate_sleds() {
    let target = "/1".repeat(20);
    let router = Router::create();
    match router.route(&request("GET", &target)) {
        Route::SledCalibration(values) => assert_eq!(values, vec![1; 20]),
        other => panic!("unexpected route {:?}", other),
    }
}

#[test]
fn twenty_one_integers_match_no_rule() {
    let target = "/1".repeat(21);
    let router = Router::create();
    let route = router.route(&request("GET", &target));
    assert!(matches!(route, Route::Unmatched));
    let response = router.respond(&route, Ok(handled()));
    assert_eq!(response.status, 400);
    assert_eq!(response.body, b"Bad Request".to_vec());
}

#[test]
fn strength_post_failure_is_bad_request() {
    let router = Router::create();
    let req = request("POST", "/4/strength");
    let route = router.route(&req);
    assert!(matches!(route, Route::Strength));
    let failure = router.respond(&route, Err(failed()));
    assert_eq!(failure.status, 400);
    assert_eq!(failure.body, b"Bad Request".to_vec());
    let ok = router.respond(&route, Ok(handled()));
    assert_eq!(ok.body, b"42".to_vec());
}

#[test]
fn unknown_post_is_bad_request() {
    let router = Router::create();
    let route = router.route(&request("POST", "/7/other"));
    assert!(matches!(route, Route::Unmatched));
    let response = router.respond(&route, Ok(handled()));
    assert_eq!(response.status, 400);
    assert_eq!(response.body, b"Bad Request".to_vec());
}

#[test]
fn post_to_root_is_bad_request() {
    let router = Router::create();
    let route = router.route(&request("POST", "/"));
    assert!(matches!(route, Route::Unmatched));
}

#[test]
fn fixed_responses() {
    let router = Router::create();
    let ise = router.internal_server_error();
    assert_eq!(ise.status, 500);
    assert_eq!(ise.body, b"Internal Server Error".to_vec());
    let bad = router.bad_request();
    assert_eq!(bad.status, 400);
    assert_eq!(bad.body, b"Bad Request".to_vec());
}
