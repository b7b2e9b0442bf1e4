use vstd::prelude::*;

use crate::endpoints::root;
use crate::response::{
    plain_response, status_response, str_bytes, HandlerError, ResponseView, WebResponse,
    BAD_REQUEST, INTERNAL_SERVER_ERROR,
};
use crate::segments::{numeric_segments, numeric_segments_of};

verus! {

/// A request as the router reads it: its method, its full target, and the path part of
/// the target.
#[derive(Clone, Debug)]
pub struct WebRequest {
    pub method: String,
    pub target: String,
    pub path: String,
}

/// The rule that a request matched, with the integers that its handler receives.
#[derive(Clone, Debug)]
pub enum Route {
    Root,
    FakeError,
    PacketCalibration(Vec<i32>),
    SledCalibration(Vec<i32>),
    Strength,
    Unmatched,
}

/// A rule, with the integers as a sequence.
pub enum RouteView {
    Root,
    FakeError,
    PacketCalibration(Seq<i32>),
    SledCalibration(Seq<i32>),
    Strength,
    Unmatched,
}

impl View for Route {
    type V = RouteView;

    open spec fn view(&self) -> RouteView {
        match self {
            Route::Root => RouteView::Root,
            Route::FakeError => RouteView::FakeError,
            Route::PacketCalibration(v) => RouteView::PacketCalibration(v@),
            Route::SledCalibration(v) => RouteView::SledCalibration(v@),
            Route::Strength => RouteView::Strength,
            Route::Unmatched => RouteView::Unmatched,
        }
    }
}

/// The first rule that a request matches, tried in order: the root, the fixed error,
/// packet calibration on three integers, sled calibration on fewer than 21, strength.
pub open spec fn route_of(method: Seq<char>, target: Seq<char>, path: Seq<char>) -> RouteView {
    let values = numeric_segments_of(path);
    if target == "/"@ && method == "GET"@ {
        RouteView::Root
    } else if target == "/-1/error"@ {
        RouteView::FakeError
    } else if method == "GET"@ && values.len() == 3 {
        RouteView::PacketCalibration(values)
    } else if method == "GET"@ && values.len() < 21 {
        RouteView::SledCalibration(values)
    } else if target == "/4/strength"@ && method == "POST"@ {
        RouteView::Strength
    } else {
        RouteView::Unmatched
    }
}

pub open spec fn internal_error_view() -> ResponseView {
    plain_response(500, "Internal Server Error"@)
}

pub open spec fn bad_request_view() -> ResponseView {
    plain_response(400, "Bad Request"@)
}

/// What a handler handed back: its response, or `None` where it failed.
pub open spec fn handled_view(outcome: Result<WebResponse, HandlerError>) -> Option<ResponseView> {
    match outcome {
        Ok(r) => Some(r@),
        Err(_) => None,
    }
}

/// The response to a request that matched `route`, where `handled` is what the route's
/// handler gave; routes without an outside handler do not look at it.
pub open spec fn response_of(route: RouteView, handled: Option<ResponseView>) -> ResponseView {
    match route {
        RouteView::Root => status_response(200),
        RouteView::FakeError => internal_error_view(),
        RouteView::PacketCalibration(_) => match handled {
            Some(r) => r,
            None => internal_error_view(),
        },
        RouteView::SledCalibration(_) | RouteView::Strength => match handled {
            Some(r) => r,
            None => bad_request_view(),
        },
        RouteView::Unmatched => bad_request_view(),
    }
}

/// Chooses the rule for each request and turns what its handler gave into a response.
#[derive(Clone, Copy, Debug)]
pub struct Router;

impl Router {
    pub fn create() -> (r: Router) {
        Router
    }

    pub fn internal_server_error(&self) -> (r: WebResponse)
        ensures
            r@ == internal_error_view(),
    {
        WebResponse {
            status: INTERNAL_SERVER_ERROR,
            content_type: None,
            body: str_bytes("Internal Server Error"),
        }
    }

    pub fn bad_request(&self) -> (r: WebResponse)
        ensures
            r@ == bad_request_view(),
    {
        WebResponse { status: BAD_REQUEST, content_type: None, body: str_bytes("Bad Request") }
    }

    /// The first rule that `request` matches.
    pub fn route(&self, request: &WebRequest) -> (r: Route)
        ensures
            r@ == route_of(request.method@, request.target@, request.path@),
    {
        let values = numeric_segments(request.path.as_str());
        let get = request.method == "GET".to_string();
        if request.target == "/".to_string() && get {
            Route::Root
        } else if request.target == "/-1/error".to_string() {
            Route::FakeError
        } else if get && values.len() == 3 {
            Route::PacketCalibration(values)
        } else if get && values.len() < 21 {
            Route::SledCalibration(values)
        } else if request.target == "/4/strength".to_string() && request.method
            == "POST".to_string() {
            Route::Strength
        } else {
            Route::Unmatched
        }
    }

    /// The response to a request that matched `route`, given what the route's handler
    /// handed back.
    pub fn respond(&self, route: &Route, outcome: Result<WebResponse, HandlerError>) -> (r:
        WebResponse)
        ensures
            r@ == response_of(route@, handled_view(outcome)),
    {
        match route {
            Route::Root => match root() {
                Ok(resp) => resp,
                Err(_) => self.internal_server_error(),
            },
            Route::FakeError => self.internal_server_error(),
            Route::PacketCalibration(_) => match outcome {
                Ok(resp) => resp,
                Err(_) => self.internal_server_error(),
            },
            Route::SledCalibration(_) | Route::Strength => match outcome {
                Ok(resp) => resp,
                Err(_) => self.bad_request(),
            },
            Route::Unmatched => self.bad_request(),
        }
    }
}

} // verus!
