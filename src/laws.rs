use vstd::prelude::*;
use vstd::utf8::encode_utf8;

use crate::response::{status_response, ResponseView};
use crate::router::{
    bad_request_view, internal_error_view, response_of, route_of, RouteView,
};
use crate::segments::numeric_segments_of;

verus! {

/// A GET of `/` is answered with status 200 and an empty body, whatever any handler gave.
pub proof fn root_is_ok_and_empty(path: Seq<char>, handled: Option<ResponseView>)
    ensures
        route_of("GET"@, "/"@, path) == RouteView::Root,
        response_of(route_of("GET"@, "/"@, path), handled) == status_response(200),
        response_of(route_of("GET"@, "/"@, path), handled).status == 200,
        response_of(route_of("GET"@, "/"@, path), handled).body.len() == 0,
{
}

/// A request for `/-1/error`, with any method, is answered with status 500 and the
/// text `Internal Server Error`.
pub proof fn fake_error_is_internal_error(
    method: Seq<char>,
    path: Seq<char>,
    handled: Option<ResponseView>,
)
    ensures
        route_of(method, "/-1/error"@, path) == RouteView::FakeError,
        response_of(route_of(method, "/-1/error"@, path), handled).status == 500,
        response_of(route_of(method, "/-1/error"@, path), handled).body == encode_utf8(
            "Internal Server Error"@,
        ),
{
    let t = "/-1/error"@;
    let root = "/"@;
    reveal_strlit("/-1/error");
    reveal_strlit("/");
    assert(t.len() != root.len());
}

/// A GET whose path writes exactly three integers goes to packet calibration with those
/// integers in order; the handler's response is passed on, and its failure gives 500.
pub proof fn three_integers_calibrate_packets(
    target: Seq<char>,
    path: Seq<char>,
    handled: Option<ResponseView>,
)
    requires
        numeric_segments_of(path).len() == 3,
        target != "/"@,
        target != "/-1/error"@,
    ensures
        route_of("GET"@, target, path) == RouteView::PacketCalibration(numeric_segments_of(path)),
        handled matches Some(r) ==> response_of(route_of("GET"@, target, path), handled) == r,
        handled is None ==> response_of(route_of("GET"@, target, path), handled)
            == internal_error_view(),
        handled is None ==> response_of(route_of("GET"@, target, path), handled).status == 500,
{
}

/// A GET whose path writes from none to twenty integers, but not three, goes to sled
/// calibration with those integers; the handler's response is passed on, and its
/// failure gives 400.
pub proof fn few_integers_calibrate_sleds(
    target: Seq<char>,
    path: Seq<char>,
    handled: Option<ResponseView>,
)
    requires
        numeric_segments_of(path).len() <= 20,
        numeric_segments_of(path).len() != 3,
        target != "/"@,
        target != "/-1/error"@,
    ensures
        route_of("GET"@, target, path) == RouteView::SledCalibration(numeric_segments_of(path)),
        handled matches Some(r) ==> response_of(route_of("GET"@, target, path), handled) == r,
        handled is None ==> response_of(route_of("GET"@, target, path), handled)
            == bad_request_view(),
        handled is None ==> response_of(route_of("GET"@, target, path), handled).status == 400,
{
}

/// A request that matches no rule is answered with status 400 and the text
/// `Bad Request`.
pub proof fn unmatched_is_bad_request(
    method: Seq<char>,
    target: Seq<char>,
    path: Seq<char>,
    handled: Option<ResponseView>,
)
    requires
        route_of(method, target, path) == RouteView::Unmatched,
    ensures
        response_of(route_of(method, target, path), handled).status == 400,
        response_of(route_of(method, target, path), handled).body == encode_utf8("Bad Request"@),
{
}

/// The integers read from a path depend on the path alone: reading the same path twice
/// gives the same sequence.
pub proof fn numeric_segments_are_determined(first: Seq<char>, second: Seq<char>)
    requires
        first == second,
    ensures
        numeric_segments_of(first) == numeric_segments_of(second),
{
}

} // verus!
