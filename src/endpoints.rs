use vstd::prelude::*;

use crate::response::{
    plain_response, status_response, str_bytes, HandlerError, StatusCode, WebResponse, OK,
};

verus! {

/// The handler of the root endpoint: a 200 response with an empty body.
pub fn root() -> (r: Result<WebResponse, StatusCode>)
    ensures
        r matches Ok(resp) && resp@ == status_response(200),
{
    let resp = WebResponse { status: OK, content_type: None, body: Vec::new() };
    assert(resp.body@ =~= Seq::<u8>::empty());
    Ok(resp)
}

/// The handler of the grinch endpoint: a 200 response with a fixed line of text.
pub fn grinch() -> (r: Result<WebResponse, HandlerError>)
    ensures
        r matches Ok(resp) && resp@ == plain_response(200, "You're a mean one, Mr. Grinch!"@),
{
    let body = str_bytes("You're a mean one, Mr. Grinch!");
    Ok(WebResponse { status: OK, content_type: None, body })
}

} // verus!
