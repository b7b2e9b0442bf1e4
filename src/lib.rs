use vstd::prelude::*;

pub mod endpoints;
pub mod response;
pub mod segments;
pub mod router;
pub mod laws;

verus! {

} // verus!
