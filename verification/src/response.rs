//! What a route handler decides, free of any HTTP framework: redirect the
//! client, or render a page with a flash text to show.

use vstd::prelude::*;

verus! {

/// A handler's decision for one request.
#[derive(Debug)]
pub enum Response {
    Redirect { location: String },
    Page { message: String },
}

} // verus!
