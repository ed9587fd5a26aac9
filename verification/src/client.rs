//! What the bundled command-line client needs from the library.

use vstd::prelude::*;

verus! {

/// The bearer token that the client presents with each request.
pub fn get_token() -> (token: &'static str)
    ensures
        token@ == "Fake Token"@,
{
    "Fake Token"
}

} // verus!
