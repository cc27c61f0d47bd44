//! What the endpoints share for the lifetime of the service.

use vstd::prelude::*;

verus! {

/// The address under which the service is reachable from outside, without a
/// trailing slash; links in outbound emails start with it.
pub struct ApplicationBaseUrl(pub String);

} // verus!
