//! Names and fixed values of the HTTP headers that the hub sets itself.

use vstd::prelude::*;

verus! {

pub const CONTENT_TYPE: &'static str = "Content-Type";

pub const AUTHORIZATION: &'static str = "Authorization";

pub const VIA: &'static str = "via";

/// The value of the `via` header that marks a request as coming from the hub.
pub const VIA_VALUE: &'static str = "HyperSwitch";

} // verus!
