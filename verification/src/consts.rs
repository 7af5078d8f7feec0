//! Fixed texts that the normalised error shape falls back to.

use vstd::prelude::*;

verus! {

/// The message of an error response when the connector supplied none.
pub const NO_ERROR_MESSAGE: &'static str = "No error message";

/// The code of an error response when the connector supplied none.
pub const NO_ERROR_CODE: &'static str = "No error code";

} // verus!
