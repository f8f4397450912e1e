//! Common error messages, as constants to be reused by endpoints.

use vstd::prelude::*;

verus! {

pub const NOT_FOUND: &'static str = "Not Found";

pub const UNKNOWN_DB_ERROR: &'static str = "An unexpected database error occurred";

pub const BAD_REQUEST: &'static str = "Bad Request";

pub const UNAUTHORIZED: &'static str = "Unauthorized";

pub const FORBIDDEN: &'static str = "Forbidden";

} // verus!
