//! Response envelope and error codes of the HTTP API
//! (`{ "code": 0, "msg": "success", "data": ... }`).

use vstd::prelude::*;
use vstd::string::StringExecFns;

verus! {

/// Generic / unexpected error.
pub const GENERIC: i32 = -1;
/// Authentication / authorization failure.
pub const AUTH: i32 = -2;
/// Validation / bad request error.
pub const VALIDATION: i32 = -3;
/// Resource not found.
pub const NOT_FOUND: i32 = -4;
/// Account / IP locked (brute force protection).
pub const LOCKED: i32 = -5;
/// Operation not supported on this platform or configuration.
pub const NOT_SUPPORTED: i32 = -6;
/// Hardware / device error.
pub const HARDWARE: i32 = -7;
/// Storage / image related error.
pub const STORAGE: i32 = -8;
/// Network configuration error.
pub const NETWORK: i32 = -9;
/// Script execution error.
pub const SCRIPT: i32 = -10;

/// API response wrapper: code 0 with data on success, a negative code and a message otherwise.
pub struct ApiResponse<T> {
    pub code: i32,
    pub msg: String,
    pub data: Option<T>,
}

impl<T> ApiResponse<T> {
    /// A success response carrying `data`.
    pub fn ok(data: T) -> (r: Self)
        ensures
            r.code == 0,
            r.msg@ == "success"@,
            r.data == Some(data),
    {
        ApiResponse { code: 0, msg: String::from_str("success"), data: Some(data) }
    }

    /// An error response with `code` and `msg` and no data.
    pub fn err(code: i32, msg: &str) -> (r: Self)
        ensures
            r.code == code,
            r.msg@ == msg@,
            r.data is None,
    {
        ApiResponse { code, msg: String::from_str(msg), data: None }
    }
}

} // verus!
