//! The platform's error codes that the classification of a trace response
//! tells apart.

use vstd::prelude::*;

verus! {

/// The five `errno` values that have a category of their own. Which numbers
/// they are is the platform's business; the classification only compares
/// against them.
#[derive(Clone, Copy, Debug, PartialEq, Eq, Structural)]
pub struct ErrnoCodes {
    /// The code for "no such process".
    pub no_such_process: i32,
    /// The code for "invalid argument".
    pub invalid_argument: i32,
    /// The code for "resource busy".
    pub resource_busy: i32,
    /// The code for "operation not supported".
    pub not_supported: i32,
    /// The code for "operation not permitted".
    pub permission_denied: i32,
}

impl ErrnoCodes {
    /// The table of the platform the crate is built for. Its numbers are the
    /// platform's own and differ from one to the next, so nothing is stated
    /// of them here: every function that takes a table is verified for all
    /// tables.
    pub fn platform() -> (codes: ErrnoCodes) {
        platform_codes()
    }
}

/// Reads `libc::ESRCH`, `libc::EINVAL`, `libc::EBUSY`, `libc::ENOTSUP` and
/// `libc::EPERM` for the platform the crate is built for. The numbers differ
/// from platform to platform, so nothing is claimed of them: callers are
/// verified for every table that may come back.
#[verifier::external_body]
fn platform_codes() -> (codes: ErrnoCodes) {
    ErrnoCodes {
        no_such_process: libc::ESRCH,
        invalid_argument: libc::EINVAL,
        resource_busy: libc::EBUSY,
        not_supported: libc::ENOTSUP,
        permission_denied: libc::EPERM,
    }
}

} // verus!
