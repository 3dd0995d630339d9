//! The scan-error taxonomy, and the decision that turns a foreign error
//! code into the outcome of a scan.
//!
//! A scan reports failure through a foreign error object whose numeric
//! code is zero on success. The code is not discarded: a [`ScanError`]
//! carries it together with a human-readable category derived from the
//! known error constants of the foreign subsystem.

use vstd::prelude::*;

use crate::network::CWNetwork;

verus! {

/// The numeric constant the foreign subsystem uses for a timed-out
/// operation; scans issued faster than the documented ten-second window
/// surface this code.
pub const TIMEOUT_ERR: i64 = -3905;

/// The numeric constant the foreign subsystem uses for an operation the
/// calling process is not permitted to perform.
pub const NOT_PERMITTED_ERR: i64 = -3910;

/// The numeric constant the foreign subsystem uses for a request the
/// hardware does not support.
pub const NOT_SUPPORTED_ERR: i64 = -3903;

/// A human-readable category for a scan failure.
#[derive(Clone, Copy, Debug, PartialEq, Eq, Structural)]
pub enum ScanErrorCategory {
    /// The scan was issued within the OS rate-limit window.
    RateLimited,
    /// The calling process lacks the permission the operation needs.
    PermissionDenied,
    /// The hardware cannot perform the request.
    NoHardware,
    /// A code outside the categorized set.
    Other,
}

/// The category a numeric error code falls under.
pub open spec fn category_of_code(x: int) -> ScanErrorCategory {
    if x == TIMEOUT_ERR as int {
        ScanErrorCategory::RateLimited
    } else if x == NOT_PERMITTED_ERR as int {
        ScanErrorCategory::PermissionDenied
    } else if x == NOT_SUPPORTED_ERR as int {
        ScanErrorCategory::NoHardware
    } else {
        ScanErrorCategory::Other
    }
}

/// The label of a category, as text.
pub open spec fn category_label(c: ScanErrorCategory) -> Seq<char> {
    match c {
        ScanErrorCategory::RateLimited => "rate-limited"@,
        ScanErrorCategory::PermissionDenied => "permission-denied"@,
        ScanErrorCategory::NoHardware => "no-hardware"@,
        ScanErrorCategory::Other => "other"@,
    }
}

/// A failed scan: the numeric code the foreign error object reported,
/// and its category.
#[derive(Clone, Copy, Debug, PartialEq, Eq, Structural)]
pub struct ScanError {
    /// The numeric code of the foreign error object; never zero, since
    /// zero means success.
    pub code: i64,
    /// The category the code falls under.
    pub category: ScanErrorCategory,
}

impl ScanError {
    /// Builds the error for a non-zero foreign error code.
    pub fn from_code(code: i64) -> (r: ScanError)
        requires
            code != 0,
        ensures
            r.code == code,
            r.category == category_of_code(code as int),
    {
        let category = if code == TIMEOUT_ERR {
            ScanErrorCategory::RateLimited
        } else if code == NOT_PERMITTED_ERR {
            ScanErrorCategory::PermissionDenied
        } else if code == NOT_SUPPORTED_ERR {
            ScanErrorCategory::NoHardware
        } else {
            ScanErrorCategory::Other
        };
        ScanError { code, category }
    }

    /// The label of this error's category.
    pub fn message(&self) -> (r: &'static str)
        ensures
            r@ == category_label(self.category),
    {
        match self.category {
            ScanErrorCategory::RateLimited => "rate-limited",
            ScanErrorCategory::PermissionDenied => "permission-denied",
            ScanErrorCategory::NoHardware => "no-hardware",
            ScanErrorCategory::Other => "other",
        }
    }
}

/// Decides the outcome of a scan from the code the foreign error object
/// reported and the snapshots copied out of the foreign scan result.
///
/// A zero code means the scan succeeded and every snapshot is handed
/// back unchanged; a non-zero code means the scan failed and is surfaced
/// as a [`ScanError`] carrying that code -- never retried, never
/// swallowed.
pub fn scan_outcome(code: i64, networks: Vec<CWNetwork>) -> (r: Result<
    Vec<CWNetwork>,
    ScanError,
>)
    ensures
        code == 0 <==> r is Ok,
        code == 0 ==> r == Ok::<Vec<CWNetwork>, ScanError>(networks),
        code != 0 ==> (r matches Err(e) && e.code == code && e.category == category_of_code(
            code as int,
        )),
{
    if code == 0 {
        Ok(networks)
    } else {
        Err(ScanError::from_code(code))
    }
}

} // verus!
