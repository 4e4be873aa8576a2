//! The notification published on every successful license status change.

use vstd::prelude::*;

use crate::domain::license::LicenseStatus;

verus! {

/// A track's license moved from `from` to `to` at time `at` (microseconds
/// since the Unix epoch, UTC); identifiers as in `domain::entities`.
#[derive(Debug, Clone)]
pub struct LicenseStatusChanged {
    pub track_id: u128,
    pub scene_id: u128,
    pub from: Option<LicenseStatus>,
    pub to: LicenseStatus,
    pub at: i64,
}

} // verus!
