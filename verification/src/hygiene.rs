//! The stale-socket cleanup decision made before binding.
//!
//! Binding fails outright when the path is still occupied by the socket
//! special file of an unclean prior shutdown, so the caller probes the path
//! and removes what it finds there first.  On the emulated platform, probing
//! an existing socket special file fails with an uncategorized error rather
//! than succeeding, so removal is attempted whenever the probe said anything
//! but "not found".  The probing and removing themselves are filesystem I/O
//! and live in the unverified shell; this module verifies the decision and
//! how the two results fold into the cleanup's own.

use vstd::prelude::*;

verus! {

/// What probing the socket path's metadata reported.
#[derive(Clone, Copy, Debug, PartialEq, Eq, Structural)]
pub enum PathProbe {
    /// Something exists at the path.
    Found,
    /// Nothing exists at the path.
    NotFound,
    /// The probe itself failed (raw OS error code).  On the emulated
    /// platform this is what an existing socket special file reports.
    ProbeError { code: i32 },
}

/// Removal is attempted unless the probe said "not found".
pub open spec fn removal_needed_spec(p: PathProbe) -> bool {
    !(p is NotFound)
}

/// Decide whether the path must be removed before binding.
pub fn removal_needed(p: &PathProbe) -> (b: bool)
    ensures
        b == removal_needed_spec(*p),
{
    match p {
        PathProbe::NotFound => false,
        PathProbe::Found => true,
        PathProbe::ProbeError { .. } => true,
    }
}

/// What the whole cleanup returns: success when nothing had to be removed,
/// otherwise the removal's own result (raw OS error code on failure).
pub open spec fn cleanup_result_spec(p: PathProbe, removal: Result<(), i32>) -> Result<(), i32> {
    if removal_needed_spec(p) {
        removal
    } else {
        Ok(())
    }
}

/// Fold the probe and the removal attempt into the cleanup's result.
/// A removal result is passed exactly when the probe called for removal.
pub fn cleanup_result(p: &PathProbe, removal: Option<Result<(), i32>>) -> (r: Result<(), i32>)
    requires
        removal_needed_spec(*p) <==> removal is Some,
    ensures
        removal matches Some(a) ==> r == cleanup_result_spec(*p, a),
        removal is None ==> r is Ok,
{
    match removal {
        None => Ok(()),
        Some(a) => a,
    }
}

} // verus!
