//! Pure protocol helpers: interpretation of the tri-state window-tree query
//! status, and construction of the configure-request and synthetic
//! notification payloads. The unverified backend routes its raw server
//! replies and outgoing payloads through these functions, so the decisions
//! made on them are the verified ones.

use vstd::prelude::*;

use crate::model::changes_of;
use crate::model::notice_of;
use crate::types::ConfigureNotice;
use crate::types::Window;
use crate::types::WindowChanges;

verus! {

/// The status code a window-tree query reports on failure.
pub const TREE_STATUS_FAILURE: i32 = 0;

/// The status code a window-tree query reports on plain success.
pub const TREE_STATUS_SUCCESS: i32 = 1;

/// The status code a window-tree query reports on success with compression.
pub const TREE_STATUS_SUCCESS_COMPRESSED: i32 = 2;

/// Whether a window-tree query status means the reply carries the window
/// list: both success variants do, only failure and unknown codes do not.
pub open spec fn tree_status_ok(status: i32) -> bool {
    status == TREE_STATUS_SUCCESS || status == TREE_STATUS_SUCCESS_COMPRESSED
}

/// Interprets the tri-state status of a window-tree query: both success
/// variants yield the window list unchanged, failure and unknown codes yield
/// the corresponding error message.
pub fn interpret_tree_status(status: i32, windows: Vec<u64>) -> (r: Result<Vec<u64>, String>)
    ensures
        match r {
            Ok(ws) => tree_status_ok(status) && ws@ == windows@,
            Err(m) => !tree_status_ok(status) && if status == TREE_STATUS_FAILURE {
                m@ == "Could not load list of windows"@
            } else {
                m@ == "Unknown return status"@
            },
        },
{
    if status == TREE_STATUS_SUCCESS || status == TREE_STATUS_SUCCESS_COMPRESSED {
        Ok(windows)
    } else if status == TREE_STATUS_FAILURE {
        Err("Could not load list of windows".to_owned())
    } else {
        Err("Unknown return status".to_owned())
    }
}

/// Builds the configure-request payload for a window: its geometry, with the
/// sibling and stacking fields left locked.
pub fn build_window_changes(w: &Window) -> (c: WindowChanges)
    ensures
        c == changes_of(*w),
{
    WindowChanges {
        x: w.x,
        y: w.y,
        width: w.width,
        height: w.height,
        border_width: w.border,
        sibling: 0u64,
        stack_mode: 0i32,
    }
}

/// Builds the synthetic structure-change notification for handle `h`
/// carrying the geometry of `w`: the same geometry as the configure request,
/// addressed to the window itself.
pub fn build_configure_notice(h: u64, w: &Window) -> (n: ConfigureNotice)
    ensures
        n == notice_of(h, *w),
{
    ConfigureNotice {
        kind: crate::types::CONFIGURE_NOTIFY,
        event: h,
        window: h,
        x: w.x,
        y: w.y,
        width: w.width,
        height: w.height,
        border_width: w.border,
        above: 0u64,
        override_redirect: 0i32,
    }
}

} // verus!
