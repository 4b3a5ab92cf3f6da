//! Status mapping for the management interface.
//!
//! Every wire-level call answers with a signed status code.  The mapping
//! layer turns each documented code into a typed outcome: the success
//! code becomes `Ok` and passes the call's outputs through, every other
//! documented code becomes a typed failure carrying the operation, the
//! raw code and a coarse category.  Undocumented codes are a contract
//! violation between this layer and the wire; they are excluded by
//! precondition rather than silently mapped.

use vstd::prelude::*;

verus! {

/// Status code of a successful wire-level call.
pub const STATUS_OK: i32 = 0;

/// Status code of a call refused because a parameter was invalid
/// (out-of-range wire field, id or group collision).
pub const STATUS_INVALID_PARAMETER: i32 = -8001;

/// Status code of a call refused for lack of permission.
pub const STATUS_PERMISSION_DENIED: i32 = -8002;

/// Status code of a call refused because the resource is busy or the
/// id space of the addressed chip is exhausted.
pub const STATUS_BUSY: i32 = -8003;

/// Status code of a call addressing a card, chip or virtual chip that
/// the wire level does not know.
pub const STATUS_NOT_FOUND: i32 = -8004;

/// Status code of an internal failure of the wire level, also used by
/// this layer when it observes a topology that breaks the documented
/// contract.
pub const STATUS_INTERNAL: i32 = -8005;

/// The operation a status code came from.
#[derive(Debug, PartialEq, Eq, Clone, Copy, Structural)]
pub enum Operation {
    /// Process-wide initialization
    Init,
    /// Card enumeration
    GetCardList,
    /// Chip enumeration and classification under a card
    GetChips,
    /// Memory telemetry query
    GetMemoryInfo,
    /// HBM telemetry query
    GetHbmInfo,
    /// Health telemetry query
    GetHealth,
    /// Frequency telemetry query
    GetFrequency,
    /// Utilization telemetry query
    GetUtilizationRate,
    /// Virtual chip creation
    CreateVirtualChip,
    /// Virtual chip destruction
    DestroyVirtualChip,
    /// Read of the recover-mode flag
    GetVChipRecoverMode,
    /// Write of the recover-mode flag
    SetVChipRecoverMode,
}

/// Coarse failure category of a non-success status code.
#[derive(Debug, PartialEq, Eq, Clone, Copy, Structural)]
pub enum ErrorCategory {
    /// The addressed card, chip or virtual chip is unknown
    NotFound,
    /// A parameter was invalid, including id/group collisions
    InvalidParameter,
    /// The caller lacks permission
    PermissionDenied,
    /// The resource is busy or exhausted
    Busy,
    /// Internal failure or contract violation
    Internal,
}

/// A typed failure: the operation it arose in, the raw status code, and
/// its category.
#[derive(Debug, PartialEq, Eq, Clone, Copy, Structural)]
pub struct DcmiError {
    /// The operation the failing call belongs to
    pub op: Operation,
    /// The raw status code the wire level answered with
    pub code: i32,
    /// The coarse category of the failure
    pub category: ErrorCategory,
}

/// Holds exactly on the status codes the interface manual documents.
pub open spec fn status_documented(code: i32) -> bool {
    code == STATUS_OK || code == STATUS_INVALID_PARAMETER || code == STATUS_PERMISSION_DENIED
        || code == STATUS_BUSY || code == STATUS_NOT_FOUND || code == STATUS_INTERNAL
}

/// The category of a documented non-success status code.
pub open spec fn category_of_status(code: i32) -> ErrorCategory {
    if code == STATUS_INVALID_PARAMETER {
        ErrorCategory::InvalidParameter
    } else if code == STATUS_PERMISSION_DENIED {
        ErrorCategory::PermissionDenied
    } else if code == STATUS_BUSY {
        ErrorCategory::Busy
    } else if code == STATUS_NOT_FOUND {
        ErrorCategory::NotFound
    } else {
        ErrorCategory::Internal
    }
}

/// The typed failure a documented non-success status code maps to.
pub open spec fn error_of_status(op: Operation, code: i32) -> DcmiError {
    DcmiError { op, code, category: category_of_status(code) }
}

/// Map a documented status code to a typed outcome: the success code
/// becomes `Ok(())`, every other documented code becomes the typed
/// failure with its category.
pub fn map_status(op: Operation, code: i32) -> (r: Result<(), DcmiError>)
    requires
        status_documented(code),
    ensures
        r is Ok <==> code == STATUS_OK,
        r is Err ==> r->Err_0 == error_of_status(op, code),
{
    if code == STATUS_OK {
        Ok(())
    } else if code == STATUS_INVALID_PARAMETER {
        Err(DcmiError { op, code, category: ErrorCategory::InvalidParameter })
    } else if code == STATUS_PERMISSION_DENIED {
        Err(DcmiError { op, code, category: ErrorCategory::PermissionDenied })
    } else if code == STATUS_BUSY {
        Err(DcmiError { op, code, category: ErrorCategory::Busy })
    } else if code == STATUS_NOT_FOUND {
        Err(DcmiError { op, code, category: ErrorCategory::NotFound })
    } else {
        Err(DcmiError { op, code, category: ErrorCategory::Internal })
    }
}

/// Status mapping is total on the documented codes and keeps their
/// categories apart: two different documented failure codes never map
/// to the same category, so a caller deciding on the category can tell
/// every documented failure from every other.
pub proof fn lemma_status_categories_distinct(a: i32, b: i32)
    requires
        status_documented(a),
        status_documented(b),
        a != STATUS_OK,
        b != STATUS_OK,
        a != b,
    ensures
        category_of_status(a) != category_of_status(b),
{
}

} // verus!
