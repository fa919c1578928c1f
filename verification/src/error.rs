//! Error taxonomy of the executor core.

use vstd::prelude::*;

verus! {

/// Failures surfaced to callers of the executor.
///
/// `Runtime` covers everything that is neither a malformed boundary value
/// (`Encoding`), a structurally invalid request (`InvalidRequest`), a
/// script-level non-zero exit (`Script`), nor an interpreter-internal
/// fault (`Vm`): not-found cells, transport failures, and the like.
///
/// A cache miss that merely asks the caller to retry is *not* an `Error`:
/// it travels as a distinguished `Deferred` outcome so that retry logic is
/// type-checked, never recovered from error text.
#[derive(Debug, PartialEq, Eq)]
pub enum Error {
    /// Malformed hex or JSON at a boundary.
    Encoding(String),
    /// The caller supplied a structurally invalid request.
    InvalidRequest(String),
    /// The interpreter ran and the script reported a non-zero exit code.
    Script(i8),
    /// The interpreter itself faulted (for example, an illegal instruction).
    Vm(String),
    /// Everything else: not-found, transport failure, and similar faults.
    Runtime(String),
}

} // verus!
