//! The error taxonomy the callers of the compilers and of the storage
//! executor map failures into.

use vstd::prelude::*;

verus! {

/// A caller-facing failure. The compilers raise `BadData` before any
/// statement exists; the storage executor's reports are mapped to
/// `NotFound` (a point lookup returned no row), `DataConflict` (a
/// uniqueness constraint was violated) or `Storage` (any other failure,
/// passed through unchanged); `Unauthorized` is the credential edge's
/// refusal.
#[derive(Debug)]
pub enum AppError {
    BadData(String),
    DataConflict(String),
    NotFound,
    Unauthorized,
    Storage(String),
}

} // verus!
