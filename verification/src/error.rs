//! The failures that operations on process memory report.

use vstd::prelude::*;

verus! {

/// Every way in which finding a process or a module, resolving an offset
/// chain, or reading and writing memory can fail.
#[derive(Debug, Clone, Copy, PartialEq, Eq, Structural)]
pub enum MemoryError {
    /// No running process has the requested name.
    ProcessNotFound,
    /// The process has no loaded module of the requested name.
    ModuleNotFound,
    /// A process of the requested name exists but could not be opened.
    AccessDenied,
    /// A byte buffer does not have the length that the operation needs.
    InvalidBufferLength,
    /// An offset chain is empty.
    InvalidOffsetChain,
    /// Bytes could not be read, or only some of them were.
    ReadFailed { platform_code: i32 },
    /// Bytes could not be written, or only some of them were.
    WriteFailed { platform_code: i32 },
}

/// The result type of the memory operations.
pub type MemResult<T> = Result<T, MemoryError>;

} // verus!
