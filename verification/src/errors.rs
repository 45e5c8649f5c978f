use vstd::prelude::*;

verus! {

/// The failures the core surfaces to its callers.
///
/// Every failure is locally recoverable: the operation that produced it
/// returns it as a typed result and performs no retry of its own.
#[derive(Debug, Clone, Copy, PartialEq, Eq, Structural)]
pub enum Error {
    /// An offset set or a consumer label grew past its fixed capacity.
    CapacityExceeded,
    /// An offset was inserted into a set that already contains it.
    AlreadyExists,
    /// An offset was looked up or removed but is not in the set.
    NotFound,
    /// Two masked values disagree on a commonly masked bit.
    Conflict,
    /// A decoded name or consumer field is not valid UTF-8, or carries
    /// non-zero bytes after its first NUL.
    Malformed,
    /// The protocol reported an attribute kind this reader does not know.
    Unsupported,
    /// The underlying privileged call failed; carries the OS error code.
    Underlying(i32),
}

} // verus!
