//! The error taxonomy of the layer.
//!
//! Three families of failure reach a caller:
//! - configuration errors, detected locally before any foreign call
//!   (mismatched array dimensions);
//! - engine errors, reported by the foreign status query after a call,
//!   carrying the numeric code and the drained message text;
//! - faults of the embedding itself: a reported API version that differs
//!   from the one the bindings were compiled against, or a deliberately
//!   unsupported path (changing the lattice of an already-built
//!   structure).

use vstd::prelude::*;

verus! {

/// A failure surfaced by this layer.
#[derive(Debug, PartialEq)]
pub enum XtbError {
    /// The coordinate array does not hold three values per atom.  Detected
    /// before any foreign call; the caller can recover by fixing the
    /// inputs.  `atoms` is the number of atoms given, `coords` the number
    /// of coordinate components given.
    DimensionMismatch { atoms: usize, coords: usize },
    /// The engine reported a non-zero status after a foreign call.  `code`
    /// is the reported status, `message` the drained text of the engine's
    /// error stack.  Never retried by this layer.
    Engine { code: i32, message: String },
    /// The engine's reported API version differs from the one the foreign
    /// bindings were compiled against.  The linked engine is a different
    /// revision; no call into it can be trusted.
    ApiVersionMismatch { expected: u32, actual: u32 },
    /// Replacing the lattice of an already-constructed structure is not
    /// supported by the call sequence this layer drives, and is rejected
    /// rather than silently ignored.
    LatticeUpdateUnsupported,
}

impl XtbError {
    /// Whether the failure is a configuration error the caller can fix by
    /// changing the inputs, as opposed to a failure of the computation or
    /// of the embedding.
    pub open spec fn spec_is_configuration(self) -> bool {
        self is DimensionMismatch
    }

    /// Executable form of [`XtbError::spec_is_configuration`].
    pub fn is_configuration(&self) -> (r: bool)
        ensures
            r == self.spec_is_configuration(),
    {
        match self {
            XtbError::DimensionMismatch { .. } => true,
            _ => false,
        }
    }

    /// Whether the failure came out of the engine's status channel.
    pub open spec fn spec_is_engine(self) -> bool {
        self is Engine
    }

    /// Executable form of [`XtbError::spec_is_engine`].
    pub fn is_engine(&self) -> (r: bool)
        ensures
            r == self.spec_is_engine(),
    {
        match self {
            XtbError::Engine { .. } => true,
            _ => false,
        }
    }
}

} // verus!
