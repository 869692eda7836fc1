//! A leak-free, panic-free driver for a handle-based quantum-chemistry
//! engine that computes single-point properties (energy, gradient, dipole)
//! for a set of atoms.
//!
//! The engine is foreign: it hands out four kinds of opaque handles
//! (environment, molecule, calculator, results) and reports failures only
//! through a side-channel status query on the environment handle.  This
//! crate verifies the part of the work that can go wrong silently: the
//! order of the foreign calls, the status check after every call that can
//! fail, the validation of array dimensions before any handle is created,
//! the single-release discipline for every handle, and the translation of
//! engine status codes into a structured error type.
//!
//! The library never touches the engine itself.  Every foreign call is
//! described as an [`raw::EngineOp`] value; an embedder performs the
//! call and hands the outcome back as an [`raw::EngineReply`].  The
//! workflow drivers [`xtb::ModelCreation`] and [`xtb::Evaluation`] are
//! verified to emit the correct call sequence and to stop at the first
//! reported failure.

pub mod error;
pub mod raw;
pub mod quantity;
pub mod xtb;

pub use crate::error::XtbError;
pub use crate::quantity::Real;
pub use crate::raw::EngineOp;
pub use crate::raw::EngineReply;
pub use crate::raw::Lattice;
pub use crate::raw::XtbCalculator;
pub use crate::raw::XtbEnvironment;
pub use crate::raw::XtbMethod;
pub use crate::raw::XtbMolecule;
pub use crate::raw::XtbResults;
pub use crate::xtb::Dipole;
pub use crate::xtb::Evaluation;
pub use crate::xtb::ModelCreation;
pub use crate::xtb::XtbModel;
pub use crate::xtb::XtbOutputVerbosity;
pub use crate::xtb::XtbParameters;
