//! The low-level surface of the foreign engine.
//!
//! The engine exposes four kinds of manually-managed handles: the
//! computation environment (which also owns the error channel), the
//! molecular structure, the method calculator, and the results buffer.
//! This module gives each handle a shadow type that tracks what the layer
//! is allowed to do with it: whether it is still alive, how many atoms
//! its buffers are sized for, and, for the calculator, whether a method
//! has been loaded.  Releasing a handle goes through [`HandleGuard`],
//! which guarantees that the underlying resource is freed at most once.
//!
//! No function here performs a foreign call.  Each operation instead
//! returns the [`EngineOp`] describing the call to make; the embedder
//! performs it and, where the protocol demands it, feeds the resulting
//! status back through [`XtbEnvironment::check_error`].

use vstd::prelude::*;

use crate::error::XtbError;
use crate::quantity::Real;

verus! {

/// Verbosity code for a muted engine: no diagnostic output.
pub const XTB_VERBOSITY_MUTED: i32 = 0;

/// Verbosity code for minimal diagnostic output.
pub const XTB_VERBOSITY_MINIMAL: i32 = 1;

/// Verbosity code for full diagnostic output.
pub const XTB_VERBOSITY_FULL: i32 = 2;

/// The parametrisations the calculator can load.
#[derive(Clone, Copy, Debug, PartialEq, Eq, Structural)]
pub enum XtbMethod {
    /// The second-generation tight-binding parametrisation.
    GFN2xTB,
    /// The first-generation tight-binding parametrisation.
    GFN1xTB,
    /// The zeroth-generation tight-binding parametrisation.
    GFN0xTB,
    /// The force-field parametrisation.
    GFNFF,
}

/// A periodic boundary condition: a 3x3 lattice basis, stored row by row,
/// together with one periodicity flag per axis.  The flags always
/// accompany the basis, so a molecule is either a free cluster (no
/// lattice) or carries both.
#[derive(Clone, Copy, Debug, PartialEq)]
pub struct Lattice {
    /// The nine components of the 3x3 lattice basis, row by row.
    pub cells: [Real; 9],
    /// Whether the structure repeats along each of the three axes.
    pub periodic: [bool; 3],
}

/// One foreign call for the embedder to perform.  The payload of each
/// variant is everything scalar the call takes; array arguments (atomic
/// numbers, coordinates) are read from the value that produced the
/// operation.
#[derive(Clone, Copy, Debug, PartialEq)]
pub enum EngineOp {
    /// Ask the engine for the API version it implements.
    QueryVersion,
    /// Allocate a computation environment handle.
    NewEnvironment,
    /// Set the verbosity of the environment's diagnostic output.
    SetVerbosity { level: i32 },
    /// Query the environment's status; on a non-zero status, drain the
    /// error stack into a message string.
    QueryStatus,
    /// Allocate a molecular structure handle from the current atomic
    /// numbers and coordinates, with the given total charge, number of
    /// unpaired electrons, and optional periodic boundary condition.
    NewMolecule { charge: Real, uhf: i32, lattice: Option<Lattice> },
    /// Replace the coordinates (and optionally the lattice) of the
    /// molecule in place.
    UpdateMolecule { lattice: Option<Lattice> },
    /// Allocate an empty calculator handle with no method loaded.
    NewCalculator,
    /// Load the given parametrisation against the current molecule.
    LoadMethod { method: XtbMethod },
    /// Set the numerical accuracy of the calculator.
    SetAccuracy { accuracy: Real },
    /// Set the electronic temperature, in kelvin, for level filling.
    SetElectronicTemperature { temperature: Real },
    /// Set the iteration cap for the self-consistent solve.
    SetMaxIterations { count: i32 },
    /// Allocate a results handle for one single-point evaluation.
    NewResults,
    /// Run the single-point evaluation for the loaded method and the
    /// current geometry, filling the results handle.
    SinglePoint,
    /// Read the total energy (one value) out of the results handle.
    GetEnergy,
    /// Read the gradient (three values per atom) out of the results
    /// handle.
    GetGradient,
    /// Read the dipole moment (three values) out of the results handle.
    GetDipole,
    /// Read the bond orders (one value per ordered pair of atoms).
    GetBondOrders,
    /// Read the partial charges (one value per atom).
    GetCharges,
    /// Read the virial (nine values).
    GetVirial,
    /// Read the number of basis functions.
    GetNao,
    /// Read the orbital energies (one value per basis function).
    GetOrbitalEigenvalues,
    /// Read the orbital occupation numbers (one value per basis
    /// function).
    GetOrbitalOccupations,
    /// Read the orbital coefficients (one value per ordered pair of basis
    /// functions).
    GetOrbitalCoefficients,
    /// Free the results handle.
    ReleaseResults,
}

/// What came back from one performed [`EngineOp`].
#[derive(Debug)]
pub enum EngineReply {
    /// The call returns nothing; failure, if any, is visible only through
    /// the next status query.
    Done,
    /// The API version the engine reports.
    Version { value: u32 },
    /// The environment's status: zero for success, and otherwise the
    /// engine's error code together with the drained text of its error
    /// stack.
    Status { code: i32, message: String },
    /// One real value, read out of the results handle.
    Scalar { value: Real },
    /// A buffer of real values, read out of the results handle.
    Vector { values: Vec<Real> },
    /// A count reported by the engine.
    Count { value: usize },
}

/// Whether `reply` is the kind of outcome the given operation can have,
/// for a molecule of `natoms` atoms.  The workflow drivers require this
/// of every reply they absorb: a status query answers with a status, an
/// extraction answers with a buffer of the documented size, and every
/// other call answers with nothing.
pub open spec fn reply_fits(op: EngineOp, natoms: nat, reply: EngineReply) -> bool {
    match op {
        EngineOp::QueryVersion => reply is Version,
        EngineOp::QueryStatus => reply is Status,
        EngineOp::GetEnergy => reply is Scalar,
        EngineOp::GetGradient => (reply matches EngineReply::Vector { values } && values@.len()
            == 3 * natoms),
        EngineOp::GetDipole => (reply matches EngineReply::Vector { values } && values@.len()
            == 3),
        EngineOp::GetNao => reply is Count,
        _ => reply is Done,
    }
}

/// The failure, if any, that one absorbed reply reports: a non-zero
/// status becomes an engine error carrying the code and the drained
/// message, and a version answer that differs from `expected_version`
/// becomes a binary-incompatibility fault.  Every other reply reports
/// nothing.
pub open spec fn step_failure(reply: EngineReply, expected_version: u32) -> Option<XtbError> {
    match reply {
        EngineReply::Status { code, message } => if code != 0 {
            Some(XtbError::Engine { code, message })
        } else {
            None
        },
        EngineReply::Version { value } => if value != expected_version {
            Some(XtbError::ApiVersionMismatch { expected: expected_version, actual: value })
        } else {
            None
        },
        _ => None,
    }
}

/// The single-release sentinel that every handle shadow carries.  The
/// foreign deallocators must be called exactly once per handle;
/// [`HandleGuard::release`] reports whether the caller should free the
/// underlying resource, and says no the second time and ever after.
#[derive(Clone, Copy, Debug, PartialEq, Eq, Structural)]
pub struct HandleGuard {
    released: bool,
}

impl HandleGuard {
    /// Whether the handle has already been released.
    pub closed spec fn is_released(self) -> bool {
        self.released
    }

    /// The transition [`HandleGuard::release`] makes: the resource is
    /// freed exactly when the guard had not been released before, and the
    /// guard counts as released afterwards.
    pub open spec fn release_step(pre: HandleGuard, post: HandleGuard, freed: bool) -> bool {
        &&& freed == !pre.is_released()
        &&& post.is_released()
    }

    /// A fresh guard for a handle the engine has just handed out.
    pub fn new() -> (g: HandleGuard)
        ensures
            !g.is_released(),
    {
        HandleGuard { released: false }
    }

    /// Marks the handle released.  Returns whether the caller should free
    /// the underlying resource: true the first time, false ever after.
    pub fn release(&mut self) -> (freed: bool)
        ensures
            HandleGuard::release_step(*old(self), *final(self), freed),
    {
        let freed = !self.released;
        self.released = true;
        freed
    }
}

/// Releasing a handle a second time frees nothing: whatever the first
/// release did, a release that starts from an already-released guard
/// reports that the resource must not be freed again.
pub proof fn lemma_second_release_frees_nothing(
    first: HandleGuard,
    second: HandleGuard,
    third: HandleGuard,
    freed_first: bool,
    freed_second: bool,
)
    requires
        HandleGuard::release_step(first, second, freed_first),
        HandleGuard::release_step(second, third, freed_second),
    ensures
        !freed_second,
        third.is_released(),
{
}

/// The shadow of one environment handle: the root of every chain, owner
/// of the status channel that all other handles report into.
#[derive(Debug)]
pub struct XtbEnvironment {
    guard: HandleGuard,
}

impl XtbEnvironment {
    /// Whether the handle has not been released yet.
    pub closed spec fn is_alive(self) -> bool {
        !self.guard.is_released()
    }

    /// The operation that asks the engine for its API version.  The
    /// caller hands the answer to [`XtbEnvironment::check_api_version`]
    /// before building anything on the environment.
    pub fn version_op() -> (op: EngineOp)
        ensures
            op == EngineOp::QueryVersion,
    {
        EngineOp::QueryVersion
    }

    /// Decides whether the API version the engine reports is the one the
    /// foreign bindings were compiled against.  On a mismatch the linked
    /// engine is a different revision and nothing further may be called.
    pub fn check_api_version(expected: u32, reported: u32) -> (r: Result<(), XtbError>)
        ensures
            r is Ok <==> reported == expected,
            r matches Err(e) ==> e == (XtbError::ApiVersionMismatch {
                expected,
                actual: reported,
            }),
    {
        if reported == expected {
            Ok(())
        } else {
            Err(XtbError::ApiVersionMismatch { expected, actual: reported })
        }
    }

    /// A shadow for a freshly allocated environment handle, together
    /// with the allocation call for the embedder to perform.
    pub fn new() -> (r: (XtbEnvironment, EngineOp))
        ensures
            r.0.is_alive(),
            r.1 == EngineOp::NewEnvironment,
    {
        (XtbEnvironment { guard: HandleGuard::new() }, EngineOp::NewEnvironment)
    }

    /// Translates one answer of the status query.  A zero code means the
    /// last foreign call succeeded; any other code is surfaced as an
    /// engine error carrying the code and the drained message text,
    /// never swallowed and never retried.
    pub fn check_error(&self, code: i32, message: String) -> (r: Result<(), XtbError>)
        requires
            self.is_alive(),
        ensures
            r is Ok <==> code == 0,
            r matches Err(e) ==> e == (XtbError::Engine { code, message }),
    {
        if code == 0 {
            Ok(())
        } else {
            Err(XtbError::Engine { code, message })
        }
    }

    /// The operation that sets the engine's diagnostic verbosity.
    fn set_verbosity(&self, level: i32) -> (op: EngineOp)
        requires
            self.is_alive(),
        ensures
            op == (EngineOp::SetVerbosity { level }),
    {
        EngineOp::SetVerbosity { level }
    }

    /// The operation that makes the engine's diagnostic output verbose.
    pub fn set_output_verbose(&self) -> (op: EngineOp)
        requires
            self.is_alive(),
        ensures
            op == (EngineOp::SetVerbosity { level: XTB_VERBOSITY_FULL }),
    {
        self.set_verbosity(XTB_VERBOSITY_FULL)
    }

    /// The operation that makes the engine's diagnostic output minimal.
    pub fn set_output_minimal(&self) -> (op: EngineOp)
        requires
            self.is_alive(),
        ensures
            op == (EngineOp::SetVerbosity { level: XTB_VERBOSITY_MINIMAL }),
    {
        self.set_verbosity(XTB_VERBOSITY_MINIMAL)
    }

    /// The operation that mutes the engine's diagnostic output.
    pub fn set_output_muted(&self) -> (op: EngineOp)
        requires
            self.is_alive(),
        ensures
            op == (EngineOp::SetVerbosity { level: XTB_VERBOSITY_MUTED }),
    {
        self.set_verbosity(XTB_VERBOSITY_MUTED)
    }

    /// Marks the handle released; returns whether the embedder must call
    /// the foreign deallocator (true exactly once per handle).
    pub fn release(&mut self) -> (freed: bool)
        ensures
            HandleGuard::release_step(old(self).guard_state(), final(self).guard_state(), freed),
            !final(self).is_alive(),
    {
        self.guard.release()
    }

    /// The release sentinel of this handle.
    pub closed spec fn guard_state(self) -> HandleGuard {
        self.guard
    }

    /// A shadow for an environment handle whose allocation call the
    /// workflow layer has already emitted.
    pub(crate) fn adopt() -> (e: XtbEnvironment)
        ensures
            e.is_alive(),
    {
        XtbEnvironment { guard: HandleGuard::new() }
    }
}

/// The shadow of one molecular structure handle, sized for a fixed
/// number of atoms at creation.
#[derive(Debug)]
pub struct XtbMolecule {
    guard: HandleGuard,
    natoms: usize,
    periodic: bool,
}

impl XtbMolecule {
    /// Whether the handle has not been released yet.
    pub closed spec fn is_alive(self) -> bool {
        !self.guard.is_released()
    }

    /// The number of atoms the structure was created with.
    pub closed spec fn spec_natoms(self) -> nat {
        self.natoms as nat
    }

    /// Whether the structure was created with a periodic boundary
    /// condition.
    pub closed spec fn is_periodic(self) -> bool {
        self.periodic
    }

    /// Executable form of [`XtbMolecule::spec_natoms`].
    pub fn natoms(&self) -> (n: usize)
        ensures
            n == self.spec_natoms(),
    {
        self.natoms
    }

    /// Validates the dimensions and describes the creation call: the
    /// shadow of the new structure handle together with the allocation
    /// operation.  The coordinate array must hold exactly three values
    /// per atom; on a mismatch the configuration error is returned
    /// before any foreign call is described.  Quantities are in atomic
    /// units (Bohr).
    pub fn create(
        env: &XtbEnvironment,
        attyp: &Vec<i32>,
        coord: &Vec<Real>,
        charge: Real,
        uhf: i32,
        lattice: Option<Lattice>,
    ) -> (r: Result<(XtbMolecule, EngineOp), XtbError>)
        requires
            env.is_alive(),
        ensures
            r is Ok <==> coord@.len() == 3 * attyp@.len(),
            r matches Ok(p) ==> {
                &&& p.0.is_alive()
                &&& p.0.spec_natoms() == attyp@.len()
                &&& p.0.is_periodic() == lattice is Some
                &&& p.1 == (EngineOp::NewMolecule { charge, uhf, lattice })
            },
            r matches Err(e) ==> e == (XtbError::DimensionMismatch {
                atoms: attyp.len(),
                coords: coord.len(),
            }),
    {
        let na = attyp.len();
        let nc = coord.len();
        if na <= usize::MAX / 3 && nc == 3 * na {
            let mol = XtbMolecule {
                guard: HandleGuard::new(),
                natoms: na,
                periodic: lattice.is_some(),
            };
            Ok((mol, EngineOp::NewMolecule { charge, uhf, lattice }))
        } else {
            Err(XtbError::DimensionMismatch { atoms: na, coords: nc })
        }
    }

    /// Describes the in-place geometry replacement: the embedder pushes
    /// `coord` (and the lattice, if one is given) into the structure
    /// handle and then checks the environment's status.  The replacement
    /// must be same-size: three values per atom of the structure as it
    /// was created.  Quantities are in atomic units (Bohr).
    pub fn update(&self, env: &XtbEnvironment, coord: &Vec<Real>, lattice: Option<Lattice>) -> (op:
        EngineOp)
        requires
            self.is_alive(),
            env.is_alive(),
            coord@.len() == 3 * self.spec_natoms(),
        ensures
            op == (EngineOp::UpdateMolecule { lattice }),
    {
        EngineOp::UpdateMolecule { lattice }
    }

    /// Marks the handle released; returns whether the embedder must call
    /// the foreign deallocator (true exactly once per handle).
    pub fn release(&mut self) -> (freed: bool)
        ensures
            HandleGuard::release_step(old(self).guard_state(), final(self).guard_state(), freed),
            !final(self).is_alive(),
            final(self).spec_natoms() == old(self).spec_natoms(),
            final(self).is_periodic() == old(self).is_periodic(),
    {
        self.guard.release()
    }

    /// The release sentinel of this handle.
    pub closed spec fn guard_state(self) -> HandleGuard {
        self.guard
    }

    /// A shadow for a structure handle whose allocation call the
    /// workflow layer has already emitted.
    pub(crate) fn adopt(natoms: usize, periodic: bool) -> (m: XtbMolecule)
        ensures
            m.is_alive(),
            m.spec_natoms() == natoms,
            m.is_periodic() == periodic,
    {
        XtbMolecule { guard: HandleGuard::new(), natoms, periodic }
    }
}

/// The shadow of one calculator handle, tracking the small state machine
/// the engine imposes on it: empty until a method is loaded, and only
/// then able to run a single-point evaluation.
#[derive(Debug)]
pub struct XtbCalculator {
    guard: HandleGuard,
    method: Option<XtbMethod>,
}

impl XtbCalculator {
    /// Whether the handle has not been released yet.
    pub closed spec fn is_alive(self) -> bool {
        !self.guard.is_released()
    }

    /// The method currently loaded, if any.
    pub closed spec fn spec_method(self) -> Option<XtbMethod> {
        self.method
    }

    /// A shadow for a freshly allocated calculator handle, with no
    /// method loaded, together with the allocation call.
    pub fn new() -> (r: (XtbCalculator, EngineOp))
        ensures
            r.0.is_alive(),
            r.0.spec_method() is None,
            r.1 == EngineOp::NewCalculator,
    {
        (XtbCalculator { guard: HandleGuard::new(), method: None }, EngineOp::NewCalculator)
    }

    /// Describes loading a parametrisation against the given molecule.
    /// Loading must happen before the first single-point call, and again
    /// whenever the molecule or the method changes; the shadow leaves
    /// its empty state here and remembers what was loaded.
    pub fn set_method(
        &mut self,
        mol: &XtbMolecule,
        env: &XtbEnvironment,
        method: XtbMethod,
    ) -> (op: EngineOp)
        requires
            old(self).is_alive(),
            mol.is_alive(),
            env.is_alive(),
        ensures
            final(self).is_alive(),
            final(self).spec_method() == Some(method),
            final(self).guard_state() == old(self).guard_state(),
            op == (EngineOp::LoadMethod { method }),
    {
        self.method = Some(method);
        EngineOp::LoadMethod { method }
    }

    /// Describes capping the self-consistent iteration count.  The
    /// engine takes the cap as a machine integer, so the count must fit
    /// one.  No status check follows: the engine treats the setting as
    /// best-effort.
    pub fn set_max_iterations(&self, env: &XtbEnvironment, n: usize) -> (op: EngineOp)
        requires
            self.is_alive(),
            env.is_alive(),
            n <= i32::MAX,
        ensures
            op == (EngineOp::SetMaxIterations { count: n as i32 }),
    {
        EngineOp::SetMaxIterations { count: n as i32 }
    }

    /// Describes setting the electronic temperature (in kelvin) for
    /// level filling.  No status check follows.
    pub fn set_electronic_temperature(&self, env: &XtbEnvironment, temperature: Real) -> (op:
        EngineOp)
        requires
            self.is_alive(),
            env.is_alive(),
        ensures
            op == (EngineOp::SetElectronicTemperature { temperature }),
    {
        EngineOp::SetElectronicTemperature { temperature }
    }

    /// Describes setting the numerical accuracy of the calculator.  No
    /// status check follows.
    pub fn set_accuracy(&self, env: &XtbEnvironment, accuracy: Real) -> (op: EngineOp)
        requires
            self.is_alive(),
            env.is_alive(),
        ensures
            op == (EngineOp::SetAccuracy { accuracy }),
    {
        EngineOp::SetAccuracy { accuracy }
    }

    /// Describes one single-point evaluation: allocate a results handle,
    /// then run the evaluation into it; the embedder checks the status
    /// afterwards.  A method must have been loaded first — this is the
    /// one transition the calculator's state machine guards.
    pub fn single_point(&self, mol: &XtbMolecule, env: &XtbEnvironment) -> (r: (
        XtbResults,
        Vec<EngineOp>,
    ))
        requires
            self.is_alive(),
            mol.is_alive(),
            env.is_alive(),
            self.spec_method() is Some,
        ensures
            r.0.is_alive(),
            r.0.spec_natoms() == mol.spec_natoms(),
            r.1@ == seq![EngineOp::NewResults, EngineOp::SinglePoint],
    {
        let res = XtbResults { guard: HandleGuard::new(), natoms: mol.natoms() };
        let ops = vec![EngineOp::NewResults, EngineOp::SinglePoint];
        proof {
            assert(ops@ =~= seq![EngineOp::NewResults, EngineOp::SinglePoint]);
        }
        (res, ops)
    }

    /// Marks the handle released; returns whether the embedder must call
    /// the foreign deallocator (true exactly once per handle).
    pub fn release(&mut self) -> (freed: bool)
        ensures
            HandleGuard::release_step(old(self).guard_state(), final(self).guard_state(), freed),
            !final(self).is_alive(),
            final(self).spec_method() == old(self).spec_method(),
    {
        self.guard.release()
    }

    /// The release sentinel of this handle.
    pub closed spec fn guard_state(self) -> HandleGuard {
        self.guard
    }

    /// A shadow for a calculator handle whose allocation and method-load
    /// calls the workflow layer has already emitted.
    pub(crate) fn adopt(method: XtbMethod) -> (c: XtbCalculator)
        ensures
            c.is_alive(),
            c.spec_method() == Some(method),
    {
        XtbCalculator { guard: HandleGuard::new(), method: Some(method) }
    }
}

/// The shadow of one results handle, produced by a single-point
/// evaluation and read through typed extraction calls.  Every extraction
/// must be followed by a status check: the foreign calls signal failure
/// only through the environment's error stack.
#[derive(Debug)]
pub struct XtbResults {
    guard: HandleGuard,
    natoms: usize,
}

impl XtbResults {
    /// Whether the handle has not been released yet.
    pub closed spec fn is_alive(self) -> bool {
        !self.guard.is_released()
    }

    /// The number of atoms of the molecule the evaluation ran on; the
    /// per-atom buffers are sized from it.
    pub closed spec fn spec_natoms(self) -> nat {
        self.natoms as nat
    }

    /// Describes reading the total energy, in Hartree: one value.
    pub fn get_energy(&self, env: &XtbEnvironment) -> (op: EngineOp)
        requires
            self.is_alive(),
            env.is_alive(),
        ensures
            op == EngineOp::GetEnergy,
    {
        EngineOp::GetEnergy
    }

    /// Describes reading the dipole moment, in e·Bohr: three values.
    pub fn get_dipole(&self, env: &XtbEnvironment) -> (op: EngineOp)
        requires
            self.is_alive(),
            env.is_alive(),
        ensures
            op == EngineOp::GetDipole,
    {
        EngineOp::GetDipole
    }

    /// Describes reading the gradient, in Hartree/Bohr: three values per
    /// atom.  The embedder must size the buffer with
    /// [`XtbResults::gradient_len`] before the call.
    pub fn get_gradient(&self, env: &XtbEnvironment) -> (op: EngineOp)
        requires
            self.is_alive(),
            env.is_alive(),
        ensures
            op == EngineOp::GetGradient,
    {
        EngineOp::GetGradient
    }

    /// Describes reading the bond orders: one value per ordered pair of
    /// atoms.
    pub fn get_bond_orders(&self, env: &XtbEnvironment) -> (op: EngineOp)
        requires
            self.is_alive(),
            env.is_alive(),
        ensures
            op == EngineOp::GetBondOrders,
    {
        EngineOp::GetBondOrders
    }

    /// Describes reading the partial charges, in e: one value per atom.
    pub fn get_charges(&self, env: &XtbEnvironment) -> (op: EngineOp)
        requires
            self.is_alive(),
            env.is_alive(),
        ensures
            op == EngineOp::GetCharges,
    {
        EngineOp::GetCharges
    }

    /// Describes reading the virial, in Hartree: nine values.
    pub fn get_virial(&self, env: &XtbEnvironment) -> (op: EngineOp)
        requires
            self.is_alive(),
            env.is_alive(),
        ensures
            op == EngineOp::GetVirial,
    {
        EngineOp::GetVirial
    }

    /// Describes reading the number of basis functions; the orbital
    /// buffers are sized from the answer, so this must be queried before
    /// any orbital extraction.
    pub fn get_nao(&self, env: &XtbEnvironment) -> (op: EngineOp)
        requires
            self.is_alive(),
            env.is_alive(),
        ensures
            op == EngineOp::GetNao,
    {
        EngineOp::GetNao
    }

    /// Describes reading the orbital energies, in Hartree: one value per
    /// basis function.
    pub fn get_orbital_eigenvalues(&self, env: &XtbEnvironment) -> (op: EngineOp)
        requires
            self.is_alive(),
            env.is_alive(),
        ensures
            op == EngineOp::GetOrbitalEigenvalues,
    {
        EngineOp::GetOrbitalEigenvalues
    }

    /// Describes reading the orbital occupation numbers: one value per
    /// basis function.
    pub fn get_orbital_occupations(&self, env: &XtbEnvironment) -> (op: EngineOp)
        requires
            self.is_alive(),
            env.is_alive(),
        ensures
            op == EngineOp::GetOrbitalOccupations,
    {
        EngineOp::GetOrbitalOccupations
    }

    /// Describes reading the orbital coefficients: one value per ordered
    /// pair of basis functions.
    pub fn get_orbital_coefficients(&self, env: &XtbEnvironment) -> (op: EngineOp)
        requires
            self.is_alive(),
            env.is_alive(),
        ensures
            op == EngineOp::GetOrbitalCoefficients,
    {
        EngineOp::GetOrbitalCoefficients
    }

    /// Marks the handle released; returns whether the embedder must call
    /// the foreign deallocator (true exactly once per handle).
    pub fn release(&mut self) -> (freed: bool)
        ensures
            HandleGuard::release_step(old(self).guard_state(), final(self).guard_state(), freed),
            !final(self).is_alive(),
            final(self).spec_natoms() == old(self).spec_natoms(),
    {
        self.guard.release()
    }

    /// The release sentinel of this handle.
    pub closed spec fn guard_state(self) -> HandleGuard {
        self.guard
    }

    /// A shadow for a results handle whose allocation call the workflow
    /// layer has already emitted.
    pub(crate) fn adopt(natoms: usize) -> (r: XtbResults)
        ensures
            r.is_alive(),
            r.spec_natoms() == natoms,
    {
        XtbResults { guard: HandleGuard::new(), natoms }
    }
}

} // verus!
