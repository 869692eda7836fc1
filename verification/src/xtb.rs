//! The high-level workflow: configuration, model construction, and
//! repeated single-point evaluation.
//!
//! [`XtbParameters`] is the pure configuration value: charge, unpaired
//! electrons, verbosity, method, iteration cap, electronic temperature,
//! and an optional periodic boundary condition.  [`XtbModel::create`]
//! validates the inputs and opens a [`ModelCreation`], which walks the
//! engine through environment, molecule and calculator construction in
//! order, one status check after every call that can fail.  The finished
//! [`XtbModel`] then drives any number of single-point evaluations, each
//! as an [`Evaluation`] that re-pushes the configuration, runs the
//! compute call, and extracts energy, gradient and dipole.

use vstd::prelude::*;
use vstd::string::StrSliceExecFns;

use crate::error::XtbError;
use crate::quantity::Real;
use crate::raw::reply_fits;
use crate::raw::step_failure;
use crate::raw::EngineOp;
use crate::raw::EngineReply;
use crate::raw::Lattice;
use crate::raw::XtbCalculator;
use crate::raw::XtbEnvironment;
use crate::raw::XtbMethod;
use crate::raw::XtbMolecule;
use crate::raw::XtbResults;
use crate::raw::XTB_VERBOSITY_FULL;
use crate::raw::XTB_VERBOSITY_MINIMAL;
use crate::raw::XTB_VERBOSITY_MUTED;

verus! {

/// The code point of a character after ASCII upper-casing: the letters
/// `a` through `z` lose 32, everything else is unchanged.
pub open spec fn upper_code(c: char) -> int {
    if 97 <= c as int && c as int <= 122 {
        c as int - 32
    } else {
        c as int
    }
}

/// Whether `s` equals the pattern `pat` once upper-cased: same length,
/// and character by character the upper-cased code of `s` is the code of
/// `pat`.  The patterns this module uses are already upper-case.
pub open spec fn folded_eq(s: Seq<char>, pat: Seq<char>) -> bool {
    s.len() == pat.len() && (forall|i: int|
        0 <= i < s.len() ==> upper_code(#[trigger] s[i]) == pat[i] as int)
}

/// The method a name denotes, if any.  Each of the four parametrisations
/// is accepted under its concatenated and its hyphenated spelling, in
/// any letter case; every other name denotes nothing.
pub open spec fn spec_parse_method(s: Seq<char>) -> Option<XtbMethod> {
    if folded_eq(s, "GFN2XTB"@) || folded_eq(s, "GFN2-XTB"@) {
        Some(XtbMethod::GFN2xTB)
    } else if folded_eq(s, "GFN1XTB"@) || folded_eq(s, "GFN1-XTB"@) {
        Some(XtbMethod::GFN1xTB)
    } else if folded_eq(s, "GFN0XTB"@) || folded_eq(s, "GFN0-XTB"@) {
        Some(XtbMethod::GFN0xTB)
    } else if folded_eq(s, "GFNFF"@) || folded_eq(s, "GFN-FF"@) {
        Some(XtbMethod::GFNFF)
    } else {
        None
    }
}

/// Whether `s` equals `pat` after ASCII upper-casing of `s`.
fn eq_folded(s: &str, pat: &str) -> (r: bool)
    ensures
        r == folded_eq(s@, pat@),
{
    let n = s.unicode_len();
    if n != pat.unicode_len() {
        return false;
    }
    let mut i: usize = 0;
    while i < n
        invariant
            i <= n,
            n == s@.len(),
            n == pat@.len(),
            forall|j: int| 0 <= j < i ==> upper_code(#[trigger] s@[j]) == pat@[j] as int,
        decreases n - i,
    {
        let c = s.get_char(i) as u32;
        let p = pat.get_char(i) as u32;
        let folded = if 97 <= c && c <= 122 {
            c - 32
        } else {
            c
        };
        if folded != p {
            return false;
        }
        i = i + 1;
    }
    true
}

impl XtbMethod {
    /// Parses a method name.  The four parametrisations are accepted
    /// case-insensitively, each under both its concatenated and its
    /// hyphenated spelling (for the force field: with and without the
    /// hyphen before `FF`); any other name is rejected.
    pub fn parse(s: &str) -> (r: Option<XtbMethod>)
        ensures
            r == spec_parse_method(s@),
    {
        if eq_folded(s, "GFN2XTB") || eq_folded(s, "GFN2-XTB") {
            Some(XtbMethod::GFN2xTB)
        } else if eq_folded(s, "GFN1XTB") || eq_folded(s, "GFN1-XTB") {
            Some(XtbMethod::GFN1xTB)
        } else if eq_folded(s, "GFN0XTB") || eq_folded(s, "GFN0-XTB") {
            Some(XtbMethod::GFN0xTB)
        } else if eq_folded(s, "GFNFF") || eq_folded(s, "GFN-FF") {
            Some(XtbMethod::GFNFF)
        } else {
            None
        }
    }
}

/// How much diagnostic text the engine emits.
#[derive(Clone, Copy, Debug, PartialEq, Eq, Structural)]
pub enum XtbOutputVerbosity {
    /// No diagnostic output.
    Muted,
    /// A short summary.
    Minimal,
    /// Full diagnostic output.
    Verbose,
}

/// The verbosity code the engine takes for each output level.
pub open spec fn verbosity_level(v: XtbOutputVerbosity) -> i32 {
    match v {
        XtbOutputVerbosity::Muted => XTB_VERBOSITY_MUTED,
        XtbOutputVerbosity::Minimal => XTB_VERBOSITY_MINIMAL,
        XtbOutputVerbosity::Verbose => XTB_VERBOSITY_FULL,
    }
}

/// Executable form of [`verbosity_level`].
fn verbosity_code(v: XtbOutputVerbosity) -> (r: i32)
    ensures
        r == verbosity_level(v),
{
    match v {
        XtbOutputVerbosity::Muted => XTB_VERBOSITY_MUTED,
        XtbOutputVerbosity::Minimal => XTB_VERBOSITY_MINIMAL,
        XtbOutputVerbosity::Verbose => XTB_VERBOSITY_FULL,
    }
}

/// The abstract value of an [`XtbParameters`]: each configuration field,
/// plainly.
pub struct ParamsView {
    /// Number of unpaired electrons.
    pub uhf: usize,
    /// Total charge of the system, in e.
    pub charge: Real,
    /// Diagnostic output level.
    pub verbosity: XtbOutputVerbosity,
    /// Iteration cap for the self-consistent solve.
    pub max_iterations: usize,
    /// Electronic temperature for level filling, in kelvin.
    pub electronic_temperature: Real,
    /// The parametrisation to load.
    pub method: XtbMethod,
    /// The periodic boundary condition, if any.
    pub lattice: Option<Lattice>,
}

impl ParamsView {
    /// What every well-formed configuration satisfies: the counts the
    /// engine takes as machine integers fit one, and the electronic
    /// temperature is not negative.
    pub open spec fn wf(self) -> bool {
        &&& self.uhf <= i32::MAX
        &&& self.max_iterations <= i32::MAX
        &&& self.electronic_temperature.is_sign_positive()
    }
}

/// The configuration an [`XtbModel`] is built from: a plain value with
/// no foreign handle behind it.  Start from [`XtbParameters::default`]
/// and adjust through the setters; the defaults are charge zero, no
/// unpaired electrons, muted output, 250 iterations, 300 K electronic
/// temperature, the second-generation tight-binding method, and no
/// lattice.
#[derive(Clone, Copy, Debug)]
pub struct XtbParameters {
    uhf: usize,
    charge: Real,
    verbosity: XtbOutputVerbosity,
    max_iterations: usize,
    electronic_temperature: Real,
    method: XtbMethod,
    lattice: Option<Lattice>,
}

/// The bit pattern of 300.0, the default electronic temperature in
/// kelvin.
pub const DEFAULT_ELECTRONIC_TEMPERATURE_BITS: u64 = 0x4072_C000_0000_0000;

/// The default iteration cap for the self-consistent solve.
pub const DEFAULT_MAX_ITERATIONS: usize = 250;

/// The bit pattern of 1.0, the accuracy every evaluation is run at.
pub const ACCURACY_BITS: u64 = 0x3FF0_0000_0000_0000;

impl View for XtbParameters {
    type V = ParamsView;

    closed spec fn view(&self) -> ParamsView {
        ParamsView {
            uhf: self.uhf,
            charge: self.charge,
            verbosity: self.verbosity,
            max_iterations: self.max_iterations,
            electronic_temperature: self.electronic_temperature,
            method: self.method,
            lattice: self.lattice,
        }
    }
}

impl Default for XtbParameters {
    /// The documented defaults: charge zero, no unpaired electrons,
    /// muted output, 250 iterations, 300 K electronic temperature, the
    /// second-generation tight-binding method, no lattice.
    fn default() -> (r: XtbParameters)
        ensures
            r@ == (ParamsView {
                uhf: 0,
                charge: Real { bits: 0 },
                verbosity: XtbOutputVerbosity::Muted,
                max_iterations: DEFAULT_MAX_ITERATIONS,
                electronic_temperature: Real { bits: DEFAULT_ELECTRONIC_TEMPERATURE_BITS },
                method: XtbMethod::GFN2xTB,
                lattice: None,
            }),
            r@.wf(),
    {
        XtbParameters {
            uhf: 0,
            charge: Real { bits: 0 },
            verbosity: XtbOutputVerbosity::Muted,
            max_iterations: DEFAULT_MAX_ITERATIONS,
            electronic_temperature: Real { bits: DEFAULT_ELECTRONIC_TEMPERATURE_BITS },
            method: XtbMethod::GFN2xTB,
            lattice: None,
        }
    }
}

impl XtbParameters {
    /// Sets the total charge of the system, in e.
    pub fn charge(&mut self, charge: Real)
        ensures
            final(self)@ == (ParamsView { charge, ..old(self)@ }),
    {
        self.charge = charge;
    }

    /// Sets the number of unpaired electrons.  The engine takes the
    /// count as a machine integer, so it must fit one.
    pub fn unpaired_electrons(&mut self, n: usize)
        requires
            n <= i32::MAX,
        ensures
            final(self)@ == (ParamsView { uhf: n, ..old(self)@ }),
    {
        self.uhf = n;
    }

    /// Sets the electronic temperature for level filling, in kelvin.
    /// A temperature with a negative sign is a configuration mistake
    /// and is ruled out here, as the engine itself does not check it.
    pub fn electronic_temperature(&mut self, t: Real)
        requires
            t.is_sign_positive(),
        ensures
            final(self)@ == (ParamsView { electronic_temperature: t, ..old(self)@ }),
    {
        self.electronic_temperature = t;
    }

    /// Caps the number of self-consistent iterations.  The engine takes
    /// the cap as a machine integer, so it must fit one.
    pub fn max_iterations(&mut self, n: usize)
        requires
            n <= i32::MAX,
        ensures
            final(self)@ == (ParamsView { max_iterations: n, ..old(self)@ }),
    {
        self.max_iterations = n;
    }

    /// Asks for full diagnostic output.
    pub fn output_verbose(&mut self)
        ensures
            final(self)@ == (ParamsView { verbosity: XtbOutputVerbosity::Verbose, ..old(self)@ }),
    {
        self.verbosity = XtbOutputVerbosity::Verbose;
    }

    /// Asks for a short diagnostic summary.
    pub fn output_minimal(&mut self)
        ensures
            final(self)@ == (ParamsView { verbosity: XtbOutputVerbosity::Minimal, ..old(self)@ }),
    {
        self.verbosity = XtbOutputVerbosity::Minimal;
    }

    /// Mutes the diagnostic output.
    pub fn output_muted(&mut self)
        ensures
            final(self)@ == (ParamsView { verbosity: XtbOutputVerbosity::Muted, ..old(self)@ }),
    {
        self.verbosity = XtbOutputVerbosity::Muted;
    }

    /// Selects the parametrisation to load.
    pub fn method(&mut self, method: XtbMethod)
        ensures
            final(self)@ == (ParamsView { method, ..old(self)@ }),
    {
        self.method = method;
    }

    /// Supplies a periodic boundary condition: the lattice basis and the
    /// per-axis periodicity flags, which always travel together.
    pub fn lattice(&mut self, lattice: Lattice)
        ensures
            final(self)@ == (ParamsView { lattice: Some(lattice), ..old(self)@ }),
    {
        self.lattice = Some(lattice);
    }
}

/// The configuration [`XtbParameters::default`] returns.
pub open spec fn default_params_view() -> ParamsView {
    ParamsView {
        uhf: 0,
        charge: Real { bits: 0 },
        verbosity: XtbOutputVerbosity::Muted,
        max_iterations: DEFAULT_MAX_ITERATIONS,
        electronic_temperature: Real { bits: DEFAULT_ELECTRONIC_TEMPERATURE_BITS },
        method: XtbMethod::GFN2xTB,
        lattice: None,
    }
}

/// The number of foreign calls model construction makes.
pub const CREATE_STEPS: usize = 9;

/// The call sequence that builds a model from a configuration: query
/// and check the API version, allocate the environment, set its
/// verbosity and check the status, create the molecule and check the
/// status, allocate the calculator, load the method and check the
/// status.  Every call that can fail is followed by a status query
/// before any further call.
pub open spec fn create_ops(p: ParamsView) -> Seq<EngineOp> {
    seq![
        EngineOp::QueryVersion,
        EngineOp::NewEnvironment,
        EngineOp::SetVerbosity { level: verbosity_level(p.verbosity) },
        EngineOp::QueryStatus,
        EngineOp::NewMolecule { charge: p.charge, uhf: p.uhf as i32, lattice: p.lattice },
        EngineOp::QueryStatus,
        EngineOp::NewCalculator,
        EngineOp::LoadMethod { method: p.method },
        EngineOp::QueryStatus,
    ]
}

/// The number of foreign calls one single-point evaluation makes.
pub const EVAL_STEPS: usize = 17;

/// The step of [`calculate_ops`] whose reply carries the energy.
pub const EVAL_STEP_ENERGY: usize = 10;

/// The step of [`calculate_ops`] whose reply carries the gradient.
pub const EVAL_STEP_GRADIENT: usize = 12;

/// The step of [`calculate_ops`] whose reply carries the dipole.
pub const EVAL_STEP_DIPOLE: usize = 14;

/// The call sequence of one single-point evaluation: push the current
/// geometry and check the status, reload the method and check the
/// status, re-push accuracy, electronic temperature and iteration cap
/// (best-effort calls the engine reports no status for), allocate a
/// fresh results handle, run the evaluation and check the status, then
/// extract energy, gradient and dipole — each followed by its own
/// status check — and free the results handle.  The configuration is
/// re-pushed on every evaluation so that nothing relies on the engine
/// retaining state between calls.
pub open spec fn calculate_ops(p: ParamsView) -> Seq<EngineOp> {
    seq![
        EngineOp::UpdateMolecule { lattice: None },
        EngineOp::QueryStatus,
        EngineOp::LoadMethod { method: p.method },
        EngineOp::QueryStatus,
        EngineOp::SetAccuracy { accuracy: Real { bits: ACCURACY_BITS } },
        EngineOp::SetElectronicTemperature { temperature: p.electronic_temperature },
        EngineOp::SetMaxIterations { count: p.max_iterations as i32 },
        EngineOp::NewResults,
        EngineOp::SinglePoint,
        EngineOp::QueryStatus,
        EngineOp::GetEnergy,
        EngineOp::QueryStatus,
        EngineOp::GetGradient,
        EngineOp::QueryStatus,
        EngineOp::GetDipole,
        EngineOp::QueryStatus,
        EngineOp::ReleaseResults,
    ]
}

/// Whether an operation can leave a failure on the engine's status
/// channel, so that the protocol must query the status right after it
/// and before any further call.  Allocations report nothing, and the
/// three numeric setters are best-effort by the engine's own design;
/// everything else can fail.
pub open spec fn needs_status_check(op: EngineOp) -> bool {
    match op {
        EngineOp::SetVerbosity { .. } => true,
        EngineOp::NewMolecule { .. } => true,
        EngineOp::UpdateMolecule { .. } => true,
        EngineOp::LoadMethod { .. } => true,
        EngineOp::SinglePoint => true,
        EngineOp::GetEnergy => true,
        EngineOp::GetGradient => true,
        EngineOp::GetDipole => true,
        _ => false,
    }
}

/// The error-propagation contract of model construction: every call of
/// the construction walk that can leave a failure on the status channel
/// is followed, immediately and before any further call, by a status
/// query.
pub proof fn lemma_create_checks_every_fallible_call(p: ParamsView)
    ensures
        forall|i: int|
            0 <= i < create_ops(p).len() && needs_status_check(#[trigger] create_ops(p)[i]) ==> i
                + 1 < create_ops(p).len() && create_ops(p)[i + 1] == EngineOp::QueryStatus,
{
    assert forall|i: int|
        0 <= i < create_ops(p).len() && needs_status_check(#[trigger] create_ops(p)[i]) implies i
        + 1 < create_ops(p).len() && create_ops(p)[i + 1] == EngineOp::QueryStatus by {
        assert(create_ops(p).len() == 9);
    }
}

/// The error-propagation contract of an evaluation: every call of the
/// evaluation walk that can leave a failure on the status channel is
/// followed, immediately and before any further call, by a status
/// query.
pub proof fn lemma_evaluation_checks_every_fallible_call(p: ParamsView)
    ensures
        forall|i: int|
            0 <= i < calculate_ops(p).len() && needs_status_check(#[trigger] calculate_ops(p)[i])
                ==> i + 1 < calculate_ops(p).len() && calculate_ops(p)[i + 1]
                == EngineOp::QueryStatus,
{
    assert forall|i: int|
        0 <= i < calculate_ops(p).len() && needs_status_check(
            #[trigger] calculate_ops(p)[i],
        ) implies i + 1 < calculate_ops(p).len() && calculate_ops(p)[i + 1]
        == EngineOp::QueryStatus by {
        assert(calculate_ops(p).len() == 17);
    }
}

/// Copies a coordinate buffer.
fn copy_reals(v: &Vec<Real>) -> (r: Vec<Real>)
    ensures
        r@ == v@,
{
    let mut r: Vec<Real> = Vec::new();
    let mut i: usize = 0;
    while i < v.len()
        invariant
            i <= v@.len(),
            r@.len() == i,
            forall|j: int| 0 <= j < i ==> r@[j] == v@[j],
        decreases v@.len() - i,
    {
        r.push(v[i]);
        i = i + 1;
    }
    proof {
        assert(r@ =~= v@);
    }
    r
}

/// The in-flight construction of an [`XtbModel`]: a walk through
/// [`create_ops`].  The embedder alternates [`ModelCreation::next_op`]
/// and [`ModelCreation::absorb`] until `next_op` returns nothing, then
/// calls [`ModelCreation::finish`].  The walk stops at the first reply
/// that reports a failure: once one is recorded, no further operation
/// is handed out.
#[derive(Debug)]
pub struct ModelCreation {
    params: XtbParameters,
    atom_types: Vec<i32>,
    coord: Vec<Real>,
    expected_version: u32,
    pos: usize,
    awaiting: bool,
    outcome: Option<XtbError>,
}

impl ModelCreation {
    /// The configuration the model is being built from.
    pub closed spec fn spec_params(self) -> ParamsView {
        self.params@
    }

    /// The atomic numbers, converted for the engine.
    pub closed spec fn spec_atom_types(self) -> Seq<i32> {
        self.atom_types@
    }

    /// The creation-time coordinates, three per atom.
    pub closed spec fn spec_coord(self) -> Seq<Real> {
        self.coord@
    }

    /// The number of atoms.
    pub closed spec fn spec_natoms(self) -> nat {
        self.atom_types@.len()
    }

    /// The API version the foreign bindings were compiled against.
    pub closed spec fn spec_expected_version(self) -> u32 {
        self.expected_version
    }

    /// How many operations have been absorbed.
    pub closed spec fn spec_pos(self) -> nat {
        self.pos as nat
    }

    /// Whether an operation has been handed out whose reply has not
    /// been absorbed yet.
    pub closed spec fn is_awaiting(self) -> bool {
        self.awaiting
    }

    /// The failure recorded so far, if any.
    pub closed spec fn spec_outcome(self) -> Option<XtbError> {
        self.outcome
    }

    /// Whether a failure has been recorded.
    pub open spec fn has_failed(self) -> bool {
        self.spec_outcome() is Some
    }

    /// What every reachable state of the walk satisfies.
    pub open spec fn wf(self) -> bool {
        &&& self.spec_params().wf()
        &&& self.spec_coord().len() == 3 * self.spec_natoms()
        &&& self.spec_pos() <= CREATE_STEPS
        &&& self.is_awaiting() ==> self.spec_pos() < CREATE_STEPS && !self.has_failed()
    }

    /// The next foreign call to perform, if the walk is neither
    /// finished nor stopped by a failure.  Hand the outcome of the call
    /// back through [`ModelCreation::absorb`] before asking again.
    pub fn next_op(&mut self) -> (r: Option<EngineOp>)
        requires
            old(self).wf(),
            !old(self).is_awaiting(),
        ensures
            final(self).wf(),
            final(self).spec_params() == old(self).spec_params(),
            final(self).spec_atom_types() == old(self).spec_atom_types(),
            final(self).spec_coord() == old(self).spec_coord(),
            final(self).spec_expected_version() == old(self).spec_expected_version(),
            final(self).spec_pos() == old(self).spec_pos(),
            final(self).spec_outcome() == old(self).spec_outcome(),
            r is Some <==> !old(self).has_failed() && old(self).spec_pos() < CREATE_STEPS,
            r matches Some(op) ==> op == create_ops(old(self).spec_params())[old(
                self,
            ).spec_pos() as int],
            r is Some <==> final(self).is_awaiting(),
    {
        if self.outcome.is_some() || self.pos >= CREATE_STEPS {
            return None;
        }
        self.awaiting = true;
        let op = match self.pos {
            0 => EngineOp::QueryVersion,
            1 => EngineOp::NewEnvironment,
            2 => EngineOp::SetVerbosity { level: verbosity_code(self.params.verbosity) },
            3 => EngineOp::QueryStatus,
            4 => EngineOp::NewMolecule {
                charge: self.params.charge,
                uhf: self.params.uhf as i32,
                lattice: self.params.lattice,
            },
            5 => EngineOp::QueryStatus,
            6 => EngineOp::NewCalculator,
            7 => EngineOp::LoadMethod { method: self.params.method },
            _ => EngineOp::QueryStatus,
        };
        Some(op)
    }

    /// Absorbs the outcome of the operation last handed out.  A status
    /// reply with a non-zero code records an engine error; a version
    /// reply that differs from the expected API version records a
    /// binary-incompatibility fault; every other reply records nothing.
    pub fn absorb(&mut self, reply: EngineReply)
        requires
            old(self).wf(),
            old(self).is_awaiting(),
            reply_fits(
                create_ops(old(self).spec_params())[old(self).spec_pos() as int],
                old(self).spec_natoms(),
                reply,
            ),
        ensures
            final(self).wf(),
            final(self).spec_params() == old(self).spec_params(),
            final(self).spec_atom_types() == old(self).spec_atom_types(),
            final(self).spec_coord() == old(self).spec_coord(),
            final(self).spec_expected_version() == old(self).spec_expected_version(),
            final(self).spec_pos() == old(self).spec_pos() + 1,
            !final(self).is_awaiting(),
            final(self).spec_outcome() == step_failure(reply, old(self).spec_expected_version()),
    {
        self.awaiting = false;
        self.pos = self.pos + 1;
        match reply {
            EngineReply::Status { code, message } => {
                if code != 0 {
                    self.outcome = Some(XtbError::Engine { code, message });
                }
            },
            EngineReply::Version { value } => {
                if value != self.expected_version {
                    self.outcome = Some(
                        XtbError::ApiVersionMismatch {
                            expected: self.expected_version,
                            actual: value,
                        },
                    );
                }
            },
            _ => {},
        }
    }

    /// Closes the walk.  If every reply was clean, the finished model
    /// owns its three live handles, the calculator has the configured
    /// method loaded, and the creation-time geometry is the model's
    /// current geometry; otherwise the recorded failure is returned and
    /// the embedder releases whatever handles it obtained.
    pub fn finish(self) -> (r: Result<XtbModel, XtbError>)
        requires
            self.wf(),
            !self.is_awaiting(),
            self.has_failed() || self.spec_pos() == CREATE_STEPS,
        ensures
            r is Ok <==> !self.has_failed(),
            r matches Ok(m) ==> {
                &&& m.wf()
                &&& m.is_ready()
                &&& m.handles_alive()
                &&& m.spec_params() == self.spec_params()
                &&& m.spec_atom_types() == self.spec_atom_types()
                &&& m.spec_coord() == self.spec_coord()
                &&& m.spec_natoms() == self.spec_natoms()
                &&& m.spec_dipole() is None
            },
            r matches Err(e) ==> self.spec_outcome() == Some(e),
    {
        let ModelCreation { params, atom_types, coord, outcome, .. } = self;
        match outcome {
            Some(e) => Err(e),
            None => {
                let natoms = atom_types.len();
                let periodic = params.lattice.is_some();
                let model = XtbModel {
                    env: XtbEnvironment::adopt(),
                    mol: XtbMolecule::adopt(natoms, periodic),
                    calc: XtbCalculator::adopt(params.method),
                    params,
                    atom_types,
                    coord,
                    dipole: None,
                    evaluating: false,
                };
                Ok(model)
            },
        }
    }
}

/// The last dipole moment an evaluation extracted, in e·Bohr.
#[derive(Clone, Copy, Debug, PartialEq, Eq, Structural)]
pub struct Dipole {
    /// The first component.
    pub x: Real,
    /// The second component.
    pub y: Real,
    /// The third component.
    pub z: Real,
}

/// The workflow façade: one environment, one molecule and one
/// calculator, re-used across any number of single-point evaluations so
/// that the setup cost is paid once.  The model keeps its own copy of
/// the current geometry; [`XtbModel::update_structure`] replaces the
/// copy, and each evaluation pushes it into the engine before
/// computing.
#[derive(Debug)]
pub struct XtbModel {
    params: XtbParameters,
    atom_types: Vec<i32>,
    coord: Vec<Real>,
    env: XtbEnvironment,
    mol: XtbMolecule,
    calc: XtbCalculator,
    dipole: Option<Dipole>,
    evaluating: bool,
}

impl XtbModel {
    /// The configuration the model was built from.
    pub closed spec fn spec_params(self) -> ParamsView {
        self.params@
    }

    /// The atomic numbers, converted for the engine.
    pub closed spec fn spec_atom_types(self) -> Seq<i32> {
        self.atom_types@
    }

    /// The model's current geometry, three coordinates per atom.
    pub closed spec fn spec_coord(self) -> Seq<Real> {
        self.coord@
    }

    /// The number of atoms.
    pub closed spec fn spec_natoms(self) -> nat {
        self.atom_types@.len()
    }

    /// The dipole cached by the last finished evaluation, if any.
    pub closed spec fn spec_dipole(self) -> Option<Dipole> {
        self.dipole
    }

    /// Whether no evaluation is in flight.  While one is, the model
    /// hands out no geometry update and starts no second evaluation:
    /// the engine's state must not be changed under a running
    /// computation.
    pub closed spec fn is_ready(self) -> bool {
        !self.evaluating
    }

    /// Whether the three handles the model owns are all still alive.
    /// They stay alive for the model's whole lifetime; the embedder
    /// releases each exactly once when the model is dropped.
    pub closed spec fn handles_alive(self) -> bool {
        &&& self.env.is_alive()
        &&& self.mol.is_alive()
        &&& self.calc.is_alive()
    }

    /// What every reachable model satisfies: a well-formed
    /// configuration, three coordinates per atom, a molecule shadow
    /// sized for the atoms, a calculator with a method loaded, and all
    /// three handles alive.
    pub open spec fn wf(self) -> bool {
        &&& self.spec_params().wf()
        &&& self.spec_coord().len() == 3 * self.spec_natoms()
        &&& self.mol_natoms() == self.spec_natoms()
        &&& self.method_loaded()
        &&& self.handles_alive()
    }

    /// The atom count the molecule handle was created with.
    pub closed spec fn mol_natoms(self) -> nat {
        self.mol.spec_natoms()
    }

    /// Whether the calculator has a method loaded.
    pub closed spec fn method_loaded(self) -> bool {
        self.calc.spec_method() is Some
    }

    /// Opens the construction of a model for the atoms in `atom_types`
    /// (as atomic numbers) at the positions in `coord` (three values
    /// per atom, in Bohr), under the given configuration — the defaults
    /// if none is given.  `expected_api_version` is the engine API
    /// version the embedder's foreign bindings were compiled against;
    /// construction fails if the engine reports a different one.
    ///
    /// The dimensions are validated here, before any foreign call: if
    /// the coordinate array does not hold three values per atom, the
    /// configuration error is returned and no walk is opened.
    pub fn create(
        atom_types: &Vec<usize>,
        coord: &Vec<Real>,
        params: Option<XtbParameters>,
        expected_api_version: u32,
    ) -> (r: Result<ModelCreation, XtbError>)
        requires
            forall|i: int| 0 <= i < atom_types@.len() ==> atom_types@[i] <= i32::MAX,
            params matches Some(p) ==> p@.wf(),
        ensures
            r is Ok <==> coord@.len() == 3 * atom_types@.len(),
            r matches Ok(s) ==> {
                &&& s.wf()
                &&& s.spec_pos() == 0
                &&& !s.is_awaiting()
                &&& !s.has_failed()
                &&& s.spec_params() == (match params {
                    Some(p) => p@,
                    None => default_params_view(),
                })
                &&& s.spec_natoms() == atom_types@.len()
                &&& forall|i: int|
                    0 <= i < atom_types@.len() ==> s.spec_atom_types()[i] == atom_types@[i] as i32
                &&& s.spec_coord() == coord@
                &&& s.spec_expected_version() == expected_api_version
            },
            r matches Err(e) ==> e == (XtbError::DimensionMismatch {
                atoms: atom_types.len(),
                coords: coord.len(),
            }),
    {
        let na = atom_types.len();
        let nc = coord.len();
        if !(na <= usize::MAX / 3 && nc == 3 * na) {
            return Err(XtbError::DimensionMismatch { atoms: na, coords: nc });
        }
        let params = match params {
            Some(p) => p,
            None => XtbParameters::default(),
        };
        let mut attyp: Vec<i32> = Vec::new();
        let mut i: usize = 0;
        while i < na
            invariant
                i <= na,
                na == atom_types@.len(),
                attyp@.len() == i,
                forall|i_at: int| 0 <= i_at < na ==> atom_types@[i_at] <= i32::MAX,
                forall|j: int| 0 <= j < i ==> attyp@[j] == atom_types@[j] as i32,
            decreases na - i,
        {
            attyp.push(atom_types[i] as i32);
            i = i + 1;
        }
        Ok(
            ModelCreation {
                params,
                atom_types: attyp,
                coord: copy_reals(coord),
                expected_version: expected_api_version,
                pos: 0,
                awaiting: false,
                outcome: None,
            },
        )
    }

    /// The model's current geometry, three coordinates per atom, in
    /// Bohr.  This is the buffer the next evaluation pushes into the
    /// engine.
    pub fn coordinates(&self) -> (r: &Vec<Real>)
        ensures
            r@ == self.spec_coord(),
    {
        &self.coord
    }

    /// The atomic numbers, in the engine's integer form.
    pub fn atom_numbers(&self) -> (r: &Vec<i32>)
        ensures
            r@ == self.spec_atom_types(),
    {
        &self.atom_types
    }

    /// Replaces the model's copy of the geometry.  The replacement must
    /// be same-size: three values per atom.  Replacing the lattice of
    /// an already-constructed structure is not supported by the call
    /// sequence this layer drives and is rejected explicitly.
    pub fn update_structure(&mut self, positions: &Vec<Real>, lattice: Option<Lattice>) -> (r:
        Result<(), XtbError>)
        requires
            old(self).wf(),
            old(self).is_ready(),
        ensures
            final(self).wf(),
            final(self).is_ready(),
            final(self).spec_params() == old(self).spec_params(),
            final(self).spec_atom_types() == old(self).spec_atom_types(),
            final(self).spec_dipole() == old(self).spec_dipole(),
            r is Ok <==> positions@.len() == old(self).spec_coord().len() && lattice is None,
            r is Ok ==> final(self).spec_coord() == positions@,
            r is Err ==> final(self).spec_coord() == old(self).spec_coord(),
            r matches Err(e) ==> e == (if positions@.len() != old(self).spec_coord().len() {
                XtbError::DimensionMismatch {
                    atoms: old(self).spec_natoms() as usize,
                    coords: positions@.len() as usize,
                }
            } else {
                XtbError::LatticeUpdateUnsupported
            }),
    {
        if positions.len() != self.coord.len() {
            return Err(
                XtbError::DimensionMismatch {
                    atoms: self.atom_types.len(),
                    coords: positions.len(),
                },
            );
        }
        if lattice.is_some() {
            return Err(XtbError::LatticeUpdateUnsupported);
        }
        self.coord = copy_reals(positions);
        Ok(())
    }

    /// The dipole moment the last finished evaluation extracted, or
    /// nothing if no evaluation has finished yet.
    pub fn get_dipole(&self) -> (r: Option<Dipole>)
        ensures
            r == self.spec_dipole(),
    {
        self.dipole
    }

    /// Opens one single-point evaluation of the model's current
    /// geometry: a walk through [`calculate_ops`].  The embedder
    /// alternates [`Evaluation::next_op`] and [`Evaluation::absorb`]
    /// until `next_op` returns nothing, then hands the walk back
    /// through [`XtbModel::finish_evaluation`].  Until it does, the
    /// model starts no second evaluation and accepts no geometry
    /// update.
    pub fn calculate_energy_and_gradient(&mut self) -> (ev: Evaluation)
        requires
            old(self).wf(),
            old(self).is_ready(),
        ensures
            final(self).wf(),
            !final(self).is_ready(),
            final(self).spec_params() == old(self).spec_params(),
            final(self).spec_atom_types() == old(self).spec_atom_types(),
            final(self).spec_coord() == old(self).spec_coord(),
            final(self).spec_dipole() == old(self).spec_dipole(),
            ev.wf(),
            ev.spec_pos() == 0,
            !ev.is_awaiting(),
            !ev.has_failed(),
            ev.spec_params() == old(self).spec_params(),
            ev.spec_natoms() == old(self).spec_natoms(),
            ev.spec_energy() is None,
            ev.spec_gradient() is None,
            ev.spec_dipole() is None,
    {
        self.evaluating = true;
        Evaluation {
            params: self.params,
            natoms: self.atom_types.len(),
            pos: 0,
            awaiting: false,
            outcome: None,
            energy: None,
            gradient: None,
            dipole: None,
            res: None,
        }
    }

    /// Closes an evaluation walk.  If every reply was clean, the
    /// energy the engine reported is returned, the gradient it
    /// reported replaces `gradient` (three values per atom), and the
    /// dipole it reported is cached for [`XtbModel::get_dipole`];
    /// otherwise the first recorded failure is returned and the
    /// model's cached dipole and the caller's buffer are left as they
    /// were.  Either way the model is ready for the next geometry
    /// update or evaluation.
    pub fn finish_evaluation(&mut self, ev: Evaluation, gradient: &mut Vec<Real>) -> (r: Result<
        Real,
        XtbError,
    >)
        requires
            old(self).wf(),
            !old(self).is_ready(),
            ev.wf(),
            !ev.is_awaiting(),
            ev.has_failed() || ev.spec_pos() == EVAL_STEPS,
            ev.spec_natoms() == old(self).spec_natoms(),
        ensures
            final(self).wf(),
            final(self).is_ready(),
            final(self).spec_params() == old(self).spec_params(),
            final(self).spec_atom_types() == old(self).spec_atom_types(),
            final(self).spec_coord() == old(self).spec_coord(),
            r is Ok <==> !ev.has_failed(),
            r matches Ok(energy) ==> {
                &&& ev.spec_energy() == Some(energy)
                &&& ev.spec_gradient() == Some(final(gradient)@)
                &&& final(gradient)@.len() == 3 * old(self).spec_natoms()
                &&& final(self).spec_dipole() == ev.spec_dipole()
                &&& final(self).spec_dipole() is Some
            },
            r matches Err(e) ==> {
                &&& ev.spec_outcome() == Some(e)
                &&& *final(gradient) == *old(gradient)
                &&& final(self).spec_dipole() == old(self).spec_dipole()
            },
    {
        self.evaluating = false;
        let Evaluation { outcome, energy, gradient: g, dipole, .. } = ev;
        match outcome {
            Some(e) => Err(e),
            None => {
                let energy = energy.unwrap();
                *gradient = g.unwrap();
                self.dipole = dipole;
                Ok(energy)
            },
        }
    }
}

/// One in-flight single-point evaluation: a walk through
/// [`calculate_ops`], absorbing the engine's replies and collecting
/// energy, gradient and dipole on the way.  The walk stops at the
/// first reply that reports a failure: once one is recorded, no
/// further operation is handed out.
#[derive(Debug)]
pub struct Evaluation {
    params: XtbParameters,
    natoms: usize,
    pos: usize,
    awaiting: bool,
    outcome: Option<XtbError>,
    energy: Option<Real>,
    gradient: Option<Vec<Real>>,
    dipole: Option<Dipole>,
    res: Option<XtbResults>,
}

impl Evaluation {
    /// The configuration this evaluation re-pushes into the engine.
    pub closed spec fn spec_params(self) -> ParamsView {
        self.params@
    }

    /// The number of atoms of the model the evaluation runs on.
    pub closed spec fn spec_natoms(self) -> nat {
        self.natoms as nat
    }

    /// How many operations have been absorbed.
    pub closed spec fn spec_pos(self) -> nat {
        self.pos as nat
    }

    /// Whether an operation has been handed out whose reply has not
    /// been absorbed yet.
    pub closed spec fn is_awaiting(self) -> bool {
        self.awaiting
    }

    /// The failure recorded so far, if any.
    pub closed spec fn spec_outcome(self) -> Option<XtbError> {
        self.outcome
    }

    /// Whether a failure has been recorded.
    pub open spec fn has_failed(self) -> bool {
        self.spec_outcome() is Some
    }

    /// The energy reply collected so far, if the walk has passed the
    /// energy extraction.
    pub closed spec fn spec_energy(self) -> Option<Real> {
        self.energy
    }

    /// The gradient reply collected so far, if the walk has passed the
    /// gradient extraction.
    pub closed spec fn spec_gradient(self) -> Option<Seq<Real>> {
        match self.gradient {
            Some(g) => Some(g@),
            None => None,
        }
    }

    /// The dipole reply collected so far, if the walk has passed the
    /// dipole extraction.
    pub closed spec fn spec_dipole(self) -> Option<Dipole> {
        self.dipole
    }

    /// Whether the results handle of this evaluation is currently
    /// alive.  It is allocated mid-walk, read, and freed again by the
    /// walk's last operation: results are not retained across
    /// evaluations, only the extracted values are.
    pub closed spec fn results_alive(self) -> bool {
        self.res matches Some(r) && r.is_alive()
    }

    /// What every reachable state of the walk satisfies; in
    /// particular, once the walk has passed an extraction cleanly, the
    /// extracted value is at hand, correctly sized.
    pub open spec fn wf(self) -> bool {
        &&& self.spec_params().wf()
        &&& self.spec_pos() <= EVAL_STEPS
        &&& self.is_awaiting() ==> self.spec_pos() < EVAL_STEPS && !self.has_failed()
        &&& (self.spec_pos() > EVAL_STEP_ENERGY && !self.has_failed())
            ==> self.spec_energy() is Some
        &&& (self.spec_pos() > EVAL_STEP_GRADIENT && !self.has_failed()) ==> (
        self.spec_gradient() matches Some(g) && g.len() == 3 * self.spec_natoms())
        &&& (self.spec_pos() > EVAL_STEP_DIPOLE && !self.has_failed())
            ==> self.spec_dipole() is Some
    }

    /// The next foreign call to perform, if the walk is neither
    /// finished nor stopped by a failure.  Hand the outcome of the
    /// call back through [`Evaluation::absorb`] before asking again.
    pub fn next_op(&mut self) -> (r: Option<EngineOp>)
        requires
            old(self).wf(),
            !old(self).is_awaiting(),
        ensures
            final(self).wf(),
            final(self).spec_params() == old(self).spec_params(),
            final(self).spec_natoms() == old(self).spec_natoms(),
            final(self).spec_pos() == old(self).spec_pos(),
            final(self).spec_outcome() == old(self).spec_outcome(),
            final(self).spec_energy() == old(self).spec_energy(),
            final(self).spec_gradient() == old(self).spec_gradient(),
            final(self).spec_dipole() == old(self).spec_dipole(),
            final(self).results_alive() == old(self).results_alive(),
            r is Some <==> !old(self).has_failed() && old(self).spec_pos() < EVAL_STEPS,
            r matches Some(op) ==> op == calculate_ops(old(self).spec_params())[old(
                self,
            ).spec_pos() as int],
            r is Some <==> final(self).is_awaiting(),
    {
        if self.outcome.is_some() || self.pos >= EVAL_STEPS {
            return None;
        }
        self.awaiting = true;
        let op = match self.pos {
            0 => EngineOp::UpdateMolecule { lattice: None },
            1 => EngineOp::QueryStatus,
            2 => EngineOp::LoadMethod { method: self.params.method },
            3 => EngineOp::QueryStatus,
            4 => EngineOp::SetAccuracy { accuracy: Real { bits: ACCURACY_BITS } },
            5 => EngineOp::SetElectronicTemperature {
                temperature: self.params.electronic_temperature,
            },
            6 => EngineOp::SetMaxIterations { count: self.params.max_iterations as i32 },
            7 => EngineOp::NewResults,
            8 => EngineOp::SinglePoint,
            9 => EngineOp::QueryStatus,
            10 => EngineOp::GetEnergy,
            11 => EngineOp::QueryStatus,
            12 => EngineOp::GetGradient,
            13 => EngineOp::QueryStatus,
            14 => EngineOp::GetDipole,
            15 => EngineOp::QueryStatus,
            _ => EngineOp::ReleaseResults,
        };
        Some(op)
    }

    /// Absorbs the outcome of the operation last handed out.  A status
    /// reply with a non-zero code records an engine error; the energy,
    /// gradient and dipole replies are collected; the reply to the
    /// allocation of the results handle brings its shadow to life, and
    /// the reply to its release retires it.
    pub fn absorb(&mut self, reply: EngineReply)
        requires
            old(self).wf(),
            old(self).is_awaiting(),
            reply_fits(
                calculate_ops(old(self).spec_params())[old(self).spec_pos() as int],
                old(self).spec_natoms(),
                reply,
            ),
        ensures
            final(self).wf(),
            final(self).spec_params() == old(self).spec_params(),
            final(self).spec_natoms() == old(self).spec_natoms(),
            final(self).spec_pos() == old(self).spec_pos() + 1,
            !final(self).is_awaiting(),
            final(self).spec_outcome() == status_failure(reply),
            final(self).spec_energy() == (if old(self).spec_pos() == EVAL_STEP_ENERGY {
                spec_scalar_of(reply)
            } else {
                old(self).spec_energy()
            }),
            final(self).spec_gradient() == (if old(self).spec_pos() == EVAL_STEP_GRADIENT {
                spec_vector_of(reply)
            } else {
                old(self).spec_gradient()
            }),
            final(self).spec_dipole() == (if old(self).spec_pos() == EVAL_STEP_DIPOLE {
                spec_dipole_of(reply)
            } else {
                old(self).spec_dipole()
            }),
            old(self).spec_pos() == 7 ==> final(self).results_alive(),
            old(self).spec_pos() == EVAL_STEPS - 1 ==> !final(self).results_alive(),
    {
        let step = self.pos;
        self.awaiting = false;
        self.pos = self.pos + 1;
        if step == 7 {
            self.res = Some(XtbResults::adopt(self.natoms));
        }
        if step == EVAL_STEPS - 1 {
            match &mut self.res {
                Some(r) => {
                    let _ = r.release();
                },
                None => {},
            }
        }
        match reply {
            EngineReply::Status { code, message } => {
                if code != 0 {
                    self.outcome = Some(XtbError::Engine { code, message });
                }
            },
            EngineReply::Scalar { value } => {
                if step == EVAL_STEP_ENERGY {
                    self.energy = Some(value);
                }
            },
            EngineReply::Vector { values } => {
                if step == EVAL_STEP_GRADIENT {
                    self.gradient = Some(values);
                } else if step == EVAL_STEP_DIPOLE {
                    let x = values[0];
                    let y = values[1];
                    let z = values[2];
                    self.dipole = Some(Dipole { x, y, z });
                }
            },
            _ => {},
        }
    }
}

/// The failure, if any, that one absorbed reply reports during an
/// evaluation: a non-zero status becomes an engine error carrying the
/// code and the drained message; every other reply reports nothing.
pub open spec fn status_failure(reply: EngineReply) -> Option<XtbError> {
    match reply {
        EngineReply::Status { code, message } => if code != 0 {
            Some(XtbError::Engine { code, message })
        } else {
            None
        },
        _ => None,
    }
}

/// The scalar a reply carries, if it carries one.
pub open spec fn spec_scalar_of(reply: EngineReply) -> Option<Real> {
    match reply {
        EngineReply::Scalar { value } => Some(value),
        _ => None,
    }
}

/// The buffer a reply carries, if it carries one.
pub open spec fn spec_vector_of(reply: EngineReply) -> Option<Seq<Real>> {
    match reply {
        EngineReply::Vector { values } => Some(values@),
        _ => None,
    }
}

/// The three-component buffer a reply carries, as a dipole, if it
/// carries one of length three.
pub open spec fn spec_dipole_of(reply: EngineReply) -> Option<Dipole> {
    match reply {
        EngineReply::Vector { values } => if values@.len() == 3 {
            Some(Dipole { x: values@[0], y: values@[1], z: values@[2] })
        } else {
            None
        },
        _ => None,
    }
}

/// Repeating an evaluation changes nothing about what the engine is
/// asked to do: the call sequence of a single-point evaluation is a
/// function of the configuration alone, so two models with the same
/// configuration — in particular, one model evaluated twice without a
/// geometry or method change in between — drive the engine through the
/// identical calls on the identical data.  Whether the engine then
/// reproduces its numbers is the engine's own affair; this layer
/// guarantees that it is presented with the same problem.
pub proof fn lemma_repeat_evaluation_same_ops(first: XtbModel, second: XtbModel)
    requires
        first.spec_params() == second.spec_params(),
        first.spec_coord() == second.spec_coord(),
    ensures
        calculate_ops(first.spec_params()) == calculate_ops(second.spec_params()),
        first.spec_coord() == second.spec_coord(),
{
}

} // verus!
