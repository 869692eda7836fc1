//! The high-level workflow, driven against a scripted stand-in for the
//! engine: the exact call sequences of model construction and
//! single-point evaluation, the stop at the first reported failure,
//! and the untouched pass-through of the values the engine reports.

use xtb_model::Dipole;
use xtb_model::EngineOp;
use xtb_model::EngineReply;
use xtb_model::Lattice;
use xtb_model::ModelCreation;
use xtb_model::Real;
use xtb_model::XtbError;
use xtb_model::XtbMethod;
use xtb_model::XtbModel;
use xtb_model::XtbParameters;

/// The API version the scripted engine of these tests reports.
const API_VERSION: u32 = 10001;

/// Three carbons and four hydrogens (an allene-like fixture), in Bohr.
const ATOM_COORDS: [f64; 21] = [
    0.00000000000000,
    0.00000000000000,
    -1.79755622305860,
    0.00000000000000,
    0.00000000000000,
    0.95338756106749,
    0.00000000000000,
    0.00000000000000,
    3.22281255790261,
    -0.96412815539807,
    -1.66991895015711,
    -2.53624948351102,
    -0.96412815539807,
    1.66991895015711,
    -2.53624948351102,
    1.92825631079613,
    0.00000000000000,
    -2.53624948351102,
    0.00000000000000,
    0.00000000000000,
    5.23010455462158,
];

const ATOM_TYPES: [usize; 7] = [6, 6, 6, 1, 1, 1, 1];

fn reals(values: &[f64]) -> Vec<Real> {
    values.iter().map(|v| Real { bits: v.to_bits() }).collect()
}

/// What the scripted engine should answer during one evaluation.
struct Scripted {
    energy: f64,
    gradient: Vec<f64>,
    dipole: [f64; 3],
    /// Status code to report right after the compute call (zero for a
    /// clean run).
    single_point_status: i32,
}

/// Walks a creation to its end, answering every status query with
/// success, and collects the operations handed out.
fn run_creation(
    mut creation: ModelCreation,
    version: u32,
) -> (Vec<EngineOp>, Result<XtbModel, XtbError>) {
    let mut ops: Vec<EngineOp> = Vec::new();
    while let Some(op) = creation.next_op() {
        ops.push(op);
        let reply = match op {
            EngineOp::QueryVersion => EngineReply::Version { value: version },
            EngineOp::QueryStatus => EngineReply::Status { code: 0, message: String::new() },
            _ => EngineReply::Done,
        };
        creation.absorb(reply);
    }
    (ops, creation.finish())
}

/// Walks one evaluation of `model` against the scripted answers and
/// collects the operations handed out.
fn run_evaluation(
    model: &mut XtbModel,
    script: &Scripted,
    gradient_out: &mut Vec<Real>,
) -> (Vec<EngineOp>, Result<Real, XtbError>) {
    let mut ev = model.calculate_energy_and_gradient();
    let mut ops: Vec<EngineOp> = Vec::new();
    let mut after_single_point = false;
    while let Some(op) = ev.next_op() {
        ops.push(op);
        let reply = match op {
            EngineOp::QueryStatus => {
                if after_single_point {
                    after_single_point = false;
                    if script.single_point_status != 0 {
                        EngineReply::Status {
                            code: script.single_point_status,
                            message: String::from("periodic multipoles unavailable"),
                        }
                    } else {
                        EngineReply::Status { code: 0, message: String::new() }
                    }
                } else {
                    EngineReply::Status { code: 0, message: String::new() }
                }
            },
            EngineOp::SinglePoint => {
                after_single_point = true;
                EngineReply::Done
            },
            EngineOp::GetEnergy => EngineReply::Scalar {
                value: Real { bits: script.energy.to_bits() },
            },
            EngineOp::GetGradient => EngineReply::Vector { values: reals(&script.gradient) },
            EngineOp::GetDipole => EngineReply::Vector { values: reals(&script.dipole) },
            _ => EngineReply::Done,
        };
        ev.absorb(reply);
    }
    (ops, model.finish_evaluation(ev, gradient_out))
}

#[test]
fn test_create_emits_protocol_in_order() {
    let creation =
        XtbModel::create(&ATOM_TYPES.to_vec(), &reals(&ATOM_COORDS), None, API_VERSION).unwrap();
    let (ops, model) = run_creation(creation, API_VERSION);
    assert_eq!(
        ops,
        vec![
            EngineOp::QueryVersion,
            EngineOp::NewEnvironment,
            EngineOp::SetVerbosity { level: 0 },
            EngineOp::QueryStatus,
            EngineOp::NewMolecule {
                charge: Real { bits: 0.0f64.to_bits() },
                uhf: 0,
                lattice: None,
            },
            EngineOp::QueryStatus,
            EngineOp::NewCalculator,
            EngineOp::LoadMethod { method: XtbMethod::GFN2xTB },
            EngineOp::QueryStatus,
        ]
    );
    assert!(model.is_ok());
}

#[test]
fn test_create_dimension_mismatch_before_any_call() {
    let atoms: Vec<usize> = vec![6, 1, 1];
    let coord: Vec<Real> = reals(&[0.0; 8]);
    let err = XtbModel::create(&atoms, &coord, None, API_VERSION).unwrap_err();
    assert_eq!(err, XtbError::DimensionMismatch { atoms: 3, coords: 8 });
    assert!(err.is_configuration());
}

#[test]
fn test_create_version_mismatch_stops_walk() {
    let mut creation =
        XtbModel::create(&ATOM_TYPES.to_vec(), &reals(&ATOM_COORDS), None, API_VERSION).unwrap();
    let op = creation.next_op().unwrap();
    assert_eq!(op, EngineOp::QueryVersion);
    creation.absorb(EngineReply::Version { value: API_VERSION + 99 });
    // The walk hands out nothing further once the fault is recorded.
    assert_eq!(creation.next_op(), None);
    let err = creation.finish().unwrap_err();
    assert_eq!(
        err,
        XtbError::ApiVersionMismatch { expected: API_VERSION, actual: API_VERSION + 99 }
    );
}

#[test]
fn test_create_engine_failure_stops_walk() {
    let mut creation =
        XtbModel::create(&ATOM_TYPES.to_vec(), &reals(&ATOM_COORDS), None, API_VERSION).unwrap();
    let mut ops: Vec<EngineOp> = Vec::new();
    while let Some(op) = creation.next_op() {
        ops.push(op);
        let reply = match op {
            EngineOp::QueryVersion => EngineReply::Version { value: API_VERSION },
            EngineOp::QueryStatus => {
                if ops.contains(&EngineOp::NewMolecule {
                    charge: Real { bits: 0 },
                    uhf: 0,
                    lattice: None,
                }) {
                    EngineReply::Status { code: 3, message: String::from("bad structure") }
                } else {
                    EngineReply::Status { code: 0, message: String::new() }
                }
            },
            _ => EngineReply::Done,
        };
        creation.absorb(reply);
    }
    // The walk ends right after the status that follows the molecule
    // creation: the calculator is never allocated.
    assert_eq!(ops.len(), 6);
    assert!(!ops.contains(&EngineOp::NewCalculator));
    let err = creation.finish().unwrap_err();
    assert_eq!(err, XtbError::Engine { code: 3, message: String::from("bad structure") });
}

#[test]
fn test_evaluation_passes_values_through() {
    let creation =
        XtbModel::create(&ATOM_TYPES.to_vec(), &reals(&ATOM_COORDS), None, API_VERSION).unwrap();
    let (_, model) = run_creation(creation, API_VERSION);
    let mut model = model.unwrap();

    let energy = -8.3824793849585;
    let dipole = [0.0, 0.0, -0.298279305689518];
    let gradient: Vec<f64> = (0..21).map(|i| i as f64 * 1.0e-3).collect();
    let script = Scripted {
        energy,
        gradient: gradient.clone(),
        dipole,
        single_point_status: 0,
    };
    let mut gradient_out: Vec<Real> = Vec::new();
    let (ops, result) = run_evaluation(&mut model, &script, &mut gradient_out);

    assert_eq!(
        ops,
        vec![
            EngineOp::UpdateMolecule { lattice: None },
            EngineOp::QueryStatus,
            EngineOp::LoadMethod { method: XtbMethod::GFN2xTB },
            EngineOp::QueryStatus,
            EngineOp::SetAccuracy { accuracy: Real { bits: 1.0f64.to_bits() } },
            EngineOp::SetElectronicTemperature {
                temperature: Real { bits: 300.0f64.to_bits() },
            },
            EngineOp::SetMaxIterations { count: 250 },
            EngineOp::NewResults,
            EngineOp::SinglePoint,
            EngineOp::QueryStatus,
            EngineOp::GetEnergy,
            EngineOp::QueryStatus,
            EngineOp::GetGradient,
            EngineOp::QueryStatus,
            EngineOp::GetDipole,
            EngineOp::QueryStatus,
            EngineOp::ReleaseResults,
        ]
    );
    // The energy, gradient and dipole come back exactly as the engine
    // reported them, bit for bit.
    assert_eq!(result.unwrap(), Real { bits: energy.to_bits() });
    assert_eq!(gradient_out, reals(&gradient));
    let d = model.get_dipole().unwrap();
    assert_eq!(d.z, Real { bits: dipole[2].to_bits() });
}

#[test]
fn test_method_change_reaches_the_engine() {
    let mut params = XtbParameters::default();
    params.method(XtbMethod::parse("GFN1-xTB").unwrap());
    let creation = XtbModel::create(
        &ATOM_TYPES.to_vec(),
        &reals(&ATOM_COORDS),
        Some(params),
        API_VERSION,
    )
    .unwrap();
    let (ops, model) = run_creation(creation, API_VERSION);
    assert!(ops.contains(&EngineOp::LoadMethod { method: XtbMethod::GFN1xTB }));
    let mut model = model.unwrap();

    let energy = -8.424757953815186;
    let script = Scripted {
        energy,
        gradient: vec![0.0; 21],
        dipole: [0.0; 3],
        single_point_status: 0,
    };
    let mut gradient_out: Vec<Real> = Vec::new();
    let (ops, result) = run_evaluation(&mut model, &script, &mut gradient_out);
    assert!(ops.contains(&EngineOp::LoadMethod { method: XtbMethod::GFN1xTB }));
    assert_eq!(result.unwrap(), Real { bits: energy.to_bits() });
}

#[test]
fn test_repeated_evaluation_drives_identical_calls() {
    let creation =
        XtbModel::create(&ATOM_TYPES.to_vec(), &reals(&ATOM_COORDS), None, API_VERSION).unwrap();
    let (_, model) = run_creation(creation, API_VERSION);
    let mut model = model.unwrap();
    let script = Scripted {
        energy: -8.3824793849585,
        gradient: vec![0.0; 21],
        dipole: [0.0; 3],
        single_point_status: 0,
    };
    let mut g1: Vec<Real> = Vec::new();
    let mut g2: Vec<Real> = Vec::new();
    let (ops1, r1) = run_evaluation(&mut model, &script, &mut g1);
    let coords_before: Vec<Real> = model.coordinates().clone();
    let (ops2, r2) = run_evaluation(&mut model, &script, &mut g2);
    assert_eq!(ops1, ops2);
    assert_eq!(model.coordinates(), &coords_before);
    assert_eq!(r1.unwrap(), r2.unwrap());
    assert_eq!(g1, g2);
}

#[test]
fn test_parameters_reach_the_engine() {
    let mut params = XtbParameters::default();
    params.charge(Real { bits: (-1.0f64).to_bits() });
    params.unpaired_electrons(2);
    params.electronic_temperature(Real { bits: 4000.0f64.to_bits() });
    params.max_iterations(70);
    params.output_verbose();
    let creation = XtbModel::create(
        &ATOM_TYPES.to_vec(),
        &reals(&ATOM_COORDS),
        Some(params),
        API_VERSION,
    )
    .unwrap();
    let (ops, model) = run_creation(creation, API_VERSION);
    assert!(ops.contains(&EngineOp::SetVerbosity { level: 2 }));
    assert!(ops.contains(&EngineOp::NewMolecule {
        charge: Real { bits: (-1.0f64).to_bits() },
        uhf: 2,
        lattice: None,
    }));
    let mut model = model.unwrap();
    let script = Scripted {
        energy: 0.0,
        gradient: vec![0.0; 21],
        dipole: [0.0; 3],
        single_point_status: 0,
    };
    let mut gradient_out: Vec<Real> = Vec::new();
    let (ops, _) = run_evaluation(&mut model, &script, &mut gradient_out);
    assert!(ops.contains(&EngineOp::SetElectronicTemperature {
        temperature: Real { bits: 4000.0f64.to_bits() },
    }));
    assert!(ops.contains(&EngineOp::SetMaxIterations { count: 70 }));
}

#[test]
fn test_update_structure_replaces_geometry() {
    let creation =
        XtbModel::create(&ATOM_TYPES.to_vec(), &reals(&ATOM_COORDS), None, API_VERSION).unwrap();
    let (_, model) = run_creation(creation, API_VERSION);
    let mut model = model.unwrap();

    let moved: Vec<f64> = ATOM_COORDS.iter().map(|c| c + 0.25).collect();
    assert_eq!(model.update_structure(&reals(&moved), None), Ok(()));
    assert_eq!(model.coordinates(), &reals(&moved));

    // A same-size rule: replacing with the wrong number of values is a
    // configuration error and changes nothing.
    let err = model.update_structure(&reals(&[0.0; 6]), None).unwrap_err();
    assert_eq!(err, XtbError::DimensionMismatch { atoms: 7, coords: 6 });
    assert_eq!(model.coordinates(), &reals(&moved));
}

#[test]
fn test_update_structure_rejects_lattice_change() {
    let creation =
        XtbModel::create(&ATOM_TYPES.to_vec(), &reals(&ATOM_COORDS), None, API_VERSION).unwrap();
    let (_, model) = run_creation(creation, API_VERSION);
    let mut model = model.unwrap();
    let lattice = Lattice {
        cells: [Real { bits: 10.0f64.to_bits() }; 9],
        periodic: [true; 3],
    };
    let err = model
        .update_structure(&reals(&ATOM_COORDS), Some(lattice))
        .unwrap_err();
    assert_eq!(err, XtbError::LatticeUpdateUnsupported);
}

#[test]
fn test_dipole_absent_before_first_evaluation() {
    let creation =
        XtbModel::create(&ATOM_TYPES.to_vec(), &reals(&ATOM_COORDS), None, API_VERSION).unwrap();
    let (_, model) = run_creation(creation, API_VERSION);
    let model = model.unwrap();
    assert_eq!(model.get_dipole(), None::<Dipole>);
}
