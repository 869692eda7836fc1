//! The low-level handle shadows: the operations they describe, the
//! status translation, and the single-release discipline — each of the
//! four handle kinds reports "free the resource" exactly once, so a
//! second destruction never double-releases.

use xtb_model::EngineOp;
use xtb_model::Real;
use xtb_model::XtbCalculator;
use xtb_model::XtbEnvironment;
use xtb_model::XtbError;
use xtb_model::XtbMethod;
use xtb_model::XtbMolecule;

fn small_molecule(env: &XtbEnvironment) -> XtbMolecule {
    let attyp: Vec<i32> = vec![8, 1, 1];
    let coord: Vec<Real> = (0..9).map(|i| Real { bits: (i as f64 * 0.5).to_bits() }).collect();
    let (mol, _op) = XtbMolecule::create(env, &attyp, &coord, Real { bits: 0 }, 0, None)
        .unwrap();
    mol
}

#[test]
fn test_environment_release_is_idempotent() {
    let (mut env, op) = XtbEnvironment::new();
    assert_eq!(op, EngineOp::NewEnvironment);
    assert!(env.release());
    assert!(!env.release());
    assert!(!env.release());
}

#[test]
fn test_molecule_release_is_idempotent() {
    let (env, _op) = XtbEnvironment::new();
    let mut mol = small_molecule(&env);
    assert!(mol.release());
    assert!(!mol.release());
}

#[test]
fn test_calculator_release_is_idempotent() {
    let (mut calc, op) = XtbCalculator::new();
    assert_eq!(op, EngineOp::NewCalculator);
    assert!(calc.release());
    assert!(!calc.release());
}

#[test]
fn test_results_release_is_idempotent() {
    let (env, _) = XtbEnvironment::new();
    let mol = small_molecule(&env);
    let (mut calc, _) = XtbCalculator::new();
    let load = calc.set_method(&mol, &env, XtbMethod::GFN2xTB);
    assert_eq!(load, EngineOp::LoadMethod { method: XtbMethod::GFN2xTB });
    let (mut res, ops) = calc.single_point(&mol, &env);
    assert_eq!(ops, vec![EngineOp::NewResults, EngineOp::SinglePoint]);
    assert!(res.release());
    assert!(!res.release());
}

#[test]
fn test_check_error_translates_status() {
    let (env, _) = XtbEnvironment::new();
    assert_eq!(env.check_error(0, String::new()), Ok(()));
    let err = env.check_error(2, String::from("scf not converged")).unwrap_err();
    assert_eq!(
        err,
        XtbError::Engine { code: 2, message: String::from("scf not converged") }
    );
    assert!(err.is_engine());
    assert!(!err.is_configuration());
}

#[test]
fn test_check_api_version() {
    assert_eq!(XtbEnvironment::check_api_version(10001, 10001), Ok(()));
    assert_eq!(
        XtbEnvironment::check_api_version(10001, 10100),
        Err(XtbError::ApiVersionMismatch { expected: 10001, actual: 10100 })
    );
}

#[test]
fn test_verbosity_operations() {
    let (env, _) = XtbEnvironment::new();
    assert_eq!(env.set_output_muted(), EngineOp::SetVerbosity { level: 0 });
    assert_eq!(env.set_output_minimal(), EngineOp::SetVerbosity { level: 1 });
    assert_eq!(env.set_output_verbose(), EngineOp::SetVerbosity { level: 2 });
    assert_eq!(XtbEnvironment::version_op(), EngineOp::QueryVersion);
}

#[test]
fn test_calculator_setter_operations() {
    let (env, _) = XtbEnvironment::new();
    let (calc, _) = XtbCalculator::new();
    assert_eq!(
        calc.set_max_iterations(&env, 80),
        EngineOp::SetMaxIterations { count: 80 }
    );
    let temp = Real { bits: 350.0f64.to_bits() };
    assert_eq!(
        calc.set_electronic_temperature(&env, temp),
        EngineOp::SetElectronicTemperature { temperature: temp }
    );
    let acc = Real { bits: 0.25f64.to_bits() };
    assert_eq!(
        calc.set_accuracy(&env, acc),
        EngineOp::SetAccuracy { accuracy: acc }
    );
}

#[test]
fn test_molecule_update_operation() {
    let (env, _) = XtbEnvironment::new();
    let mol = small_molecule(&env);
    let coord: Vec<Real> = vec![Real { bits: 0 }; 9];
    assert_eq!(
        mol.update(&env, &coord, None),
        EngineOp::UpdateMolecule { lattice: None }
    );
}

#[test]
fn test_molecule_create_validates_dimensions() {
    let (env, _) = XtbEnvironment::new();
    let attyp: Vec<i32> = vec![6, 1, 1];
    let coord: Vec<Real> = vec![Real { bits: 0 }; 8];
    let err = XtbMolecule::create(&env, &attyp, &coord, Real { bits: 0 }, 0, None)
        .unwrap_err();
    assert_eq!(err, XtbError::DimensionMismatch { atoms: 3, coords: 8 });
    assert!(err.is_configuration());
}

#[test]
fn test_results_extraction_operations() {
    let (env, _) = XtbEnvironment::new();
    let mol = small_molecule(&env);
    let (mut calc, _) = XtbCalculator::new();
    calc.set_method(&mol, &env, XtbMethod::GFN1xTB);
    let (res, _) = calc.single_point(&mol, &env);
    assert_eq!(res.get_energy(&env), EngineOp::GetEnergy);
    assert_eq!(res.get_dipole(&env), EngineOp::GetDipole);
    assert_eq!(res.get_gradient(&env), EngineOp::GetGradient);
    assert_eq!(res.get_bond_orders(&env), EngineOp::GetBondOrders);
    assert_eq!(res.get_charges(&env), EngineOp::GetCharges);
    assert_eq!(res.get_virial(&env), EngineOp::GetVirial);
    assert_eq!(res.get_nao(&env), EngineOp::GetNao);
    assert_eq!(res.get_orbital_eigenvalues(&env), EngineOp::GetOrbitalEigenvalues);
    assert_eq!(res.get_orbital_occupations(&env), EngineOp::GetOrbitalOccupations);
    assert_eq!(res.get_orbital_coefficients(&env), EngineOp::GetOrbitalCoefficients);
}
