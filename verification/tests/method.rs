//! Method-name parsing: the four parametrisations under both spellings,
//! in any letter case, and nothing else.

use xtb_model::XtbMethod;

#[test]
fn test_xtb_method_into() {
    let m = XtbMethod::parse("GFN0xTB").unwrap();
    assert_eq!(m, XtbMethod::GFN0xTB);
    let m = XtbMethod::parse("GFN0-xTB").unwrap();
    assert_eq!(m, XtbMethod::GFN0xTB);
    let m = XtbMethod::parse("gfn0-xtb").unwrap();
    assert_eq!(m, XtbMethod::GFN0xTB);

    let m = XtbMethod::parse("GFN1xTB").unwrap();
    assert_eq!(m, XtbMethod::GFN1xTB);
    let m = XtbMethod::parse("GFN2xTB").unwrap();
    assert_eq!(m, XtbMethod::GFN2xTB);
    let m = XtbMethod::parse("GFNFF").unwrap();
    assert_eq!(m, XtbMethod::GFNFF);
    let m = XtbMethod::parse("GFN-FF").unwrap();
    assert_eq!(m, XtbMethod::GFNFF);
}

#[test]
fn test_method_spellings_agree() {
    assert_eq!(
        XtbMethod::parse("GFN2xTB"),
        XtbMethod::parse("GFN2-xTB")
    );
    assert_eq!(
        XtbMethod::parse("GFN2xTB"),
        XtbMethod::parse("gfn2-xtb")
    );
    assert_eq!(XtbMethod::parse("gfn2-xtb"), Some(XtbMethod::GFN2xTB));
    assert_eq!(XtbMethod::parse("GFN1-XTB"), Some(XtbMethod::GFN1xTB));
    assert_eq!(XtbMethod::parse("gfnff"), Some(XtbMethod::GFNFF));
}

#[test]
fn test_method_unrecognized_is_rejected() {
    assert_eq!(XtbMethod::parse("gfn-xtb"), None);
    assert_eq!(XtbMethod::parse(""), None);
    assert_eq!(XtbMethod::parse("GFN3xTB"), None);
    assert_eq!(XtbMethod::parse("GFN2xTB "), None);
    assert_eq!(XtbMethod::parse("GFN2"), None);
}
