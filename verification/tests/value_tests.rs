use python_lightningcss::color::PyCssColor;
use python_lightningcss::text::{debug_i32_list, debug_option_str, decimal};
use python_lightningcss::values::{
    parse_failure_message, AngleUnit, CssText, CssTextKind, PyCustomIdent, PyDashedIdent, PyEnvironmentVariable,
    PyFunction, PyUrl, PyVariable, ResolutionUnit, TimeUnit,
};

#[test]
fn decimal_forms() {
    assert_eq!(decimal(0), "0");
    assert_eq!(decimal(7), "7");
    assert_eq!(decimal(10), "10");
    assert_eq!(decimal(-305), "-305");
    assert_eq!(decimal(i32::MIN), i32::MIN.to_string());
    assert_eq!(decimal(i32::MAX), i32::MAX.to_string());
}

#[test]
fn debug_forms_match_std() {
    let v = vec![1, -2, 30];
    assert_eq!(debug_i32_list(&v), format!("{:?}", v));
    assert_eq!(debug_i32_list(&vec![]), "[]");
    let some = Some("a\"b".to_string());
    assert_eq!(debug_option_str(&some), format!("{:?}", some));
    assert_eq!(debug_option_str(&None), "None");
}

#[test]
fn url_representations() {
    let u = PyUrl::new("a.png".to_string());
    assert_eq!(u.__repr__(), "Url(url=\"a.png\")");
    assert_eq!(u.__str__(), "url(\"a.png\")");
}

#[test]
fn ident_representations() {
    let c = PyCustomIdent::new("fade".to_string());
    assert_eq!(c.__repr__(), "CustomIdent(ident=\"fade\")");
    assert_eq!(c.__str__(), "fade");
    let d = PyDashedIdent::new("--main".to_string());
    assert_eq!(d.__repr__(), "DashedIdent(ident=\"--main\")");
    assert_eq!(d.__str__(), "--main");
}

#[test]
fn function_representations() {
    let f = PyFunction::new("theme".to_string(), "x".to_string());
    assert_eq!(f.__repr__(), "Function(name=\"theme\", arguments=\"x\")");
    assert_eq!(f.__str__(), "theme(x)");
}

#[test]
fn variable_representations() {
    let v = PyVariable::new("--c".to_string(), None);
    assert_eq!(v.__repr__(), "Variable(name=\"--c\", fallback=None)");
    assert_eq!(v.__str__(), "var(--c)");
    let v = PyVariable::new("--c".to_string(), Some("red".to_string()));
    assert_eq!(v.__repr__(), "Variable(name=\"--c\", fallback=Some(\"red\"))");
    assert_eq!(v.__str__(), "var(--c, red)");
}

#[test]
fn environment_variable_representations() {
    let e = PyEnvironmentVariable::new("safe-area-inset-top".to_string(), vec![], None);
    assert_eq!(e.__str__(), "env(safe-area-inset-top)");
    assert_eq!(e.__repr__(), "EnvironmentVariable(name=\"safe-area-inset-top\", indices=[], fallback=None)");
    let e = PyEnvironmentVariable::new("x".to_string(), vec![1, -2], Some("10px".to_string()));
    assert_eq!(e.__str__(), "env(x) 1 -2, 10px");
    assert_eq!(e.__repr__(), "EnvironmentVariable(name=\"x\", indices=[1, -2], fallback=Some(\"10px\"))");
}

#[test]
fn css_text_representations() {
    let t = CssText::new(CssTextKind::Image, "url(a.png)".to_string());
    assert_eq!(t.__repr__(), "PyImage(\"url(a.png)\")");
    assert_eq!(t.__str__(), "url(a.png)");
    let t = CssText::new(CssTextKind::TokenOrValue, "x".to_string());
    assert_eq!(t.__repr__(), "PyTokenOrValue(\"x\")");
}

#[test]
fn unit_names() {
    assert_eq!(AngleUnit::Deg.name(), "deg");
    assert_eq!(AngleUnit::Rad.name(), "rad");
    assert_eq!(AngleUnit::Grad.name(), "grad");
    assert_eq!(AngleUnit::Turn.name(), "turn");
    assert_eq!(ResolutionUnit::Dpi.name(), "dpi");
    assert_eq!(ResolutionUnit::Dpcm.name(), "dpcm");
    assert_eq!(ResolutionUnit::Dppx.name(), "dppx");
    assert_eq!(TimeUnit::Seconds.name(), "s");
    assert_eq!(TimeUnit::Milliseconds.name(), "ms");
}

#[test]
fn parse_failure_messages() {
    assert_eq!(parse_failure_message("Angle", "10zz", "bad unit"), "Failed to parse Angle from '10zz': bad unit");
}

#[test]
fn colors_parse_and_print() {
    let c = PyCssColor::new("red".to_string()).ok().unwrap();
    assert_eq!(c.css(), "red");
    assert_eq!(c.__str__(), "red");
    assert_eq!(c.__repr__(), "CssColor(\"red\")");
    let c = PyCssColor::new("#ff0000".to_string()).ok().unwrap();
    assert_eq!(c.css(), "red");
}

#[test]
fn bad_color_is_reported_with_its_text() {
    let m = PyCssColor::new("notacolor".to_string()).err().unwrap();
    assert!(m.starts_with("Failed to parse color 'notacolor': "), "{}", m);
}

#[test]
fn color_printing_is_stable_through_parsing() {
    for text in ["red", "#ff0000", "hsl(0 100% 50%)", "rgba(0, 0, 255, 0.5)"] {
        let c = PyCssColor::new(text.to_string()).ok().unwrap();
        let again = PyCssColor::new(c.css()).ok().unwrap();
        assert_eq!(again.css(), c.css());
    }
}

#[test]
fn bad_color_message_carries_the_parser_text() {
    let expected = match <lightningcss::values::color::CssColor as lightningcss::traits::Parse>::parse_string("notacolor") {
        Err(e) => e.to_string(),
        Ok(_) => unreachable!(),
    };
    let m = PyCssColor::new("notacolor".to_string()).err().unwrap();
    assert_eq!(m, format!("Failed to parse color 'notacolor': {}", expected));
}
