use python_lightningcss::error::{at_stage, CssError, Operation, Stage};

#[test]
fn messages_start_with_the_stage_prefix() {
    let cases = [
        (Operation::Stylesheet, Stage::Targets, "Validation of browsers_list failed: x"),
        (Operation::Bundle, Stage::Targets, "browsers_list failed validation: x"),
        (Operation::Stylesheet, Stage::Parse, "Parsing stylesheet failed: x"),
        (Operation::Bundle, Stage::Bundle { resolver: false }, "Bundling failed: x"),
        (Operation::Stylesheet, Stage::Visit, "Visiting stylesheet failed: x"),
        (Operation::Bundle, Stage::Minify, "Minifying stylesheet failed: x"),
        (Operation::Stylesheet, Stage::Print, "Printing stylesheet failed: x"),
    ];
    for (op, stage, expected) in cases {
        assert_eq!(CssError::new(op, stage, "x".to_string()).message(), expected);
    }
}

#[test]
fn only_resolver_failures_are_io_errors() {
    let e = CssError::bundle_failure("not found".to_string(), true);
    assert!(e.is_io_error());
    assert_eq!(e.message(), "Bundling failed: not found");
    let e = CssError::bundle_failure("bad import".to_string(), false);
    assert!(!e.is_io_error());
    assert!(!CssError::new(Operation::Stylesheet, Stage::Parse, String::new()).is_io_error());
}

#[test]
fn step_outcomes_are_reported_at_their_stage() {
    assert_eq!(at_stage(Operation::Stylesheet, Stage::Print, Ok::<u8, String>(3)).unwrap(), 3);
    let e = at_stage::<u8>(Operation::Bundle, Stage::Minify, Err("broken".to_string())).err().unwrap();
    assert_eq!(e.operation, Operation::Bundle);
    assert_eq!(e.stage, Stage::Minify);
    assert_eq!(e.detail, "broken");
    assert_eq!(e.message(), "Minifying stylesheet failed: broken");
}
