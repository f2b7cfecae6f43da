use std::collections::HashSet;

use python_lightningcss::error::{CssError, Operation, Stage};
use python_lightningcss::flags::{calc_parser_flags, known_parser_flags};
use python_lightningcss::options::{mk_minify_options, mk_parser_options, mk_printer_options};
use python_lightningcss::stylesheet::{
    bundle_parser_options, finish_bundle, finish_stylesheet, parse_stylesheet, prepare_targets,
    process_stylesheet, ParsedSheet,
};
use python_lightningcss::targets::{browserslist_queries, mk_targets, targets_from_resolution, CompileTargets};
use lightningcss::targets::Browsers;

const PADDING_CSS: &str = "
a {
    padding-left: 0;
    padding-right: 0;
    padding-top: 5px;
    padding-bottom: 5px;
}
";

fn process(code: &str, browsers: Option<Vec<String>>, minify: bool) -> Result<String, CssError> {
    process_stylesheet(code, "", false, 0, None, browsers, minify)
}

#[test]
fn calc_parser_flags_sets_one_bit_per_switch() {
    assert_eq!(calc_parser_flags(false, false, false), 0);
    assert_eq!(calc_parser_flags(true, false, false), 1);
    assert_eq!(calc_parser_flags(false, true, false), 2);
    assert_eq!(calc_parser_flags(false, false, true), 4);
    assert_eq!(calc_parser_flags(true, true, true), 7);
    assert_eq!(calc_parser_flags(true, false, true), 5);
}

#[test]
fn unknown_parser_flag_bits_are_dropped() {
    assert_eq!(known_parser_flags(0xff), 15);
    assert_eq!(known_parser_flags(0x10), 0);
    assert_eq!(known_parser_flags(7), 7);
    let f = calc_parser_flags(true, true, true);
    assert_eq!(known_parser_flags(f), f);
}

#[test]
fn parser_options_keep_filename_and_known_flags() {
    let c = mk_parser_options("abc.css", true, 0x37);
    assert_eq!(c.filename, "abc.css");
    assert!(c.error_recovery);
    assert_eq!(c.flags, 7);
    let b = bundle_parser_options(false, 0x18);
    assert_eq!(b.filename, "");
    assert!(!b.error_recovery);
    assert_eq!(b.flags, 8);
}

#[test]
fn minify_and_printer_options_carry_their_inputs() {
    let t = CompileTargets::none();
    let mut set = HashSet::new();
    set.insert("a".to_string());
    let m = mk_minify_options(Some(set.clone()), &t);
    assert_eq!(m.unused_symbols, set);
    assert_eq!(m.targets, t);
    let m = mk_minify_options(None, &t);
    assert!(m.unused_symbols.is_empty());
    let p = mk_printer_options(&t, true);
    assert!(p.minify);
    let p = mk_printer_options(&t, false);
    assert!(!p.minify);
}

#[test]
fn no_or_empty_browsers_list_targets_no_browser() {
    assert_eq!(mk_targets(None).unwrap(), CompileTargets { browsers: None });
    assert_eq!(mk_targets(Some(vec![])).unwrap(), CompileTargets { browsers: None });
}

#[test]
fn browserslist_queries_select_browsers() {
    let t = mk_targets(Some(vec!["safari 13".to_string()])).unwrap();
    let b = t.browsers.expect("safari is a known family");
    assert_eq!(b.safari, Some(13 << 16));
    assert_eq!(b.chrome, None);
}

#[test]
fn bad_browserslist_query_is_an_error() {
    assert!(mk_targets(Some(vec!["nosuchbrowser 12".to_string()])).is_err());
    let e = prepare_targets(Some(vec!["nosuchbrowser 12".to_string()]), Operation::Bundle).err().unwrap();
    assert_eq!(e.stage, Stage::Targets);
    assert_eq!(e.operation, Operation::Bundle);
    assert!(e.message().starts_with("browsers_list failed validation: "));
}

#[test]
fn resolution_outcomes_map_to_targets() {
    assert_eq!(targets_from_resolution(Ok(None)).unwrap(), CompileTargets { browsers: None });
    let rejected = Browsers::from_browserslist(["nosuchbrowser 12"]).err().unwrap();
    let text = rejected.to_string();
    assert_eq!(targets_from_resolution(Err(rejected)).err().unwrap(), text);
}

#[test]
fn readme_example_merges_padding() {
    let out = process(PADDING_CSS, None, true).unwrap();
    assert_eq!(out, "a{padding:5px 0}");
}

#[test]
fn readme_example_with_default_browsers() {
    let out = process(PADDING_CSS, Some(vec!["defaults".to_string()]), true).unwrap();
    assert_eq!(out, "a{padding:5px 0}");
}

#[test]
fn pretty_printing_when_not_minified() {
    let out = process(PADDING_CSS, None, false).unwrap();
    assert_eq!(out, "a {\n  padding: 5px 0;\n}\n");
}

#[test]
fn targets_add_vendor_prefixes() {
    let plain = process(".a{user-select:none}", None, true).unwrap();
    assert!(!plain.contains("-webkit-"), "{}", plain);
    let prefixed = process(".a{user-select:none}", Some(vec!["safari 13".to_string()]), true).unwrap();
    assert!(prefixed.contains("-webkit-user-select"), "{}", prefixed);
}

#[test]
fn unused_symbols_are_removed() {
    let mut unused = HashSet::new();
    unused.insert("a".to_string());
    let out = process_stylesheet(".a{color:red}.b{color:red}", "", false, 0, Some(unused), None, true).unwrap();
    assert!(!out.contains(".a"), "{}", out);
    assert!(out.contains(".b"), "{}", out);
}

#[test]
fn nesting_flag_enables_nesting() {
    let css = ".a{.b{color:red}}";
    let nested = process_stylesheet(css, "", false, calc_parser_flags(true, false, false), None, None, true);
    assert!(nested.is_ok());
}

#[test]
fn invalid_css_fails_to_parse_with_filename() {
    let e = process_stylesheet("a { color: red; } }", "abc.css", false, 0, None, None, true)
        .err()
        .unwrap();
    assert_eq!(e.stage, Stage::Parse);
    assert_eq!(e.operation, Operation::Stylesheet);
    assert!(!e.is_io_error());
    let m = e.message();
    assert!(m.starts_with("Parsing stylesheet failed: "), "{}", m);
    assert!(m.contains("abc.css"), "{}", m);
}

#[test]
fn error_recovery_drops_broken_css() {
    let out = process_stylesheet("a { color: red; } }", "abc.css", true, 0, None, None, true).unwrap();
    assert_eq!(out, "a{color:red}");
}

#[test]
fn browsers_list_is_checked_before_parsing() {
    let e = process_stylesheet("a { color: red; } }", "", false, 0, None, Some(vec!["nosuchbrowser 1".to_string()]), true)
        .err()
        .unwrap();
    assert_eq!(e.stage, Stage::Targets);
    assert!(e.message().starts_with("Validation of browsers_list failed: "));
}

#[test]
fn staged_processing_matches_whole_processing() {
    let sheet = parse_stylesheet(PADDING_CSS, "", false, 0).ok().unwrap();
    let t = prepare_targets(None, Operation::Stylesheet).ok().unwrap();
    let out = finish_stylesheet(sheet, Operation::Stylesheet, None, &t, true).unwrap();
    assert_eq!(out, process(PADDING_CSS, None, true).unwrap());
}

#[test]
fn finish_bundle_checks_browsers_after_bundling() {
    let sheet = lightningcss::stylesheet::StyleSheet::parse(".a{color:red}", Default::default()).unwrap();
    let out = finish_bundle(ParsedSheet { sheet }, None, None, true).unwrap();
    assert_eq!(out, ".a{color:red}");
    let sheet = lightningcss::stylesheet::StyleSheet::parse(".a{color:red}", Default::default()).unwrap();
    let e = finish_bundle(ParsedSheet { sheet }, None, Some(vec!["nosuchbrowser 1".to_string()]), true)
        .err()
        .unwrap();
    assert_eq!(e.operation, Operation::Bundle);
    assert_eq!(e.stage, Stage::Targets);
}

fn browserslist_text(query: &str) -> String {
    Browsers::from_browserslist([query]).err().unwrap().to_string()
}

#[test]
fn queries_are_handed_over_unchanged() {
    assert!(browserslist_queries(None).is_none());
    assert!(browserslist_queries(Some(vec![])).is_none());
    let q = vec!["defaults".to_string(), "not dead".to_string()];
    assert_eq!(browserslist_queries(Some(q.clone())), Some(q));
}

#[test]
fn rejected_list_wins_over_unparseable_code_with_its_text() {
    let e = process_stylesheet("a$ {color:red}", "", false, 0, None, Some(vec!["nosuchbrowser 1".to_string()]), true)
        .err()
        .unwrap();
    assert_eq!(e.stage, Stage::Targets);
    assert_eq!(e.message(), format!("Validation of browsers_list failed: {}", browserslist_text("nosuchbrowser 1")));
}

#[test]
fn bundle_reports_rejected_list_with_its_text() {
    let sheet = lightningcss::stylesheet::StyleSheet::parse(".a{color:red}", Default::default()).unwrap();
    let e = finish_bundle(ParsedSheet { sheet }, None, Some(vec!["nosuchbrowser 1".to_string()]), true)
        .err()
        .unwrap();
    assert_eq!(e.message(), format!("browsers_list failed validation: {}", browserslist_text("nosuchbrowser 1")));
}

#[test]
fn parse_failure_carries_the_parser_text() {
    let options = lightningcss::stylesheet::ParserOptions { filename: "abc.css".to_string(), ..Default::default() };
    let expected = lightningcss::stylesheet::StyleSheet::parse("a$ {color:red}", options).err().unwrap().to_string();
    let e = process_stylesheet("a$ {color:red}", "abc.css", false, 0, None, None, true).err().unwrap();
    assert_eq!(e.message(), format!("Parsing stylesheet failed: {}", expected));
    assert!(e.message().contains("abc.css"));
}

#[test]
fn error_recovery_leaves_out_broken_rules() {
    let out = process_stylesheet("a$ {color:red}.b{color:green}", "", true, 0, None, None, true).unwrap();
    assert_eq!(out, ".b{color:green}");
    assert!(parse_stylesheet("a$ {color:red}", "", true, 0).is_ok());
}
