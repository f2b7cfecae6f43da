//! The stylesheet pipeline: parse, minify, print, with each failure reported
//! at its stage.
use vstd::prelude::*;
use std::collections::HashSet;
use lightningcss::error::{Error, MinifyErrorKind, ParserError, PrinterErrorKind};
use lightningcss::printer::PrinterOptions;
use lightningcss::stylesheet::{MinifyOptions, ParserFlags, ParserOptions, StyleSheet};
use lightningcss::targets::Targets;
use crate::error::{at_stage, CssError, Operation, Stage};
use crate::flags::KNOWN_PARSER_FLAGS;
use crate::options::{mk_minify_options, mk_parser_options, mk_printer_options, MinifyConfig, ParseConfig, PrintConfig};
use crate::options::unused_symbols_of;
use crate::targets::{mk_targets, queries_to_resolve, resolution_possible, targets_view, CompileTargets};

verus! {

/// A stylesheet parsed by lightningcss. Its at-rule type parameter is a type
/// that lightningcss keeps in a private module, so the stylesheet type cannot
/// be declared to Verus and is held here, opaque, in a field of its own.
#[verifier::external_body]
pub struct ParsedSheet<'i> {
    pub sheet: StyleSheet<'i>,
}

/// An error of lightningcss, with its location.
#[verifier::external_type_specification]
#[verifier::external_body]
#[verifier::reject_recursive_types(T)]
pub struct ExLightningError<T>(Error<T>);

/// What went wrong in parsing.
#[verifier::external_type_specification]
#[verifier::external_body]
pub struct ExParserError<'i>(ParserError<'i>);

/// What went wrong in minifying.
#[verifier::external_type_specification]
#[verifier::external_body]
pub struct ExMinifyErrorKind(MinifyErrorKind);

/// What went wrong in printing.
#[verifier::external_type_specification]
#[verifier::external_body]
pub struct ExPrinterErrorKind(PrinterErrorKind);

/// The lightningcss target settings.
#[verifier::external_type_specification]
#[verifier::external_body]
pub struct ExTargets(Targets);

/// What lightningcss's stylesheet parser gives for `code` with the given file
/// name, error recovery setting and parser flags: the stylesheet, or the
/// error.
pub uninterp spec fn parse_outcome(code: Seq<char>, filename: Seq<char>, error_recovery: bool, flags: u8) -> Result<
    ParsedSheet<'static>,
    Error<ParserError<'static>>,
>;

/// The lightningcss targets for the given ones: the browsers, and no feature
/// forced on or off (`Targets::default` for the rest).
#[verifier::external_body]
fn lightning_targets(t: &CompileTargets) -> Targets {
    Targets::from(t.browsers)
}

/// `StyleSheet::parse` of lightningcss with the given settings (the other
/// parser options at their defaults). Parsing depends on its input alone:
/// the outcome is `parse_outcome` of it. With error recovery the source
/// skips every rule that fails to parse and never returns an error.
#[verifier::external_body]
fn parse_sheet<'i>(code: &'i str, config: ParseConfig) -> (r: Result<ParsedSheet<'i>, Error<ParserError<'i>>>)
    ensures
        r == parse_outcome(code@, config.filename@, config.error_recovery, config.flags),
        config.error_recovery ==> r is Ok,
{
    match StyleSheet::parse(code, ParserOptions {
        filename: config.filename,
        error_recovery: config.error_recovery,
        flags: ParserFlags::from_bits_retain(config.flags),
        ..ParserOptions::default()
    }) {
        Ok(sheet) => Ok(ParsedSheet { sheet }),
        Err(e) => Err(e),
    }
}

/// What lightningcss's minifier makes of `sheet` with the given unused
/// symbols and targets: the stylesheet afterwards, and success or the error.
pub uninterp spec fn minify_outcome(sheet: ParsedSheet, unused_symbols: Set<String>, targets: CompileTargets) -> (
    ParsedSheet<'static>,
    Result<(), Error<MinifyErrorKind>>,
);

/// What lightningcss's printer gives for `sheet`, minified or pretty, for
/// the given targets: the printed code, or the error.
pub uninterp spec fn print_outcome(sheet: ParsedSheet, minify: bool, targets: CompileTargets) -> Result<
    Seq<char>,
    Error<PrinterErrorKind>,
>;

/// The text of a lightningcss parse error (its `Display` form, which ends in
/// the file name, line and column).
pub uninterp spec fn parser_error_text(e: Error<ParserError<'static>>) -> Seq<char>;

/// The text of a lightningcss minify error.
pub uninterp spec fn minify_error_text(e: Error<MinifyErrorKind>) -> Seq<char>;

/// The text of a lightningcss print error.
pub uninterp spec fn printer_error_text(e: Error<PrinterErrorKind>) -> Seq<char>;

/// `StyleSheet::minify` of lightningcss with the given settings. Minifying
/// depends on the stylesheet and the settings alone: both the stylesheet
/// afterwards and the outcome are `minify_outcome` of them.
#[verifier::external_body]
fn minify_sheet(sheet: &mut ParsedSheet, config: MinifyConfig) -> (r: Result<(), Error<MinifyErrorKind>>)
    ensures
        (*final(sheet), r) == minify_outcome(*old(sheet), config.unused_symbols@, config.targets),
{
    sheet.sheet.minify(MinifyOptions { targets: lightning_targets(&config.targets), unused_symbols: config.unused_symbols })
}

/// `StyleSheet::to_css` of lightningcss with the given settings (the other
/// printer options at their defaults); on success the printed code. Printing
/// depends on the stylesheet and the settings alone: the outcome is
/// `print_outcome` of them.
#[verifier::external_body]
fn print_sheet(sheet: &ParsedSheet, config: PrintConfig) -> (r: Result<String, Error<PrinterErrorKind>>)
    ensures
        print_outcome(*sheet, config.minify, config.targets) == match r {
            Ok(code) => Ok(code@),
            Err(e) => Err(e),
        },
{
    match sheet.sheet.to_css(PrinterOptions {
        minify: config.minify,
        targets: lightning_targets(&config.targets),
        ..PrinterOptions::default()
    }) {
        Ok(res) => Ok(res.code),
        Err(e) => Err(e),
    }
}

/// `ToString::to_string` of a lightningcss parse error.
#[verifier::external_body]
fn parser_error_message(e: &Error<ParserError>) -> (m: String)
    ensures
        m@ == parser_error_text(*e),
{
    e.to_string()
}

/// `ToString::to_string` of a lightningcss minify error.
#[verifier::external_body]
fn minify_error_message(e: &Error<MinifyErrorKind>) -> (m: String)
    ensures
        m@ == minify_error_text(*e),
{
    e.to_string()
}

/// `ToString::to_string` of a lightningcss print error.
#[verifier::external_body]
fn printer_error_message(e: &Error<PrinterErrorKind>) -> (m: String)
    ensures
        m@ == printer_error_text(*e),
{
    e.to_string()
}

/// The outcome of an operation in plain terms: the printed code, or the
/// stage that failed and its detail.
pub type Outcome = Result<Seq<char>, (Stage, Seq<char>)>;

/// Whether `r` reports the outcome `o` for `operation`: the same code, or a
/// failure of `operation` at the same stage with the same detail.
pub open spec fn reports(r: Result<String, CssError>, operation: Operation, o: Outcome) -> bool {
    match (r, o) {
        (Ok(code), Ok(expected)) => code@ == expected,
        (Err(e), Err((stage, detail))) => e.operation == operation && e.stage == stage && e.detail@ == detail,
        _ => false,
    }
}

/// Minifying then printing a stylesheet: the minifier's error, or the
/// printer's outcome on the minified stylesheet.
pub open spec fn finish_outcome(sheet: ParsedSheet, unused_symbols: Set<String>, targets: CompileTargets, minify: bool) -> Outcome {
    let (minified, m) = minify_outcome(sheet, unused_symbols, targets);
    match m {
        Err(e) => Err((Stage::Minify, minify_error_text(e))),
        Ok(_) => match print_outcome(minified, minify, targets) {
            Ok(code) => Ok(code),
            Err(e) => Err((Stage::Print, printer_error_text(e))),
        },
    }
}

/// Processing stylesheet source for a targets outcome: a rejected query list
/// first, whatever the source; then the parser's error; then minifying and
/// printing the parsed stylesheet.
pub open spec fn process_outcome(
    targets: Result<CompileTargets, Seq<char>>,
    code: Seq<char>,
    filename: Seq<char>,
    error_recovery: bool,
    flags: u8,
    unused_symbols: Set<String>,
    minify: bool,
) -> Outcome {
    match targets {
        Err(d) => Err((Stage::Targets, d)),
        Ok(t) => match parse_outcome(code, filename, error_recovery, flags & KNOWN_PARSER_FLAGS) {
            Err(e) => Err((Stage::Parse, parser_error_text(e))),
            Ok(sheet) => finish_outcome(sheet, unused_symbols, t, minify),
        },
    }
}

/// Completing a bundle for a targets outcome: a rejected query list, or
/// minifying and printing the bundled stylesheet.
pub open spec fn bundle_outcome(
    targets: Result<CompileTargets, Seq<char>>,
    sheet: ParsedSheet,
    unused_symbols: Set<String>,
    minify: bool,
) -> Outcome {
    match targets {
        Err(d) => Err((Stage::Targets, d)),
        Ok(t) => finish_outcome(sheet, unused_symbols, t, minify),
    }
}

/// Targets that name no browser.
pub open spec fn no_targets() -> Result<CompileTargets, Seq<char>> {
    Ok(CompileTargets { browsers: None })
}

/// Parses stylesheet source text; the file name is used in error messages,
/// unknown flag bits are dropped. The outcome is the parser's: its
/// stylesheet, or a parse failure of `Operation::Stylesheet` with the
/// parser's error text. With error recovery the parse never fails.
pub fn parse_stylesheet<'i>(code: &'i str, filename: &str, error_recovery: bool, parser_flags: u8) -> (r: Result<
    ParsedSheet<'i>,
    CssError,
>)
    ensures
        match (r, parse_outcome(code@, filename@, error_recovery, parser_flags & KNOWN_PARSER_FLAGS)) {
            (Ok(sheet), Ok(parsed)) => sheet == parsed,
            (Err(e), Err(pe)) => e.operation == Operation::Stylesheet && e.stage == Stage::Parse && e.detail@
                == parser_error_text(pe),
            _ => false,
        },
        error_recovery ==> r is Ok,
{
    match parse_sheet(code, mk_parser_options(filename, error_recovery, parser_flags)) {
        Ok(sheet) => Ok(sheet),
        Err(e) => Err(CssError::new(Operation::Stylesheet, Stage::Parse, parser_error_message(&e))),
    }
}

/// Resolves the browserslist queries for `operation`; a rejection is a
/// targets failure of that operation with browserslist's error text.
/// Without queries nothing can fail and no browser is targeted.
pub fn prepare_targets(browsers_list: Option<Vec<String>>, operation: Operation) -> (r: Result<CompileTargets, CssError>)
    ensures
        !queries_to_resolve(browsers_list) ==> (r matches Ok(t) && t.browsers is None),
        exists|tr: Result<CompileTargets, Seq<char>>| #![trigger resolution_possible(tr)]
            resolution_possible(tr) && match (r, tr) {
                (Ok(t), Ok(u)) => t == u,
                (Err(e), Err(d)) => e.operation == operation && e.stage == Stage::Targets && e.detail@ == d,
                _ => false,
            },
        r matches Err(e) ==> e.operation == operation && e.stage == Stage::Targets && queries_to_resolve(
            browsers_list,
        ),
{
    let t = mk_targets(browsers_list);
    let ghost tr = targets_view(t);
    let r = at_stage(operation, Stage::Targets, t);
    assert(resolution_possible(tr));
    r
}

/// Minifies the stylesheet for the targets, removing the unused symbols,
/// then prints it, minified or pretty: the printed code, or a minify or
/// print failure of `operation` with lightningcss's error text.
pub fn finish_stylesheet(
    sheet: ParsedSheet,
    operation: Operation,
    unused_symbols: Option<HashSet<String>>,
    targets: &CompileTargets,
    minify: bool,
) -> (r: Result<String, CssError>)
    ensures
        reports(r, operation, finish_outcome(sheet, unused_symbols_of(unused_symbols), *targets, minify)),
{
    let mut sheet = sheet;
    let config = mk_minify_options(unused_symbols, targets);
    match minify_sheet(&mut sheet, config) {
        Ok(_) => {},
        Err(e) => {
            return Err(CssError::new(operation, Stage::Minify, minify_error_message(&e)));
        },
    }
    match print_sheet(&sheet, mk_printer_options(targets, minify)) {
        Ok(code) => Ok(code),
        Err(e) => Err(CssError::new(operation, Stage::Print, printer_error_message(&e))),
    }
}

/// Processes stylesheet source text once the browserslist targets are
/// resolved: a rejected list is reported whatever the source; otherwise the
/// source is parsed, minified and printed.
pub fn process_with_targets(
    targets: Result<CompileTargets, String>,
    code: &str,
    filename: &str,
    error_recovery: bool,
    parser_flags: u8,
    unused_symbols: Option<HashSet<String>>,
    minify: bool,
) -> (r: Result<String, CssError>)
    ensures
        reports(
            r,
            Operation::Stylesheet,
            process_outcome(
                targets_view(targets),
                code@,
                filename@,
                error_recovery,
                parser_flags,
                unused_symbols_of(unused_symbols),
                minify,
            ),
        ),
        error_recovery ==> !(r matches Err(e) && e.stage == Stage::Parse),
{
    let targets = match at_stage(Operation::Stylesheet, Stage::Targets, targets) {
        Ok(t) => t,
        Err(e) => {
            return Err(e);
        },
    };
    let sheet = match parse_stylesheet(code, filename, error_recovery, parser_flags) {
        Ok(sheet) => sheet,
        Err(e) => {
            return Err(e);
        },
    };
    finish_stylesheet(sheet, Operation::Stylesheet, unused_symbols, &targets, minify)
}

/// Processes stylesheet source text: resolves the browserslist targets,
/// parses (the file name is used in error messages; with `error_recovery`
/// broken CSS is dropped rather than failing), minifies for the targets
/// removing the unused symbols, and prints, minified or pretty. The targets
/// are resolved before the source is parsed, so a rejected query list is
/// reported even for source that does not parse. Without queries the outcome
/// is fixed by the source and the settings alone.
pub fn process_stylesheet(
    code: &str,
    filename: &str,
    error_recovery: bool,
    parser_flags: u8,
    unused_symbols: Option<HashSet<String>>,
    browsers_list: Option<Vec<String>>,
    minify: bool,
) -> (r: Result<String, CssError>)
    ensures
        !queries_to_resolve(browsers_list) ==> reports(
            r,
            Operation::Stylesheet,
            process_outcome(
                no_targets(),
                code@,
                filename@,
                error_recovery,
                parser_flags,
                unused_symbols_of(unused_symbols),
                minify,
            ),
        ),
        exists|tr: Result<CompileTargets, Seq<char>>| #![trigger resolution_possible(tr)]
            resolution_possible(tr) && reports(
                r,
                Operation::Stylesheet,
                process_outcome(
                    tr,
                    code@,
                    filename@,
                    error_recovery,
                    parser_flags,
                    unused_symbols_of(unused_symbols),
                    minify,
                ),
            ),
        error_recovery ==> !(r matches Err(e) && e.stage == Stage::Parse),
        r matches Err(e) ==> (e.stage == Stage::Targets ==> queries_to_resolve(browsers_list)),
{
    let targets = mk_targets(browsers_list);
    let ghost tr = targets_view(targets);
    let r = process_with_targets(targets, code, filename, error_recovery, parser_flags, unused_symbols, minify);
    assert(resolution_possible(tr));
    r
}

/// Parser settings for bundling: no file name (each bundled file is named by
/// its path), the given recovery setting and the known flag bits.
pub fn bundle_parser_options(error_recovery: bool, parser_flags: u8) -> (c: ParseConfig)
    ensures
        c.filename@ == Seq::<char>::empty(),
        c.error_recovery == error_recovery,
        c.flags == parser_flags & KNOWN_PARSER_FLAGS,
{
    proof {
        reveal_strlit("");
    }
    mk_parser_options("", error_recovery, parser_flags)
}

/// Completes a bundle once the browserslist targets are resolved: a
/// rejected list is reported; otherwise the bundled stylesheet is minified
/// and printed.
pub fn finish_with_targets(
    targets: Result<CompileTargets, String>,
    sheet: ParsedSheet,
    unused_symbols: Option<HashSet<String>>,
    minify: bool,
) -> (r: Result<String, CssError>)
    ensures
        reports(r, Operation::Bundle, bundle_outcome(targets_view(targets), sheet, unused_symbols_of(unused_symbols), minify)),
{
    let targets = match at_stage(Operation::Bundle, Stage::Targets, targets) {
        Ok(t) => t,
        Err(e) => {
            return Err(e);
        },
    };
    finish_stylesheet(sheet, Operation::Bundle, unused_symbols, &targets, minify)
}

/// Completes a bundle once its files are read and parsed: resolves the
/// browserslist targets (only now, after bundling), then minifies and
/// prints. Without queries the outcome is fixed by the stylesheet and the
/// settings alone.
pub fn finish_bundle(
    sheet: ParsedSheet,
    unused_symbols: Option<HashSet<String>>,
    browsers_list: Option<Vec<String>>,
    minify: bool,
) -> (r: Result<String, CssError>)
    ensures
        !queries_to_resolve(browsers_list) ==> reports(
            r,
            Operation::Bundle,
            bundle_outcome(no_targets(), sheet, unused_symbols_of(unused_symbols), minify),
        ),
        exists|tr: Result<CompileTargets, Seq<char>>| #![trigger resolution_possible(tr)]
            resolution_possible(tr) && reports(
                r,
                Operation::Bundle,
                bundle_outcome(tr, sheet, unused_symbols_of(unused_symbols), minify),
            ),
        r matches Err(e) ==> (e.stage == Stage::Targets ==> queries_to_resolve(browsers_list)),
{
    let targets = mk_targets(browsers_list);
    let ghost tr = targets_view(targets);
    let r = finish_with_targets(targets, sheet, unused_symbols, minify);
    assert(resolution_possible(tr));
    r
}

/// Law: processing in stages (targets, parse, then a visit that leaves the
/// stylesheet as parsed, then minify and print) gives what processing the
/// source at once gives.
pub proof fn lemma_staged_processing(
    targets: CompileTargets,
    code: Seq<char>,
    filename: Seq<char>,
    error_recovery: bool,
    flags: u8,
    unused_symbols: Set<String>,
    minify: bool,
)
    requires
        parse_outcome(code, filename, error_recovery, flags & KNOWN_PARSER_FLAGS) is Ok,
    ensures
        process_outcome(Ok(targets), code, filename, error_recovery, flags, unused_symbols, minify)
            == finish_outcome(
            parse_outcome(code, filename, error_recovery, flags & KNOWN_PARSER_FLAGS)->Ok_0,
            unused_symbols,
            targets,
            minify,
        ),
{
}

} // verus!
