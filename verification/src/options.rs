//! The settings handed to the parser, the minifier and the printer.
use vstd::prelude::*;
use std::collections::HashSet;
use crate::flags::{known_parser_flags, KNOWN_PARSER_FLAGS};
use crate::targets::CompileTargets;

verus! {

/// Parser settings: the file name quoted in error messages, whether broken
/// rules are dropped rather than failing the parse, and the known parser
/// flag bits.
pub struct ParseConfig {
    pub filename: String,
    pub error_recovery: bool,
    pub flags: u8,
}

/// Minifier settings: the targets to compile for and the symbols (class
/// names, ids, keyframe names) whose declarations are removed.
pub struct MinifyConfig {
    pub targets: CompileTargets,
    pub unused_symbols: HashSet<String>,
}

/// Printer settings: whether white space is removed, and the targets.
pub struct PrintConfig {
    pub minify: bool,
    pub targets: CompileTargets,
}

/// Parser settings from the caller's arguments; flag bits the parser does not
/// know are dropped.
pub fn mk_parser_options(filename: &str, error_recovery: bool, parser_flags: u8) -> (c: ParseConfig)
    ensures
        c.filename@ == filename@,
        c.error_recovery == error_recovery,
        c.flags == parser_flags & KNOWN_PARSER_FLAGS,
{
    ParseConfig {
        filename: String::from_str(filename),
        error_recovery: error_recovery,
        flags: known_parser_flags(parser_flags),
    }
}

/// The set of unused symbols that the minifier is given: the caller's, or
/// none.
pub open spec fn unused_symbols_of(unused_symbols: Option<HashSet<String>>) -> Set<String> {
    match unused_symbols {
        Some(s) => s@,
        None => Set::empty(),
    }
}

/// Minifier settings for the given targets; without a set of unused symbols
/// nothing is removed.
pub fn mk_minify_options(unused_symbols: Option<HashSet<String>>, targets: &CompileTargets) -> (c: MinifyConfig)
    ensures
        c.targets == *targets,
        c.unused_symbols@ == unused_symbols_of(unused_symbols),
        unused_symbols matches Some(s) ==> c.unused_symbols@ == s@,
        unused_symbols is None ==> c.unused_symbols@.is_empty(),
{
    let symbols = match unused_symbols {
        Some(val) => val,
        None => HashSet::new(),
    };
    MinifyConfig { targets: *targets, unused_symbols: symbols }
}

/// Printer settings: minified output or pretty-printed output, for the given
/// targets.
pub fn mk_printer_options(targets: &CompileTargets, minify: bool) -> (c: PrintConfig)
    ensures
        c.minify == minify,
        c.targets == *targets,
{
    PrintConfig { minify: minify, targets: *targets }
}

/// Law: the minifier removes exactly the symbols the caller names, however
/// many, and none when the caller names none.
pub proof fn lemma_unused_symbols_are_the_callers(s: HashSet<String>, symbol: String)
    ensures
        unused_symbols_of(Some(s)).contains(symbol) <==> s@.contains(symbol),
        unused_symbols_of(Some(s)).len() == s@.len(),
        !unused_symbols_of(None).contains(symbol),
{
}

} // verus!
