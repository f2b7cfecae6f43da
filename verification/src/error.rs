//! Failures of the stylesheet operations and the messages they carry.
use vstd::prelude::*;

verus! {

/// The public operation that failed.
#[derive(Clone, Copy, Debug, PartialEq, Eq)]
pub enum Operation {
    /// Processing stylesheet source text.
    Stylesheet,
    /// Bundling a stylesheet file with its imports.
    Bundle,
}

/// The step at which an operation failed.
#[derive(Clone, Copy, Debug, PartialEq, Eq)]
pub enum Stage {
    /// The browserslist queries were rejected.
    Targets,
    /// The stylesheet source did not parse.
    Parse,
    /// Bundling failed; `resolver` when a file could not be resolved or read.
    Bundle { resolver: bool },
    /// A visitor callback failed.
    Visit,
    /// Minification failed.
    Minify,
    /// Printing failed.
    Print,
}

/// A failed operation: where it failed, and the failing component's own
/// description of the problem.
#[derive(Debug)]
pub struct CssError {
    pub operation: Operation,
    pub stage: Stage,
    pub detail: String,
}

/// The text that a failure message starts with.
pub open spec fn message_prefix(operation: Operation, stage: Stage) -> Seq<char> {
    match stage {
        Stage::Targets => match operation {
            Operation::Stylesheet => "Validation of browsers_list failed: "@,
            Operation::Bundle => "browsers_list failed validation: "@,
        },
        Stage::Parse => "Parsing stylesheet failed: "@,
        Stage::Bundle { .. } => "Bundling failed: "@,
        Stage::Visit => "Visiting stylesheet failed: "@,
        Stage::Minify => "Minifying stylesheet failed: "@,
        Stage::Print => "Printing stylesheet failed: "@,
    }
}

fn prefix(operation: Operation, stage: Stage) -> (p: &'static str)
    ensures
        p@ == message_prefix(operation, stage),
{
    match stage {
        Stage::Targets => match operation {
            Operation::Stylesheet => "Validation of browsers_list failed: ",
            Operation::Bundle => "browsers_list failed validation: ",
        },
        Stage::Parse => "Parsing stylesheet failed: ",
        Stage::Bundle { .. } => "Bundling failed: ",
        Stage::Visit => "Visiting stylesheet failed: ",
        Stage::Minify => "Minifying stylesheet failed: ",
        Stage::Print => "Printing stylesheet failed: ",
    }
}

impl CssError {
    /// A failure at `stage` of `operation`, described by `detail`.
    pub fn new(operation: Operation, stage: Stage, detail: String) -> (e: CssError)
        ensures
            e.operation == operation,
            e.stage == stage,
            e.detail@ == detail@,
    {
        CssError { operation, stage, detail }
    }

    /// A failed bundle: a resolver failure (a file that could not be found or
    /// read) or a failure of the bundled sources themselves.
    pub fn bundle_failure(detail: String, resolver: bool) -> (e: CssError)
        ensures
            e.operation == Operation::Bundle,
            e.stage == (Stage::Bundle { resolver }),
            e.detail@ == detail@,
    {
        CssError { operation: Operation::Bundle, stage: Stage::Bundle { resolver }, detail }
    }

    /// The full message: the stage's prefix followed by the detail.
    pub fn message(&self) -> (m: String)
        ensures
            m@ == message_prefix(self.operation, self.stage) + self.detail@,
    {
        let mut m = String::from_str(prefix(self.operation, self.stage));
        m.append(self.detail.as_str());
        m
    }

    /// Whether the failure is one of input and output (a bundled file that
    /// could not be resolved) rather than one of the values given.
    pub fn is_io_error(&self) -> (io: bool)
        ensures
            io == (self.stage == (Stage::Bundle { resolver: true })),
    {
        match self.stage {
            Stage::Bundle { resolver } => resolver,
            _ => false,
        }
    }
}

/// Reports the outcome of one step of `operation`: a value passes through
/// unchanged, and a failure becomes a failure at `stage` described by the
/// step's own error text.
pub fn at_stage<T>(operation: Operation, stage: Stage, r: Result<T, String>) -> (o: Result<T, CssError>)
    ensures
        match (r, o) {
            (Ok(v), Ok(w)) => v == w,
            (Err(d), Err(e)) => e.operation == operation && e.stage == stage && e.detail@ == d@,
            _ => false,
        },
{
    match r {
        Ok(v) => Ok(v),
        Err(detail) => Err(CssError::new(operation, stage, detail)),
    }
}

} // verus!
