//! Browser targets: which browsers the output is compiled for, resolved from
//! browserslist queries.
use vstd::prelude::*;
use lightningcss::targets::Browsers;

verus! {

/// The error type of the browserslist crate.
#[verifier::external_type_specification]
#[verifier::external_body]
pub struct ExBrowserslistError(browserslist::Error);

/// Minimum browser versions to compile for, one per browser family that
/// lightningcss distinguishes. A version is one 24-bit number with a byte per
/// `major.minor.patch` component; `None` means the family is not targeted.
#[verifier::external_type_specification]
pub struct ExBrowsers(Browsers);

/// What the output is compiled for. Without browsers nothing is prefixed or
/// transpiled; no feature is forced on or off.
#[derive(Clone, Copy, Debug, PartialEq, Eq)]
pub struct CompileTargets {
    pub browsers: Option<Browsers>,
}

impl CompileTargets {
    /// Targets that compile for no particular browser.
    pub fn none() -> (t: CompileTargets)
        ensures
            t.browsers is None,
    {
        CompileTargets { browsers: None }
    }
}

/// Whether some browser family is targeted.
pub open spec fn targets_some_family(b: Browsers) -> bool {
    ||| b.android is Some
    ||| b.chrome is Some
    ||| b.edge is Some
    ||| b.firefox is Some
    ||| b.ie is Some
    ||| b.ios_saf is Some
    ||| b.opera is Some
    ||| b.safari is Some
    ||| b.samsung is Some
}

/// `Browsers::from_browserslist` of lightningcss: resolves the queries with
/// browserslist and keeps, per browser family, the lowest version selected;
/// `Ok(None)` when no selected browser belongs to a known family. Which
/// browsers are selected depends on the date and the environment as well as
/// on the queries (`last 2 years`, `current node`), so of the outcome only
/// this is stated: the source returns `Some` only after setting some
/// family's version.
#[verifier::external_body]
fn resolve_browserslist(queries: Vec<String>) -> (r: Result<Option<Browsers>, browserslist::Error>)
    ensures
        r matches Ok(Some(b)) ==> targets_some_family(b),
{
    Browsers::from_browserslist(queries)
}

/// The text of a browserslist error (its `Display` form).
pub uninterp spec fn browserslist_error_text(e: browserslist::Error) -> Seq<char>;

/// `ToString::to_string` of a browserslist error; its `Display` form
/// depends on the error alone.
#[verifier::external_body]
fn browserslist_error_message(e: &browserslist::Error) -> (m: String)
    ensures
        m@ == browserslist_error_text(*e),
{
    e.to_string()
}

/// Whether some queries are handed to browserslist: the list is given and
/// not empty.
pub open spec fn queries_to_resolve(browsers_list: Option<Vec<String>>) -> bool {
    match browsers_list {
        Some(bl) => bl.len() > 0,
        None => false,
    }
}

/// The queries that are handed to browserslist: the given list, unchanged,
/// unless it is absent or empty.
pub fn browserslist_queries(browsers_list: Option<Vec<String>>) -> (q: Option<Vec<String>>)
    ensures
        match q {
            Some(v) => queries_to_resolve(browsers_list) && (browsers_list matches Some(bl) && v@ == bl@),
            None => !queries_to_resolve(browsers_list),
        },
{
    match browsers_list {
        Some(bl) => {
            if bl.len() > 0 {
                Some(bl)
            } else {
                None
            }
        },
        None => None,
    }
}

/// The targets or error text that a browserslist resolution gives.
pub open spec fn targets_of_resolution(r: Result<Option<Browsers>, browserslist::Error>) -> Result<
    CompileTargets,
    Seq<char>,
> {
    match r {
        Ok(b) => Ok(CompileTargets { browsers: b }),
        Err(e) => Err(browserslist_error_text(e)),
    }
}

/// Whether a targets outcome is one that a browserslist resolution can give:
/// targets that name a family when they name any, or an error's text.
pub open spec fn resolution_possible(t: Result<CompileTargets, Seq<char>>) -> bool {
    match t {
        Ok(tg) => tg.browsers matches Some(b) ==> targets_some_family(b),
        Err(d) => exists|e: browserslist::Error| d == #[trigger] browserslist_error_text(e),
    }
}

/// The view of a targets outcome: the targets, or the error's text.
pub open spec fn targets_view(t: Result<CompileTargets, String>) -> Result<CompileTargets, Seq<char>> {
    match t {
        Ok(tg) => Ok(tg),
        Err(m) => Err(m@),
    }
}

/// Turns the outcome of a browserslist resolution into targets; an error
/// becomes its text.
pub fn targets_from_resolution(r: Result<Option<Browsers>, browserslist::Error>) -> (t: Result<CompileTargets, String>)
    ensures
        targets_view(t) == targets_of_resolution(r),
{
    match r {
        Ok(b) => Ok(CompileTargets { browsers: b }),
        Err(e) => Err(browserslist_error_message(&e)),
    }
}

/// Resolves the optional browserslist queries into targets. With no list, or
/// an empty one, nothing is resolved and the targets name no browser; else
/// the queries go to browserslist unchanged, and the outcome is one that a
/// resolution can give: targets, or the error's text.
pub fn mk_targets(browsers_list: Option<Vec<String>>) -> (t: Result<CompileTargets, String>)
    ensures
        !queries_to_resolve(browsers_list) ==> t == Ok::<CompileTargets, String>(
            CompileTargets { browsers: None },
        ),
        resolution_possible(targets_view(t)),
{
    match browserslist_queries(browsers_list) {
        Some(queries) => {
            let r = resolve_browserslist(queries);
            let ghost outcome = r;
            let t = targets_from_resolution(r);
            proof {
                if let Err(e) = outcome {
                    assert(targets_view(t) == Err::<CompileTargets, Seq<char>>(browserslist_error_text(e)));
                }
            }
            t
        },
        None => Ok(CompileTargets::none()),
    }
}

} // verus!
