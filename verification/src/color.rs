//! Colors: parsed from CSS text by lightningcss and written back as CSS.
use vstd::prelude::*;
use lightningcss::error::ParserError;
use lightningcss::printer::PrinterOptions;
use lightningcss::traits::{Parse, ToCss};
use lightningcss::values::color::CssColor;
use crate::text::{debug_quoted, debug_str};

verus! {

/// A color value of lightningcss.
#[verifier::external_type_specification]
#[verifier::external_body]
pub struct ExCssColor(CssColor);

/// A parse error of the cssparser crate, with its location.
#[verifier::external_type_specification]
#[verifier::external_body]
#[verifier::reject_recursive_types(E)]
pub struct ExCssParseError<'i, E>(cssparser::ParseError<'i, E>);

/// What lightningcss's color parser gives for the whole text `css`: the
/// color, or the error.
pub uninterp spec fn color_parse_outcome(css: Seq<char>) -> Result<
    CssColor,
    cssparser::ParseError<'static, ParserError<'static>>,
>;

/// The text of a color parse error (its `Display` form).
pub uninterp spec fn color_error_text(e: cssparser::ParseError<'static, ParserError<'static>>) -> Seq<char>;

/// The CSS text that lightningcss prints for a color with the default
/// printer options (the empty string if printing fails).
pub uninterp spec fn color_text(color: CssColor) -> Seq<char>;

/// `CssColor::parse_string` of lightningcss: parses the whole text as one
/// color; the outcome depends on the text alone.
#[verifier::external_body]
fn parse_color<'i>(css: &'i str) -> (r: Result<CssColor, cssparser::ParseError<'i, ParserError<'i>>>)
    ensures
        r == color_parse_outcome(css@),
{
    CssColor::parse_string(css)
}

/// `ToString::to_string` of a color parse error.
#[verifier::external_body]
fn color_error_message(e: &cssparser::ParseError<ParserError>) -> (m: String)
    ensures
        m@ == color_error_text(*e),
{
    e.to_string()
}

/// `ToCss::to_css_string` of lightningcss with the default printer options,
/// or the empty string if printing fails; the text depends on the color
/// alone.
#[verifier::external_body]
fn color_css_text(color: &CssColor) -> (s: String)
    ensures
        s@ == color_text(*color),
{
    color.to_css_string(PrinterOptions::default()).unwrap_or_default()
}

/// The message for text that does not parse as a color.
pub open spec fn color_failure_text(css: Seq<char>, detail: Seq<char>) -> Seq<char> {
    "Failed to parse color '"@ + css + "': "@ + detail
}

/// A color, such as `red`, `#ff0000` or `hsl(0 100% 50%)`.
pub struct PyCssColor {
    pub inner: CssColor,
}

impl PyCssColor {
    /// Parses CSS text as a color. It succeeds exactly when the whole text
    /// is one color, and holds that color; otherwise the message quotes the
    /// text and the parser's error text.
    pub fn new(css: String) -> (r: Result<PyCssColor, String>)
        ensures
            match (r, color_parse_outcome(css@)) {
                (Ok(c), Ok(parsed)) => c.inner == parsed,
                (Err(m), Err(e)) => m@ == color_failure_text(css@, color_error_text(e)),
                _ => false,
            },
    {
        match parse_color(css.as_str()) {
            Ok(inner) => Ok(PyCssColor { inner }),
            Err(e) => {
                let detail = color_error_message(&e);
                let mut m = String::from_str("Failed to parse color '");
                m.append(css.as_str());
                m.append("': ");
                m.append(detail.as_str());
                Err(m)
            },
        }
    }

    /// A color from a parsed lightningcss color.
    pub fn from_color(inner: CssColor) -> (r: PyCssColor)
        ensures
            r.inner == inner,
    {
        PyCssColor { inner }
    }

    /// The color written as CSS.
    pub fn css(&self) -> (s: String)
        ensures
            s@ == color_text(self.inner),
    {
        color_css_text(&self.inner)
    }

    /// `CssColor("...")` around the quoted CSS text.
    pub fn __repr__(&self) -> (r: String)
        ensures
            r@ == "CssColor("@ + debug_quoted(color_text(self.inner)) + ")"@,
    {
        let css = self.css();
        let mut r = String::from_str("CssColor(");
        r.append(debug_str(css.as_str()).as_str());
        r.append(")");
        r
    }

    /// The color written as CSS.
    pub fn __str__(&self) -> (s: String)
        ensures
            s@ == color_text(self.inner),
    {
        self.css()
    }
}

} // verus!
