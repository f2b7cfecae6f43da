//! The stylesheet values handed to visitor callbacks, in plain form, with
//! their text representations.
use vstd::prelude::*;
use crate::text::{
    append_decimal, debug_i32_list, debug_list, debug_option, debug_option_str, debug_quoted, debug_str,
    int_decimal,
};

verus! {

/// The view of an optional string.
pub open spec fn opt_view(s: Option<String>) -> Option<Seq<char>> {
    match s {
        Some(v) => Some(v@),
        None => None,
    }
}

/// A `url()` value.
pub struct PyUrl {
    pub url: String,
}

impl PyUrl {
    pub fn new(url: String) -> (r: PyUrl)
        ensures
            r.url@ == url@,
    {
        PyUrl { url }
    }

    /// `Url(url="...")`.
    pub fn __repr__(&self) -> (r: String)
        ensures
            r@ == "Url(url="@ + debug_quoted(self.url@) + ")"@,
    {
        let mut r = String::from_str("Url(url=");
        r.append(debug_str(self.url.as_str()).as_str());
        r.append(")");
        r
    }

    /// `url("...")`.
    pub fn __str__(&self) -> (r: String)
        ensures
            r@ == "url("@ + debug_quoted(self.url@) + ")"@,
    {
        let mut r = String::from_str("url(");
        r.append(debug_str(self.url.as_str()).as_str());
        r.append(")");
        r
    }
}

/// A custom identifier, such as an animation name.
pub struct PyCustomIdent {
    pub ident: String,
}

impl PyCustomIdent {
    pub fn new(ident: String) -> (r: PyCustomIdent)
        ensures
            r.ident@ == ident@,
    {
        PyCustomIdent { ident }
    }

    /// `CustomIdent(ident="...")`.
    pub fn __repr__(&self) -> (r: String)
        ensures
            r@ == "CustomIdent(ident="@ + debug_quoted(self.ident@) + ")"@,
    {
        let mut r = String::from_str("CustomIdent(ident=");
        r.append(debug_str(self.ident.as_str()).as_str());
        r.append(")");
        r
    }

    /// The identifier itself.
    pub fn __str__(&self) -> (r: String)
        ensures
            r@ == self.ident@,
    {
        self.ident.clone()
    }
}

/// A dashed identifier, such as a custom property name.
pub struct PyDashedIdent {
    pub ident: String,
}

impl PyDashedIdent {
    pub fn new(ident: String) -> (r: PyDashedIdent)
        ensures
            r.ident@ == ident@,
    {
        PyDashedIdent { ident }
    }

    /// `DashedIdent(ident="...")`.
    pub fn __repr__(&self) -> (r: String)
        ensures
            r@ == "DashedIdent(ident="@ + debug_quoted(self.ident@) + ")"@,
    {
        let mut r = String::from_str("DashedIdent(ident=");
        r.append(debug_str(self.ident.as_str()).as_str());
        r.append(")");
        r
    }

    /// The identifier itself.
    pub fn __str__(&self) -> (r: String)
        ensures
            r@ == self.ident@,
    {
        self.ident.clone()
    }
}

/// A custom function call: its name and a rendering of its arguments.
pub struct PyFunction {
    pub name: String,
    pub arguments: String,
}

impl PyFunction {
    pub fn new(name: String, arguments: String) -> (r: PyFunction)
        ensures
            r.name@ == name@,
            r.arguments@ == arguments@,
    {
        PyFunction { name, arguments }
    }

    /// `Function(name="...", arguments="...")`.
    pub fn __repr__(&self) -> (r: String)
        ensures
            r@ == "Function(name="@ + debug_quoted(self.name@) + ", arguments="@ + debug_quoted(self.arguments@)
                + ")"@,
    {
        let mut r = String::from_str("Function(name=");
        r.append(debug_str(self.name.as_str()).as_str());
        r.append(", arguments=");
        r.append(debug_str(self.arguments.as_str()).as_str());
        r.append(")");
        r
    }

    /// `name(arguments)`.
    pub fn __str__(&self) -> (r: String)
        ensures
            r@ == self.name@ + "("@ + self.arguments@ + ")"@,
    {
        let mut r = self.name.clone();
        r.append("(");
        r.append(self.arguments.as_str());
        r.append(")");
        r
    }
}

/// A `var()` reference: the custom property name and an optional rendering
/// of its fallback.
pub struct PyVariable {
    pub name: String,
    pub fallback: Option<String>,
}

impl PyVariable {
    pub fn new(name: String, fallback: Option<String>) -> (r: PyVariable)
        ensures
            r.name@ == name@,
            opt_view(r.fallback) == opt_view(fallback),
    {
        PyVariable { name, fallback }
    }

    /// `Variable(name="...", fallback=None)` or with `Some("...")`.
    pub fn __repr__(&self) -> (r: String)
        ensures
            r@ == "Variable(name="@ + debug_quoted(self.name@) + ", fallback="@ + debug_option(
                opt_view(self.fallback),
            ) + ")"@,
    {
        let mut r = String::from_str("Variable(name=");
        r.append(debug_str(self.name.as_str()).as_str());
        r.append(", fallback=");
        r.append(debug_option_str(&self.fallback).as_str());
        r.append(")");
        r
    }

    /// `var(name, fallback)`, or `var(name)` without a fallback.
    pub fn __str__(&self) -> (r: String)
        ensures
            r@ == match self.fallback {
                Some(fb) => "var("@ + self.name@ + ", "@ + fb@ + ")"@,
                None => "var("@ + self.name@ + ")"@,
            },
    {
        let mut r = String::from_str("var(");
        r.append(self.name.as_str());
        match &self.fallback {
            Some(fb) => {
                r.append(", ");
                r.append(fb.as_str());
            },
            None => {},
        }
        r.append(")");
        r
    }
}

/// The indices written after an `env()` head: each as a space and its
/// decimal form.
pub open spec fn spaced_indices(v: Seq<i32>) -> Seq<char>
    decreases v.len(),
{
    if v.len() == 0 {
        Seq::empty()
    } else {
        spaced_indices(v.drop_last()) + " "@ + int_decimal(v.last() as int)
    }
}

/// An `env()` reference: the environment variable's name, its indices and
/// an optional rendering of its fallback.
pub struct PyEnvironmentVariable {
    pub name: String,
    pub indices: Vec<i32>,
    pub fallback: Option<String>,
}

impl PyEnvironmentVariable {
    pub fn new(name: String, indices: Vec<i32>, fallback: Option<String>) -> (r: PyEnvironmentVariable)
        ensures
            r.name@ == name@,
            r.indices@ == indices@,
            opt_view(r.fallback) == opt_view(fallback),
    {
        PyEnvironmentVariable { name, indices, fallback }
    }

    /// `EnvironmentVariable(name="...", indices=[...], fallback=...)`.
    pub fn __repr__(&self) -> (r: String)
        ensures
            r@ == "EnvironmentVariable(name="@ + debug_quoted(self.name@) + ", indices="@ + debug_list(
                self.indices@,
            ) + ", fallback="@ + debug_option(opt_view(self.fallback)) + ")"@,
    {
        let mut r = String::from_str("EnvironmentVariable(name=");
        r.append(debug_str(self.name.as_str()).as_str());
        r.append(", indices=");
        r.append(debug_i32_list(&self.indices).as_str());
        r.append(", fallback=");
        r.append(debug_option_str(&self.fallback).as_str());
        r.append(")");
        r
    }

    /// `env(name)`, then ` i` for each index, then `, fallback` if there is
    /// one.
    pub fn __str__(&self) -> (r: String)
        ensures
            r@ == "env("@ + self.name@ + ")"@ + spaced_indices(self.indices@) + match self.fallback {
                Some(fb) => ", "@ + fb@,
                None => Seq::empty(),
            },
    {
        let mut s = String::from_str("env(");
        s.append(self.name.as_str());
        s.append(")");
        let ghost head = s@;
        let mut i: usize = 0;
        while i < self.indices.len()
            invariant
                i <= self.indices.len(),
                s@ == head + spaced_indices(self.indices@.take(i as int)),
            decreases self.indices.len() - i,
        {
            s.append(" ");
            append_decimal(&mut s, self.indices[i]);
            assert(self.indices@.take((i + 1) as int).drop_last() =~= self.indices@.take(i as int));
            i = i + 1;
        }
        assert(self.indices@.take(self.indices.len() as int) =~= self.indices@);
        match &self.fallback {
            Some(fb) => {
                s.append(", ");
                s.append(fb.as_str());
            },
            None => {},
        }
        s
    }
}

} // verus!

verus! {

/// The kinds of values that are handed over as CSS text.
#[derive(Clone, Copy, Debug, PartialEq, Eq)]
pub enum CssTextKind {
    Image,
    Selector,
    MediaQuery,
    SupportsCondition,
    CssRule,
    Property,
    TokenOrValue,
}

/// The name that a CSS text value's representation starts with.
pub open spec fn css_text_kind_name(kind: CssTextKind) -> Seq<char> {
    match kind {
        CssTextKind::Image => "PyImage"@,
        CssTextKind::Selector => "PySelector"@,
        CssTextKind::MediaQuery => "PyMediaQuery"@,
        CssTextKind::SupportsCondition => "PySupportsCondition"@,
        CssTextKind::CssRule => "PyCssRule"@,
        CssTextKind::Property => "PyProperty"@,
        CssTextKind::TokenOrValue => "PyTokenOrValue"@,
    }
}

fn css_text_kind_str(kind: CssTextKind) -> (s: &'static str)
    ensures
        s@ == css_text_kind_name(kind),
{
    match kind {
        CssTextKind::Image => "PyImage",
        CssTextKind::Selector => "PySelector",
        CssTextKind::MediaQuery => "PyMediaQuery",
        CssTextKind::SupportsCondition => "PySupportsCondition",
        CssTextKind::CssRule => "PyCssRule",
        CssTextKind::Property => "PyProperty",
        CssTextKind::TokenOrValue => "PyTokenOrValue",
    }
}

/// A value (image, selector, media query, supports condition, rule,
/// property, token) held as its CSS text.
pub struct CssText {
    pub kind: CssTextKind,
    pub css: String,
}

impl CssText {
    pub fn new(kind: CssTextKind, css: String) -> (r: CssText)
        ensures
            r.kind == kind,
            r.css@ == css@,
    {
        CssText { kind, css }
    }

    /// The kind's name with the quoted text: `PyImage("...")`.
    pub fn __repr__(&self) -> (r: String)
        ensures
            r@ == css_text_kind_name(self.kind) + "("@ + debug_quoted(self.css@) + ")"@,
    {
        let mut r = String::from_str(css_text_kind_str(self.kind));
        r.append("(");
        r.append(debug_str(self.css.as_str()).as_str());
        r.append(")");
        r
    }

    /// The CSS text.
    pub fn __str__(&self) -> (r: String)
        ensures
            r@ == self.css@,
    {
        self.css.clone()
    }
}

/// The units an angle is given in.
#[derive(Clone, Copy, Debug, PartialEq, Eq)]
pub enum AngleUnit {
    Deg,
    Rad,
    Grad,
    Turn,
}

/// The CSS name of an angle unit.
pub open spec fn angle_unit_name(u: AngleUnit) -> Seq<char> {
    match u {
        AngleUnit::Deg => "deg"@,
        AngleUnit::Rad => "rad"@,
        AngleUnit::Grad => "grad"@,
        AngleUnit::Turn => "turn"@,
    }
}

impl AngleUnit {
    /// The CSS name of the unit.
    pub fn name(&self) -> (s: &'static str)
        ensures
            s@ == angle_unit_name(*self),
    {
        match self {
            AngleUnit::Deg => "deg",
            AngleUnit::Rad => "rad",
            AngleUnit::Grad => "grad",
            AngleUnit::Turn => "turn",
        }
    }
}

/// The units a resolution is given in.
#[derive(Clone, Copy, Debug, PartialEq, Eq)]
pub enum ResolutionUnit {
    Dpi,
    Dpcm,
    Dppx,
}

/// The CSS name of a resolution unit.
pub open spec fn resolution_unit_name(u: ResolutionUnit) -> Seq<char> {
    match u {
        ResolutionUnit::Dpi => "dpi"@,
        ResolutionUnit::Dpcm => "dpcm"@,
        ResolutionUnit::Dppx => "dppx"@,
    }
}

impl ResolutionUnit {
    /// The CSS name of the unit.
    pub fn name(&self) -> (s: &'static str)
        ensures
            s@ == resolution_unit_name(*self),
    {
        match self {
            ResolutionUnit::Dpi => "dpi",
            ResolutionUnit::Dpcm => "dpcm",
            ResolutionUnit::Dppx => "dppx",
        }
    }
}

/// The units a time is given in.
#[derive(Clone, Copy, Debug, PartialEq, Eq)]
pub enum TimeUnit {
    Seconds,
    Milliseconds,
}

/// The CSS name of a time unit.
pub open spec fn time_unit_name(u: TimeUnit) -> Seq<char> {
    match u {
        TimeUnit::Seconds => "s"@,
        TimeUnit::Milliseconds => "ms"@,
    }
}

impl TimeUnit {
    /// The CSS name of the unit.
    pub fn name(&self) -> (s: &'static str)
        ensures
            s@ == time_unit_name(*self),
    {
        match self {
            TimeUnit::Seconds => "s",
            TimeUnit::Milliseconds => "ms",
        }
    }
}

/// The message for CSS text that does not parse as the named kind of value.
pub open spec fn parse_failure_text(kind_name: Seq<char>, css: Seq<char>, detail: Seq<char>) -> Seq<char> {
    "Failed to parse "@ + kind_name + " from '"@ + css + "': "@ + detail
}

/// Writes the message for CSS text that does not parse as the named kind of
/// value, with the parser's own description.
pub fn parse_failure_message(kind_name: &str, css: &str, detail: &str) -> (m: String)
    ensures
        m@ == parse_failure_text(kind_name@, css@, detail@),
{
    let mut m = String::from_str("Failed to parse ");
    m.append(kind_name);
    m.append(" from '");
    m.append(css);
    m.append("': ");
    m.append(detail);
    m
}

/// Law: the representations of different kinds of CSS text start with
/// different names, so a value's kind can be read back from its
/// representation.
pub proof fn lemma_css_text_kind_names_distinct(a: CssTextKind, b: CssTextKind)
    requires
        a != b,
    ensures
        css_text_kind_name(a) != css_text_kind_name(b),
{
    reveal_strlit("PyImage");
    reveal_strlit("PySelector");
    reveal_strlit("PyMediaQuery");
    reveal_strlit("PySupportsCondition");
    reveal_strlit("PyCssRule");
    reveal_strlit("PyProperty");
    reveal_strlit("PyTokenOrValue");
    let na = css_text_kind_name(a);
    let nb = css_text_kind_name(b);
    if na.len() == nb.len() {
        assert(na[2] != nb[2] || na[3] != nb[3]);
    }
}

/// Law: every CSS text kind's representation names its class: `Py` followed
/// by the kind.
pub proof fn lemma_css_text_kind_names(k: CssTextKind)
    ensures
        css_text_kind_name(k) == match k {
            CssTextKind::Image => seq!['P', 'y'] + "Image"@,
            CssTextKind::Selector => seq!['P', 'y'] + "Selector"@,
            CssTextKind::MediaQuery => seq!['P', 'y'] + "MediaQuery"@,
            CssTextKind::SupportsCondition => seq!['P', 'y'] + "SupportsCondition"@,
            CssTextKind::CssRule => seq!['P', 'y'] + "CssRule"@,
            CssTextKind::Property => seq!['P', 'y'] + "Property"@,
            CssTextKind::TokenOrValue => seq!['P', 'y'] + "TokenOrValue"@,
        },
{
    reveal_strlit("PyImage");
    reveal_strlit("PySelector");
    reveal_strlit("PyMediaQuery");
    reveal_strlit("PySupportsCondition");
    reveal_strlit("PyCssRule");
    reveal_strlit("PyProperty");
    reveal_strlit("PyTokenOrValue");
    reveal_strlit("Image");
    reveal_strlit("Selector");
    reveal_strlit("MediaQuery");
    reveal_strlit("SupportsCondition");
    reveal_strlit("CssRule");
    reveal_strlit("Property");
    reveal_strlit("TokenOrValue");
    assert(css_text_kind_name(k) =~= match k {
        CssTextKind::Image => seq!['P', 'y'] + "Image"@,
        CssTextKind::Selector => seq!['P', 'y'] + "Selector"@,
        CssTextKind::MediaQuery => seq!['P', 'y'] + "MediaQuery"@,
        CssTextKind::SupportsCondition => seq!['P', 'y'] + "SupportsCondition"@,
        CssTextKind::CssRule => seq!['P', 'y'] + "CssRule"@,
        CssTextKind::Property => seq!['P', 'y'] + "Property"@,
        CssTextKind::TokenOrValue => seq!['P', 'y'] + "TokenOrValue"@,
    });
}

} // verus!
