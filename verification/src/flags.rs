//! Parser feature flags: building the flag byte from named switches and
//! reducing an arbitrary byte to the flags the parser knows.
use vstd::prelude::*;
use lightningcss::stylesheet::ParserFlags;

verus! {

/// Enables the CSS nesting syntax.
pub const NESTING: u8 = 1;

/// Enables the custom media query syntax.
pub const CUSTOM_MEDIA: u8 = 2;

/// Enables the non-standard `>>>` and `/deep/` selector combinators.
pub const DEEP_SELECTOR_COMBINATOR: u8 = 4;

/// Every flag bit the parser knows: the three above and the parser's
/// scroll navigation controls flag.
pub const KNOWN_PARSER_FLAGS: u8 = 15;

/// The flag byte that the three switches select.
pub open spec fn parser_flags_of(nesting: bool, custom_media: bool, deep_selector_combinator: bool) -> u8 {
    ((if nesting { 1u8 } else { 0u8 }) | (if custom_media { 2u8 } else { 0u8 }) | (if deep_selector_combinator {
        4u8
    } else {
        0u8
    })) as u8
}

/// Combines the parser switches into the flag byte taken by
/// `process_stylesheet` and `bundle_css`.
pub fn calc_parser_flags(nesting: bool, custom_media: bool, deep_selector_combinator: bool) -> (flags: u8)
    ensures
        flags == parser_flags_of(nesting, custom_media, deep_selector_combinator),
        (flags & NESTING == NESTING) == nesting,
        (flags & CUSTOM_MEDIA == CUSTOM_MEDIA) == custom_media,
        (flags & DEEP_SELECTOR_COMBINATOR == DEEP_SELECTOR_COMBINATOR) == deep_selector_combinator,
        flags < 8,
{
    let nesting_bit: u8 = if nesting { NESTING } else { 0 };
    let custom_media_bit: u8 = if custom_media { CUSTOM_MEDIA } else { 0 };
    let deep_bit: u8 = if deep_selector_combinator { DEEP_SELECTOR_COMBINATOR } else { 0 };
    let flags: u8 = nesting_bit | custom_media_bit | deep_bit;
    proof {
        lemma_flag_bits(nesting, custom_media, deep_selector_combinator);
    }
    flags
}

proof fn lemma_flag_bits(nesting: bool, custom_media: bool, deep_selector_combinator: bool)
    ensures
        ({
            let f = parser_flags_of(nesting, custom_media, deep_selector_combinator);
            &&& (f & 1u8 == 1u8) == nesting
            &&& (f & 2u8 == 2u8) == custom_media
            &&& (f & 4u8 == 4u8) == deep_selector_combinator
            &&& f < 8
        }),
{
    let a: u8 = if nesting { 1u8 } else { 0u8 };
    let b: u8 = if custom_media { 2u8 } else { 0u8 };
    let c: u8 = if deep_selector_combinator { 4u8 } else { 0u8 };
    assert(((a | b | c) & 1u8 == 1u8) == (a == 1u8) && ((a | b | c) & 2u8 == 2u8) == (b == 2u8)
        && ((a | b | c) & 4u8 == 4u8) == (c == 4u8) && (a | b | c) < 8) by (bit_vector)
        requires
            a == 0 || a == 1,
            b == 0 || b == 2,
            c == 0 || c == 4,
    ;
}

/// `ParserFlags::from_bits_truncate` of lightningcss, read back as a byte:
/// its source keeps exactly the bits of the four flags it declares
/// (`NESTING`, `CUSTOM_MEDIA`, `DEEP_SELECTOR_COMBINATOR`,
/// `SCROLL_NAVIGATION_CONTROLS`, the bits of 15) and drops the others.
#[verifier::external_body]
fn truncate_parser_flags(bits: u8) -> (known: u8)
    ensures
        known == bits & KNOWN_PARSER_FLAGS,
{
    ParserFlags::from_bits_truncate(bits).bits()
}

/// Reduces a caller-supplied flag byte to the flags the parser knows,
/// dropping unknown bits as the parser does.
pub fn known_parser_flags(parser_flags: u8) -> (flags: u8)
    ensures
        flags == parser_flags & KNOWN_PARSER_FLAGS,
        flags <= parser_flags,
        flags < 16,
{
    let flags = truncate_parser_flags(parser_flags);
    assert((parser_flags & 15u8) <= parser_flags && (parser_flags & 15u8) < 16) by (bit_vector);
    flags
}

/// Law: every byte built by `calc_parser_flags` passes the parser's
/// truncation unchanged, so no switch is lost on the way to the parser.
pub proof fn lemma_calc_flags_are_known(nesting: bool, custom_media: bool, deep_selector_combinator: bool)
    ensures
        parser_flags_of(nesting, custom_media, deep_selector_combinator) & KNOWN_PARSER_FLAGS
            == parser_flags_of(nesting, custom_media, deep_selector_combinator),
{
    lemma_flag_bits(nesting, custom_media, deep_selector_combinator);
    let f = parser_flags_of(nesting, custom_media, deep_selector_combinator);
    assert(f & 15u8 == f) by (bit_vector)
        requires
            f < 8,
    ;
}

} // verus!
