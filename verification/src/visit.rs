//! The decisions of a visitor that hands stylesheet values to callbacks:
//! which values it asks for, whether a callback is made, and what the
//! callback's outcome does to the value and to the traversal.
use vstd::prelude::*;
use lightningcss::visitor::VisitTypes;

verus! {

/// Every kind of value a visitor can ask for: the bits of the nineteen
/// flags of lightningcss's `VisitTypes`, from rules (bit 0) to tokens
/// (bit 18).
pub const KNOWN_VISIT_TYPES: u32 = 0x7ffff;

/// `VisitTypes::from_bits_truncate` of lightningcss, read back as bits: its
/// source declares the nineteen flags `RULES` (1 << 0) through
/// `TOKENS` (1 << 18) and keeps exactly their bits.
#[verifier::external_body]
fn truncate_visit_types(bits: u32) -> (known: u32)
    ensures
        known == bits & KNOWN_VISIT_TYPES,
{
    VisitTypes::from_bits_truncate(bits).bits()
}

/// A visitor's choice of the kinds of values it visits, as flag bits.
pub struct PyVisitor {
    pub visit_types: u32,
}

/// Whether a visitor with the given flag bits visits the values of `flag`.
pub open spec fn visits(visit_types: u32, flag: u32) -> bool {
    visit_types & flag == flag
}

/// Whether a callback is made for a value.
#[derive(Clone, Copy, Debug, PartialEq, Eq)]
pub enum CallPlan {
    /// The visitor does not visit this kind of value: no callback.
    Skip,
    /// Make the callback.
    Call,
    /// The visitor visits this kind of value but has no object to call back.
    NotInitialized,
}

/// What a callback did.
pub enum CallbackOutcome<T, E> {
    /// The callback object has no method for this kind of value.
    Missing,
    /// The method raised an error.
    Raised(E),
    /// The method returned nothing.
    ReturnedNone,
    /// The method returned a value.
    Returned(T),
}

/// What happens to a leaf value (a url, color, length, angle, ratio,
/// resolution, time, custom or dashed identifier) after its callback.
pub enum LeafAction<T, E> {
    /// The value stays as it is.
    Keep,
    /// The value is replaced by the one returned.
    Replace(T),
    /// Visiting fails with the error.
    Fail(E),
}

/// What happens after the callback for a branch value (a rule, property,
/// image, variable, media query, selector, ...): its return value is ignored.
pub enum BranchAction<E> {
    /// Traversal goes on into the value's children.
    Continue,
    /// Visiting fails with the error.
    Fail(E),
}

impl PyVisitor {
    /// A visitor that visits nothing until it is initialized.
    pub fn new() -> (v: PyVisitor)
        ensures
            v.visit_types == 0,
    {
        PyVisitor { visit_types: 0 }
    }

    /// Initializes the visitor with the kinds of values to visit; bits that
    /// name no kind are dropped.
    pub fn init(&mut self, visit_types: u32)
        ensures
            final(self).visit_types == visit_types & KNOWN_VISIT_TYPES,
    {
        self.visit_types = truncate_visit_types(visit_types);
    }

    /// The kinds of values visited.
    pub fn visit_types(&self) -> (t: u32)
        ensures
            t == self.visit_types,
    {
        self.visit_types
    }

    /// Whether the values of `flag` are visited.
    pub fn wants(&self, flag: u32) -> (w: bool)
        ensures
            w == visits(self.visit_types, flag),
    {
        self.visit_types & flag == flag
    }

    /// Whether to call back for a value of `flag`, given whether the
    /// visitor has an object to call.
    pub fn plan(&self, flag: u32, initialized: bool) -> (p: CallPlan)
        ensures
            p == (if !visits(self.visit_types, flag) {
                CallPlan::Skip
            } else if !initialized {
                CallPlan::NotInitialized
            } else {
                CallPlan::Call
            }),
    {
        if !self.wants(flag) {
            CallPlan::Skip
        } else if !initialized {
            CallPlan::NotInitialized
        } else {
            CallPlan::Call
        }
    }
}

/// The message of the failure when a visitor has no object to call back.
pub fn not_initialized_message() -> (m: &'static str)
    ensures
        m@ == "Visitor is not initialized"@,
{
    "Visitor is not initialized"
}

/// The effect of a leaf callback: a missing method or a returned nothing
/// leaves the value as it is, a returned value replaces it, a raised error
/// fails the visit.
pub fn leaf_action<T, E>(outcome: CallbackOutcome<T, E>) -> (a: LeafAction<T, E>)
    ensures
        match outcome {
            CallbackOutcome::Missing => a is Keep,
            CallbackOutcome::ReturnedNone => a is Keep,
            CallbackOutcome::Returned(v) => a matches LeafAction::Replace(w) && w == v,
            CallbackOutcome::Raised(e) => a matches LeafAction::Fail(f) && f == e,
        },
{
    match outcome {
        CallbackOutcome::Missing => LeafAction::Keep,
        CallbackOutcome::ReturnedNone => LeafAction::Keep,
        CallbackOutcome::Returned(v) => LeafAction::Replace(v),
        CallbackOutcome::Raised(e) => LeafAction::Fail(e),
    }
}

/// The effect of a branch callback: only a raised error matters; whatever
/// is returned is ignored and traversal continues.
pub fn branch_action<T, E>(outcome: CallbackOutcome<T, E>) -> (a: BranchAction<E>)
    ensures
        match outcome {
            CallbackOutcome::Raised(e) => a matches BranchAction::Fail(f) && f == e,
            _ => a is Continue,
        },
{
    match outcome {
        CallbackOutcome::Raised(e) => BranchAction::Fail(e),
        _ => BranchAction::Continue,
    }
}

/// Law: a visitor that was never initialized visits no kind of value, so it
/// makes no callback and changes nothing.
pub proof fn lemma_fresh_visitor_skips(flag: u32)
    requires
        flag != 0,
    ensures
        !visits(0, flag),
{
    assert(0u32 & flag != flag) by (bit_vector)
        requires
            flag != 0,
    ;
}

/// Law: an initialized visitor visits only kinds of values that exist; a
/// flag outside them is never visited.
pub proof fn lemma_only_known_kinds_visited(bits: u32, flag: u32)
    requires
        flag & KNOWN_VISIT_TYPES != flag,
    ensures
        !visits(bits & KNOWN_VISIT_TYPES, flag),
{
    assert((bits & 0x7ffffu32) & flag != flag) by (bit_vector)
        requires
            flag & 0x7ffffu32 != flag,
    ;
}

/// Law: a visitor initialized with flag bits `bits` visits every kind it
/// asked for: each known flag whose bits all lie in `bits`, rules (bit 0)
/// included.
pub proof fn lemma_requested_kinds_visited(bits: u32, flag: u32)
    requires
        flag & KNOWN_VISIT_TYPES == flag,
        bits & flag == flag,
    ensures
        visits(bits & KNOWN_VISIT_TYPES, flag),
{
    assert((bits & 0x7ffffu32) & flag == flag) by (bit_vector)
        requires
            flag & 0x7ffffu32 == flag,
            bits & flag == flag,
    ;
}

/// Law: a visitor visits a kind only if it asked for it: every bit of a
/// visited flag lies in the visitor's flag bits.
pub proof fn lemma_visited_kinds_requested(bits: u32, flag: u32, bit: u32)
    requires
        visits(bits, flag),
        bit < 32,
        flag & (1u32 << bit) != 0,
    ensures
        bits & (1u32 << bit) != 0,
{
    assert(bits & (1u32 << bit) != 0) by (bit_vector)
        requires
            bits & flag == flag,
            bit < 32,
            flag & (1u32 << bit) != 0,
    ;
}

/// Law: each single kind of value is visited exactly when its bit is among
/// the visitor's flag bits.
pub proof fn lemma_single_kind_visited(bits: u32, bit: u32)
    requires
        bit < 32,
    ensures
        visits(bits, 1u32 << bit) <==> bits & (1u32 << bit) != 0,
{
    assert((bits & (1u32 << bit) == (1u32 << bit)) <==> bits & (1u32 << bit) != 0) by (bit_vector)
        requires
            bit < 32,
    ;
}

} // verus!
