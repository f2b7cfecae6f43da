use python_lightningcss::visit::{
    branch_action, leaf_action, not_initialized_message, BranchAction, CallPlan, CallbackOutcome, LeafAction,
    PyVisitor, KNOWN_VISIT_TYPES,
};

const URLS: u32 = 1 << 2;
const COLORS: u32 = 1 << 3;

#[test]
fn fresh_visitor_visits_nothing() {
    let v = PyVisitor::new();
    assert_eq!(v.visit_types(), 0);
    assert!(!v.wants(URLS));
    assert_eq!(v.plan(URLS, true), CallPlan::Skip);
}

#[test]
fn init_keeps_known_kinds_only() {
    let mut v = PyVisitor::new();
    v.init(URLS | COLORS | (1 << 25));
    assert_eq!(v.visit_types(), URLS | COLORS);
    assert!(v.wants(URLS));
    assert!(v.wants(COLORS));
    assert!(!v.wants(1 << 25));
    v.init(u32::MAX);
    assert_eq!(v.visit_types(), KNOWN_VISIT_TYPES);
}

#[test]
fn plan_follows_flags_and_initialization() {
    let mut v = PyVisitor::new();
    v.init(URLS);
    assert_eq!(v.plan(URLS, true), CallPlan::Call);
    assert_eq!(v.plan(URLS, false), CallPlan::NotInitialized);
    assert_eq!(v.plan(COLORS, false), CallPlan::Skip);
    assert_eq!(not_initialized_message(), "Visitor is not initialized");
}

#[test]
fn leaf_callbacks_replace_only_on_returned_value() {
    assert!(matches!(leaf_action::<u8, &str>(CallbackOutcome::Missing), LeafAction::Keep));
    assert!(matches!(leaf_action::<u8, &str>(CallbackOutcome::ReturnedNone), LeafAction::Keep));
    assert!(matches!(leaf_action::<u8, &str>(CallbackOutcome::Returned(7)), LeafAction::Replace(7)));
    assert!(matches!(leaf_action::<u8, &str>(CallbackOutcome::Raised("boom")), LeafAction::Fail("boom")));
}

#[test]
fn branch_callbacks_ignore_return_values() {
    assert!(matches!(branch_action::<u8, &str>(CallbackOutcome::Returned(7)), BranchAction::Continue));
    assert!(matches!(branch_action::<u8, &str>(CallbackOutcome::ReturnedNone), BranchAction::Continue));
    assert!(matches!(branch_action::<u8, &str>(CallbackOutcome::Missing), BranchAction::Continue));
    assert!(matches!(branch_action::<u8, &str>(CallbackOutcome::Raised("boom")), BranchAction::Fail("boom")));
}
