//! Tests of the constraint/usage negotiator and the shared-reference
//! accounting.

use vtab_adapter::plan::{ConstraintInfo, IndexInfo};
use vtab_adapter::refcount::StrongCount;

fn two_constraints() -> Vec<ConstraintInfo> {
    vec![
        ConstraintInfo {
            column: 0,
            operator: 2,
            is_in_list: false,
        },
        ConstraintInfo {
            column: 1,
            operator: 2,
            is_in_list: true,
        },
    ]
}

#[test]
fn fresh_plan_requests_nothing() {
    let info = IndexInfo::new(two_constraints(), 0);
    assert_eq!(info.constraint_count(), 2);
    for i in 0..2 {
        let u = info.usage(i);
        assert_eq!(u.argv_index, 0);
        assert!(!u.omit);
        assert!(!info.in_constraint_enabled(i));
    }
}

#[test]
fn usage_mutations_are_recorded_exactly() {
    let mut info = IndexInfo::new(two_constraints(), 0);
    assert!(!info.has_in_constraint(0));
    assert!(info.has_in_constraint(1));

    info.handle_in_constraint(1, true);
    info.set_argv_index(1, 1);
    info.set_omit(1, true);
    info.set_estimated_cost_bits(f64::to_bits(1.0));

    assert!(info.in_constraint_enabled(1));
    let u = info.usage(1);
    assert_eq!(u.argv_index, 1);
    assert!(u.omit);
    assert_eq!(f64::from_bits(info.estimated_cost_bits()), 1.0);

    // The untouched slot stays "not requested".
    let u0 = info.usage(0);
    assert_eq!(u0.argv_index, 0);
    assert!(!u0.omit);
}

#[test]
fn repeating_a_usage_mutation_keeps_the_plan() {
    let mut once = IndexInfo::new(two_constraints(), 0);
    once.handle_in_constraint(1, true);
    once.set_argv_index(1, 1);
    once.set_omit(1, true);

    let mut twice = IndexInfo::new(two_constraints(), 0);
    for _ in 0..2 {
        twice.handle_in_constraint(1, true);
        twice.set_argv_index(1, 1);
        twice.set_omit(1, true);
    }

    for i in 0..2 {
        assert_eq!(once.usage(i).argv_index, twice.usage(i).argv_index);
        assert_eq!(once.usage(i).omit, twice.usage(i).omit);
        assert_eq!(once.in_constraint_enabled(i), twice.in_constraint_enabled(i));
    }
    assert_eq!(once.estimated_cost_bits(), twice.estimated_cost_bits());
}

#[test]
fn destructor_releases_exactly_once_per_reference() {
    let mut count = StrongCount::new();
    assert_eq!(count.refs, 1);

    // Marshalling hands the engine one strong reference.
    count.retain();
    assert_eq!(count.refs, 2);

    // The engine's destructor releases it exactly once: the creator's
    // reference keeps the payload alive.
    let freed = count.release();
    assert!(!freed);
    assert_eq!(count.refs, 1);

    // Only the release of the last reference reclaims the payload.
    let freed = count.release();
    assert!(freed);
    assert_eq!(count.refs, 0);
}
