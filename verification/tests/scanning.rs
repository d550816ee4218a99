//! Tests of the value streams, the cursor state machine, and the full
//! plan-then-scan scenario.

use vtab_adapter::marshal::{ResultAction, ResultContext};
use vtab_adapter::plan::{ConstraintInfo, IndexInfo};
use vtab_adapter::stream::{collect_values, ValueStream};
use vtab_adapter::vtab::{FilterArg, FilterArgs, RowIdTable};

#[test]
fn stream_yields_each_value_once_in_order() {
    let mut s = ValueStream::new(vec![0, 1, 2]);
    assert_eq!(s.next(), Some(0));
    assert_eq!(s.next(), Some(1));
    assert_eq!(s.next(), Some(2));
    assert_eq!(s.next(), None);
    // One pass, not restartable: the stream stays exhausted.
    assert_eq!(s.next(), None);
}

#[test]
fn draining_a_stream_observes_exactly_its_sequence() {
    let mut s = ValueStream::new(vec![0, 1, 2]);
    assert_eq!(collect_values(&mut s), vec![0, 1, 2]);
    assert_eq!(s.remaining_len(), 0);
}

#[test]
fn connect_declares_the_fixed_schema() {
    let (schema, table) = RowIdTable::connect(&Vec::new()).unwrap();
    assert_eq!(schema, "CREATE TABLE x(value)");
    assert_eq!(table.row_count, 3);
}

#[test]
fn eof_is_false_on_every_row_and_true_after() {
    let table = RowIdTable::connect(&Vec::new()).unwrap().1;
    let mut cursor = table.open().unwrap();
    cursor
        .filter(0, None, FilterArgs { args: Vec::new() })
        .unwrap();
    for expected in 0..3i64 {
        assert!(!cursor.eof());
        assert_eq!(cursor.rowid().unwrap(), expected);
        cursor.next().unwrap();
    }
    assert!(cursor.eof());
}

#[test]
fn scan_with_membership_filter_yields_rows_in_order() {
    // The scenario end to end: plan a membership filter against {0,1,2},
    // then scan a table whose rowids are 0, 1 and 2.
    let (schema, table) = RowIdTable::connect(&Vec::new()).unwrap();
    assert_eq!(schema, "CREATE TABLE x(value)");

    let constraints = vec![ConstraintInfo {
        column: -1,
        operator: 2,
        is_in_list: true,
    }];
    let mut info = IndexInfo::new(constraints, f64::to_bits(25.0));
    table.best_index(&mut info).unwrap();
    assert!(info.in_constraint_enabled(0));
    assert_eq!(info.usage(0).argv_index, 1);
    assert!(info.usage(0).omit);
    assert_eq!(f64::from_bits(info.estimated_cost_bits()), 1.0);

    let mut cursor = table.open().unwrap();
    let args = FilterArgs {
        args: vec![FilterArg::List(ValueStream::new(vec![0, 1, 2]))],
    };
    cursor.filter(0, None, args).unwrap();

    let mut seen: Vec<i64> = Vec::new();
    while !cursor.eof() {
        let mut ctx = ResultContext::new(0, false);
        cursor.column(&mut ctx, 0).unwrap();
        let rowid = cursor.rowid().unwrap();
        match ctx.slot {
            Some(ResultAction::SetInteger(v)) => assert_eq!(v, rowid),
            _ => panic!("the single column must materialize as the rowid"),
        }
        seen.push(rowid);
        cursor.next().unwrap();
    }
    assert_eq!(seen, vec![0, 1, 2]);
}

#[test]
fn membership_filter_skips_rows_outside_the_set() {
    let table = RowIdTable::connect(&Vec::new()).unwrap().1;
    let mut cursor = table.open().unwrap();
    let args = FilterArgs {
        args: vec![FilterArg::List(ValueStream::new(vec![5, 1]))],
    };
    cursor.filter(0, None, args).unwrap();

    let mut seen: Vec<i64> = Vec::new();
    while !cursor.eof() {
        seen.push(cursor.rowid().unwrap());
        cursor.next().unwrap();
    }
    // Of {5, 1} only rowid 1 exists; 5 is out of range and never visited.
    assert_eq!(seen, vec![1]);
}

#[test]
fn empty_membership_set_yields_no_rows() {
    let table = RowIdTable::connect(&Vec::new()).unwrap().1;
    let mut cursor = table.open().unwrap();
    let args = FilterArgs {
        args: vec![FilterArg::List(ValueStream::new(Vec::new()))],
    };
    cursor.filter(0, None, args).unwrap();
    assert!(cursor.eof());
}

#[test]
fn refiltering_restarts_the_scan() {
    let table = RowIdTable::connect(&Vec::new()).unwrap().1;
    let mut cursor = table.open().unwrap();
    cursor
        .filter(0, None, FilterArgs { args: Vec::new() })
        .unwrap();
    cursor.next().unwrap();
    assert_eq!(cursor.rowid().unwrap(), 1);

    // A fresh `filter` call repositions the same cursor for a new scan.
    cursor
        .filter(0, None, FilterArgs { args: Vec::new() })
        .unwrap();
    assert_eq!(cursor.rowid().unwrap(), 0);
}

#[test]
fn two_membership_sets_both_restrict_the_scan() {
    let table = RowIdTable::connect(&Vec::new()).unwrap().1;
    let mut cursor = table.open().unwrap();
    let args = FilterArgs {
        args: vec![
            FilterArg::List(ValueStream::new(vec![0, 2])),
            FilterArg::List(ValueStream::new(vec![2, 1])),
        ],
    };
    cursor.filter(0, None, args).unwrap();

    let mut seen: Vec<i64> = Vec::new();
    while !cursor.eof() {
        seen.push(cursor.rowid().unwrap());
        cursor.next().unwrap();
    }
    // Only rowid 2 lies in both candidate lists.
    assert_eq!(seen, vec![2]);
}
