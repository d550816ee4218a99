//! Tests of the result marshaller and the no-change probe.

use std::rc::Rc;
use vtab_adapter::marshal::{marshal, ResultAction, ResultContext, Value};

#[test]
fn null_integer_real_pass_through() {
    assert!(matches!(marshal(Value::Null, 0), ResultAction::SetNull));
    assert!(matches!(
        marshal(Value::Integer(-42), 0),
        ResultAction::SetInteger(-42)
    ));
    let bits = f64::to_bits(2.5);
    match marshal(Value::Real(bits), 0) {
        ResultAction::SetReal(b) => assert_eq!(f64::from_bits(b), 2.5),
        _ => panic!("real value must pass through as its bit pattern"),
    }
}

#[test]
fn text_round_trips_byte_identical() {
    let payload = b"hello engine".to_vec();
    match marshal(Value::Text(payload.clone()), 0) {
        ResultAction::SetText(b) => assert_eq!(b, payload),
        _ => panic!("in-range text must be written as text"),
    }
}

#[test]
fn text_with_embedded_nul_reports_misuse() {
    let payload = vec![b'a', 0u8, b'b'];
    assert!(matches!(
        marshal(Value::Text(payload), 0),
        ResultAction::SetErrorMisuse
    ));
}

#[test]
fn blob_round_trips_byte_identical() {
    let payload = vec![0u8, 1, 2, 255];
    match marshal(Value::Blob(payload.clone()), 0) {
        ResultAction::SetBlob(b) => assert_eq!(b, payload),
        _ => panic!("in-range blob must be written as a blob"),
    }
}

#[test]
fn empty_blob_becomes_zero_length_allocation() {
    assert!(matches!(
        marshal(Value::Blob(Vec::new()), 0),
        ResultAction::SetZeroBlob(0)
    ));
}

#[test]
fn zero_blob_passes_length_through() {
    assert!(matches!(
        marshal(Value::ZeroBlob(4096), 0),
        ResultAction::SetZeroBlob(4096)
    ));
}

#[test]
fn argument_alias_is_zero_copy() {
    assert!(matches!(marshal(Value::Arg(2), 3), ResultAction::SetArgAlias(2)));
}

#[test]
fn pointer_payload_is_shared_not_copied() {
    let payload = Rc::new(vec![7i64, 8, 9]);
    match marshal(Value::Pointer(Rc::clone(&payload)), 0) {
        ResultAction::SetPointer(p) => {
            assert!(Rc::ptr_eq(&p, &payload));
            assert_eq!(*p, vec![7i64, 8, 9]);
        }
        _ => panic!("a pointer value must be handed through as a pointer"),
    }
}

#[test]
fn context_records_exactly_one_write() {
    let mut ctx = ResultContext::new(0, false);
    assert!(ctx.slot.is_none());
    ctx.set_result(Value::Integer(5));
    assert!(matches!(ctx.slot, Some(ResultAction::SetInteger(5))));
}

#[test]
fn no_change_probe_reads_engine_signal() {
    let ctx = ResultContext::new(0, true);
    assert!(ctx.no_change());
    let ctx = ResultContext::new(0, false);
    assert!(!ctx.no_change());
}
