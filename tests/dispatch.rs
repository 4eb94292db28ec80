use wasmer_api::dispatch::{collect_results, is_fatal, prepare_arguments, CallError, FunctionSignature, Trap, TrapKind};
use wasmer_api::values::{ConversionError, HostValue, ValueKind, WasmValue};

fn sum_sig() -> FunctionSignature {
    FunctionSignature { params: vec![ValueKind::I32, ValueKind::I32], results: vec![ValueKind::I32] }
}

#[test]
fn wrong_arity_is_refused() {
    let sig = sum_sig();
    assert_eq!(
        prepare_arguments(&sig, vec![HostValue::Int(1)], 0),
        Err(CallError::Arity { expected: 2, given: 1 })
    );
    assert_eq!(
        prepare_arguments(&sig, vec![HostValue::Int(1), HostValue::Int(2), HostValue::Int(3)], 0),
        Err(CallError::Arity { expected: 2, given: 3 })
    );
}

#[test]
fn arguments_convert_in_order() {
    let sig = sum_sig();
    assert_eq!(
        prepare_arguments(&sig, vec![HostValue::Int(1), HostValue::Int(2)], 0),
        Ok(vec![WasmValue::I32(1), WasmValue::I32(2)])
    );
}

#[test]
fn first_bad_argument_aborts() {
    let sig = sum_sig();
    assert_eq!(
        prepare_arguments(&sig, vec![HostValue::Int(1), HostValue::Float64(0)], 0),
        Err(CallError::Conversion { index: 1, error: ConversionError::KindMismatch })
    );
    assert_eq!(
        prepare_arguments(&sig, vec![HostValue::Int(1 << 40), HostValue::Float64(0)], 0),
        Err(CallError::Conversion { index: 0, error: ConversionError::Range })
    );
}

#[test]
fn results_of_any_arity() {
    let none = FunctionSignature { params: vec![], results: vec![] };
    assert_eq!(collect_results(&none, Ok(vec![])), Ok(vec![]));
    let two = FunctionSignature { params: vec![], results: vec![ValueKind::I64, ValueKind::I32] };
    assert_eq!(
        collect_results(&two, Ok(vec![WasmValue::I64(-3), WasmValue::I32(4)])),
        Ok(vec![HostValue::Int(-3), HostValue::Int(4)])
    );
    assert_eq!(collect_results(&sum_sig(), Ok(vec![WasmValue::I32(3)])), Ok(vec![HostValue::Int(3)]));
}

#[test]
fn mismatched_results_are_refused() {
    assert_eq!(collect_results(&sum_sig(), Ok(vec![WasmValue::I64(3)])), Err(CallError::ResultMismatch));
    assert_eq!(collect_results(&sum_sig(), Ok(vec![])), Err(CallError::ResultMismatch));
}

#[test]
fn traps_are_reported() {
    let t = Trap { kind: TrapKind::IntegerDivisionByZero, message: "integer divide by zero".to_string() };
    assert_eq!(collect_results(&sum_sig(), Err(t.clone())), Err(CallError::Trap(t)));
    assert!(is_fatal(TrapKind::StackOverflow));
    assert!(!is_fatal(TrapKind::Unreachable));
}
