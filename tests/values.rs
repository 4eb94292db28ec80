use wasmer_api::values::{from_wasm, to_wasm, ConversionError, Handle, HostValue, ValueKind, WasmValue};

#[test]
fn int_round_trip_i32_edges() {
    for v in [0i128, 1, -1, 2147483647, -2147483648] {
        let w = to_wasm(HostValue::Int(v), ValueKind::I32, 0).unwrap();
        assert_eq!(from_wasm(w), HostValue::Int(v));
    }
}

#[test]
fn int_round_trip_i64_edges() {
    for v in [0i128, 9223372036854775807, -9223372036854775808, 2147483648] {
        let w = to_wasm(HostValue::Int(v), ValueKind::I64, 0).unwrap();
        assert_eq!(from_wasm(w), HostValue::Int(v));
    }
}

#[test]
fn int_exact_values() {
    assert_eq!(to_wasm(HostValue::Int(-5), ValueKind::I32, 0), Ok(WasmValue::I32(-5)));
    assert_eq!(to_wasm(HostValue::Int(1 << 40), ValueKind::I64, 0), Ok(WasmValue::I64(1 << 40)));
}

#[test]
fn int_out_of_range_is_range_error() {
    assert_eq!(to_wasm(HostValue::Int(2147483648), ValueKind::I32, 0), Err(ConversionError::Range));
    assert_eq!(to_wasm(HostValue::Int(-2147483649), ValueKind::I32, 0), Err(ConversionError::Range));
    assert_eq!(
        to_wasm(HostValue::Int(9223372036854775808), ValueKind::I64, 0),
        Err(ConversionError::Range)
    );
    assert_eq!(
        to_wasm(HostValue::Int(-9223372036854775809), ValueKind::I64, 0),
        Err(ConversionError::Range)
    );
}

#[test]
fn float_never_becomes_int() {
    let bits32 = 1.5f32.to_bits();
    let bits64 = 1.5f64.to_bits();
    for kind in [ValueKind::I32, ValueKind::I64] {
        assert_eq!(to_wasm(HostValue::Float32(bits32), kind, 0), Err(ConversionError::KindMismatch));
        assert_eq!(to_wasm(HostValue::Float64(bits64), kind, 0), Err(ConversionError::KindMismatch));
    }
}

#[test]
fn int_never_becomes_float() {
    assert_eq!(to_wasm(HostValue::Int(1), ValueKind::F64, 0), Err(ConversionError::KindMismatch));
    assert_eq!(to_wasm(HostValue::Int(1), ValueKind::F32, 0), Err(ConversionError::KindMismatch));
}

#[test]
fn floats_keep_their_bits() {
    let b = 2.25f64.to_bits();
    let w = to_wasm(HostValue::Float64(b), ValueKind::F64, 0).unwrap();
    assert_eq!(w, WasmValue::F64(b));
    assert_eq!(from_wasm(w), HostValue::Float64(b));
    let s = 0.5f32.to_bits();
    assert_eq!(to_wasm(HostValue::Float32(s), ValueKind::F32, 0), Ok(WasmValue::F32(s)));
}

#[test]
fn vector_needs_sixteen_bytes() {
    let ok: Vec<u8> = (0u8..16).collect();
    assert_eq!(to_wasm(HostValue::Bytes(ok.clone()), ValueKind::V128, 0), Ok(WasmValue::V128(ok)));
    assert_eq!(to_wasm(HostValue::Bytes(vec![0; 15]), ValueKind::V128, 0), Err(ConversionError::Shape));
    assert_eq!(to_wasm(HostValue::Bytes(vec![0; 17]), ValueKind::V128, 0), Err(ConversionError::Shape));
}

#[test]
fn references_need_matching_store_and_kind() {
    let h = Handle { store: 7, index: 3 };
    assert_eq!(to_wasm(HostValue::Function(h), ValueKind::FuncRef, 7), Ok(WasmValue::FuncRef(h)));
    assert_eq!(to_wasm(HostValue::Function(h), ValueKind::FuncRef, 8), Err(ConversionError::KindMismatch));
    assert_eq!(to_wasm(HostValue::Function(h), ValueKind::ExternRef, 7), Err(ConversionError::KindMismatch));
    assert_eq!(to_wasm(HostValue::External(h), ValueKind::ExternRef, 7), Ok(WasmValue::ExternRef(h)));
    assert_eq!(to_wasm(HostValue::Object, ValueKind::ExternRef, 7), Err(ConversionError::KindMismatch));
    assert_eq!(from_wasm(WasmValue::ExternRef(h)), HostValue::External(h));
}
