//! Conversion between host values and WebAssembly values.
//!
//! Every conversion is exact: an integer that does not fit the target kind is
//! rejected, never wrapped, and no value is coerced from one numeric kind to
//! another. Floating-point values are carried as their IEEE-754 bit patterns;
//! a change of precision is the host's business and happens before a value
//! reaches this layer.

use vstd::prelude::*;

verus! {

/// The value types of WebAssembly.
#[derive(Clone, Copy, Debug, PartialEq, Eq, Structural)]
pub enum ValueKind {
    I32,
    I64,
    F32,
    F64,
    V128,
    FuncRef,
    ExternRef,
}

/// A handle to a function or an external object, minted by the store
/// identified by `store`.
#[derive(Clone, Copy, Debug, PartialEq, Eq, Structural)]
pub struct Handle {
    pub store: u64,
    pub index: u32,
}

/// A WebAssembly value, tagged with its type.
#[derive(Clone, Debug, PartialEq, Eq)]
pub enum WasmValue {
    I32(i32),
    I64(i64),
    /// The bit pattern of a single-precision float.
    F32(u32),
    /// The bit pattern of a double-precision float.
    F64(u64),
    /// The sixteen bytes of a vector, in memory order.
    V128(Vec<u8>),
    FuncRef(Handle),
    ExternRef(Handle),
}

/// A value as the host sees it.
#[derive(Clone, Debug, PartialEq, Eq)]
pub enum HostValue {
    /// An integer of the host's unbounded kind, as far as this layer reads it.
    Int(i128),
    /// A single-precision float, by its bit pattern.
    Float32(u32),
    /// A double-precision float, by its bit pattern.
    Float64(u64),
    /// An opaque block of bytes.
    Bytes(Vec<u8>),
    /// A function handle handed out by a store.
    Function(Handle),
    /// An external reference handed out by a store.
    External(Handle),
    /// Any other host object.
    Object,
}

/// Why a host value could not become a WebAssembly value.
#[derive(Clone, Copy, Debug, PartialEq, Eq, Structural)]
pub enum ConversionError {
    /// The host value is of another kind than the slot it is bound to.
    KindMismatch,
    /// The integer does not fit the target kind.
    Range,
    /// A vector was not given as exactly sixteen bytes.
    Shape,
}

pub const I32_MIN: i128 = -0x8000_0000;
pub const I32_MAX: i128 = 0x7fff_ffff;
pub const I64_MIN: i128 = -0x8000_0000_0000_0000;
pub const I64_MAX: i128 = 0x7fff_ffff_ffff_ffff;
pub const V128_BYTES: usize = 16;

/// The kind tag of a WebAssembly value.
pub open spec fn kind_of(w: WasmValue) -> ValueKind {
    match w {
        WasmValue::I32(_) => ValueKind::I32,
        WasmValue::I64(_) => ValueKind::I64,
        WasmValue::F32(_) => ValueKind::F32,
        WasmValue::F64(_) => ValueKind::F64,
        WasmValue::V128(_) => ValueKind::V128,
        WasmValue::FuncRef(_) => ValueKind::FuncRef,
        WasmValue::ExternRef(_) => ValueKind::ExternRef,
    }
}

/// Whether `v` is representable in the integer kind `kind`.
pub open spec fn int_fits(v: int, kind: ValueKind) -> bool {
    match kind {
        ValueKind::I32 => I32_MIN <= v <= I32_MAX,
        ValueKind::I64 => I64_MIN <= v <= I64_MAX,
        _ => false,
    }
}

pub open spec fn is_int_kind(kind: ValueKind) -> bool {
    kind == ValueKind::I32 || kind == ValueKind::I64
}

/// What converting the host value `h` into a slot of kind `kind` gives, for
/// a runtime whose store is `store`.
pub open spec fn to_wasm_spec(h: HostValue, kind: ValueKind, store: u64) -> Result<
    WasmValue,
    ConversionError,
> {
    match (h, kind) {
        (HostValue::Int(v), ValueKind::I32) => if int_fits(v as int, kind) {
            Ok(WasmValue::I32(v as i32))
        } else {
            Err(ConversionError::Range)
        },
        (HostValue::Int(v), ValueKind::I64) => if int_fits(v as int, kind) {
            Ok(WasmValue::I64(v as i64))
        } else {
            Err(ConversionError::Range)
        },
        (HostValue::Float32(b), ValueKind::F32) => Ok(WasmValue::F32(b)),
        (HostValue::Float64(b), ValueKind::F64) => Ok(WasmValue::F64(b)),
        (HostValue::Bytes(b), ValueKind::V128) => if b@.len() == V128_BYTES {
            Ok(WasmValue::V128(b))
        } else {
            Err(ConversionError::Shape)
        },
        (HostValue::Function(hd), ValueKind::FuncRef) => if hd.store == store {
            Ok(WasmValue::FuncRef(hd))
        } else {
            Err(ConversionError::KindMismatch)
        },
        (HostValue::External(hd), ValueKind::ExternRef) => if hd.store == store {
            Ok(WasmValue::ExternRef(hd))
        } else {
            Err(ConversionError::KindMismatch)
        },
        _ => Err(ConversionError::KindMismatch),
    }
}

/// The host value that a WebAssembly value stands for.
pub open spec fn from_wasm_spec(w: WasmValue) -> HostValue {
    match w {
        WasmValue::I32(v) => HostValue::Int(v as i128),
        WasmValue::I64(v) => HostValue::Int(v as i128),
        WasmValue::F32(b) => HostValue::Float32(b),
        WasmValue::F64(b) => HostValue::Float64(b),
        WasmValue::V128(b) => HostValue::Bytes(b),
        WasmValue::FuncRef(hd) => HostValue::Function(hd),
        WasmValue::ExternRef(hd) => HostValue::External(hd),
    }
}

/// Converts a host value into a value for a slot of type `kind`.
///
/// Integers are range-checked against the target kind, vectors must be
/// sixteen bytes, and references must come from the store `store`.
pub fn to_wasm(h: HostValue, kind: ValueKind, store: u64) -> (r: Result<WasmValue, ConversionError>)
    ensures
        r == to_wasm_spec(h, kind, store),
        r matches Ok(w) ==> kind_of(w) == kind,
{
    match h {
        HostValue::Int(v) => {
            match kind {
                ValueKind::I32 => if I32_MIN <= v && v <= I32_MAX {
                    Ok(WasmValue::I32(v as i32))
                } else {
                    Err(ConversionError::Range)
                },
                ValueKind::I64 => if I64_MIN <= v && v <= I64_MAX {
                    Ok(WasmValue::I64(v as i64))
                } else {
                    Err(ConversionError::Range)
                },
                _ => Err(ConversionError::KindMismatch),
            }
        },
        HostValue::Float32(b) => match kind {
            ValueKind::F32 => Ok(WasmValue::F32(b)),
            _ => Err(ConversionError::KindMismatch),
        },
        HostValue::Float64(b) => match kind {
            ValueKind::F64 => Ok(WasmValue::F64(b)),
            _ => Err(ConversionError::KindMismatch),
        },
        HostValue::Bytes(b) => match kind {
            ValueKind::V128 => if b.len() == V128_BYTES {
                Ok(WasmValue::V128(b))
            } else {
                Err(ConversionError::Shape)
            },
            _ => Err(ConversionError::KindMismatch),
        },
        HostValue::Function(hd) => match kind {
            ValueKind::FuncRef => if hd.store == store {
                Ok(WasmValue::FuncRef(hd))
            } else {
                Err(ConversionError::KindMismatch)
            },
            _ => Err(ConversionError::KindMismatch),
        },
        HostValue::External(hd) => match kind {
            ValueKind::ExternRef => if hd.store == store {
                Ok(WasmValue::ExternRef(hd))
            } else {
                Err(ConversionError::KindMismatch)
            },
            _ => Err(ConversionError::KindMismatch),
        },
        HostValue::Object => Err(ConversionError::KindMismatch),
    }
}

/// Converts a WebAssembly value back into the host value it stands for.
pub fn from_wasm(w: WasmValue) -> (r: HostValue)
    ensures
        r == from_wasm_spec(w),
{
    match w {
        WasmValue::I32(v) => HostValue::Int(v as i128),
        WasmValue::I64(v) => HostValue::Int(v as i128),
        WasmValue::F32(b) => HostValue::Float32(b),
        WasmValue::F64(b) => HostValue::Float64(b),
        WasmValue::V128(b) => HostValue::Bytes(b),
        WasmValue::FuncRef(hd) => HostValue::Function(hd),
        WasmValue::ExternRef(hd) => HostValue::External(hd),
    }
}

/// An integer that fits an integer kind comes back unchanged from a round
/// trip through that kind.
pub proof fn lemma_int_round_trip(v: i128, kind: ValueKind, store: u64)
    requires
        is_int_kind(kind),
        int_fits(v as int, kind),
    ensures
        to_wasm_spec(HostValue::Int(v), kind, store) matches Ok(w)
            && from_wasm_spec(w) == HostValue::Int(v),
{
}

/// An integer outside an integer kind's range is refused with a range error,
/// and nothing else comes of the conversion.
pub proof fn lemma_int_out_of_range(v: i128, kind: ValueKind, store: u64)
    requires
        is_int_kind(kind),
        !int_fits(v as int, kind),
    ensures
        to_wasm_spec(HostValue::Int(v), kind, store) == Err::<WasmValue, ConversionError>(
            ConversionError::Range,
        ),
{
}

/// A float, of either precision, never becomes an integer.
pub proof fn lemma_float_to_int_refused(h: HostValue, kind: ValueKind, store: u64)
    requires
        h is Float32 || h is Float64,
        is_int_kind(kind),
    ensures
        to_wasm_spec(h, kind, store) == Err::<WasmValue, ConversionError>(
            ConversionError::KindMismatch,
        ),
{
}

} // verus!
