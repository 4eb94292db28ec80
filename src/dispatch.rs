//! Calling an exported function: argument checking and conversion before the
//! call, and result conversion or trap reporting after it.
//!
//! The engine runs the function between the two steps. Everything that can
//! go wrong on the host's side is found by `prepare_arguments`, before any
//! module code runs; `collect_results` then turns what the engine handed back
//! into host values, or into a trap error.

use vstd::prelude::*;
use crate::values::{
    from_wasm, from_wasm_spec, kind_of, to_wasm, to_wasm_spec, ConversionError, HostValue,
    ValueKind, WasmValue,
};

verus! {

/// The parameter and result types of a function, in order.
#[derive(Clone, Debug, PartialEq, Eq)]
pub struct FunctionSignature {
    pub params: Vec<ValueKind>,
    pub results: Vec<ValueKind>,
}

/// The kind of fault that aborted a call inside the module.
#[derive(Clone, Copy, Debug, PartialEq, Eq, Structural)]
pub enum TrapKind {
    OutOfBounds,
    IntegerDivisionByZero,
    IntegerOverflow,
    Unreachable,
    IndirectCallSignatureMismatch,
    StackOverflow,
    Other,
}

/// A fault raised while the module ran, with a readable message.
#[derive(Clone, Debug, PartialEq, Eq)]
pub struct Trap {
    pub kind: TrapKind,
    pub message: String,
}

/// Why a call failed.
#[derive(Clone, Debug, PartialEq, Eq)]
pub enum CallError {
    /// The call was given `given` arguments where the function takes `expected`.
    Arity { expected: usize, given: usize },
    /// Argument `index` could not be converted to its parameter type.
    Conversion { index: usize, error: ConversionError },
    /// The module trapped.
    Trap(Trap),
    /// The engine handed back results that do not match the signature.
    ResultMismatch,
    /// The instance exports nothing under that name.
    UnknownExport,
    /// The export is not a function.
    NotAFunction,
    /// An earlier fatal trap left the instance unusable.
    Unusable,
}

/// Whether every one of the first `n` arguments converts to its parameter type.
pub open spec fn converts_upto(args: Seq<HostValue>, params: Seq<ValueKind>, store: u64, n: int) -> bool {
    forall|i: int| 0 <= i < n ==> (#[trigger] to_wasm_spec(args[i], params[i], store)) is Ok
}

/// Whether `vals` holds the values of the given types, in order.
pub open spec fn kinds_match(vals: Seq<WasmValue>, kinds: Seq<ValueKind>) -> bool {
    vals.len() == kinds.len() && forall|i: int| 0 <= i < vals.len() ==> kind_of(#[trigger] vals[i]) == kinds[i]
}

/// Whether a trap of this kind leaves the instance unusable for later calls.
pub open spec fn is_fatal_spec(kind: TrapKind) -> bool {
    kind == TrapKind::StackOverflow
}

/// Checks the number of arguments of a call against the signature, then
/// converts each argument to its parameter type, in order, stopping at the
/// first that does not convert. Nothing of the module is touched here, so a
/// call refused by this step leaves the module as it was.
pub fn prepare_arguments(sig: &FunctionSignature, args: Vec<HostValue>, store: u64) -> (r: Result<
    Vec<WasmValue>,
    CallError,
>)
    ensures
        args@.len() != sig.params@.len() ==> r == Err::<Vec<WasmValue>, CallError>(
            CallError::Arity { expected: sig.params@.len() as usize, given: args@.len() as usize },
        ),
        args@.len() == sig.params@.len() ==> {
            &&& r is Ok <==> converts_upto(args@, sig.params@, store, args@.len() as int)
            &&& r matches Ok(vals) ==> vals@.len() == args@.len() && forall|i: int|
                0 <= i < vals@.len() ==> to_wasm_spec(args@[i], sig.params@[i], store) == Ok::<
                    WasmValue,
                    ConversionError,
                >(#[trigger] vals@[i])
            &&& r matches Err(e) ==> e matches CallError::Conversion { index, error } && index
                < args@.len() && converts_upto(args@, sig.params@, store, index as int)
                && to_wasm_spec(args@[index as int], sig.params@[index as int], store) == Err::<
                WasmValue,
                ConversionError,
            >(error)
        },
{
    let n = args.len();
    if n != sig.params.len() {
        return Err(CallError::Arity { expected: sig.params.len(), given: n });
    }
    let ghost all = args@;
    let mut rest = args;
    let mut out: Vec<WasmValue> = Vec::new();
    let mut i: usize = 0;
    while i < n
        invariant
            all == args@,
            n == all.len(),
            n == sig.params@.len(),
            i <= n,
            rest@ == all.subrange(i as int, n as int),
            out@.len() == i,
            converts_upto(all, sig.params@, store, i as int),
            forall|j: int|
                0 <= j < i ==> to_wasm_spec(all[j], sig.params@[j], store) == Ok::<
                    WasmValue,
                    ConversionError,
                >(#[trigger] out@[j]),
        decreases n - i,
    {
        let h = rest.remove(0);
        assert(h == all[i as int]);
        match to_wasm(h, sig.params[i], store) {
            Ok(w) => {
                out.push(w);
            },
            Err(e) => {
                return Err(CallError::Conversion { index: i, error: e });
            },
        }
        i = i + 1;
        assert(rest@ =~= all.subrange(i as int, n as int));
    }
    Ok(out)
}

/// Turns what the engine returned for a call into the call's host results:
/// a trap becomes a trap error; values that do not match the signature's
/// result types are refused; otherwise each value is converted back, in the
/// declared order, however many results there are.
pub fn collect_results(sig: &FunctionSignature, outcome: Result<Vec<WasmValue>, Trap>) -> (r: Result<
    Vec<HostValue>,
    CallError,
>)
    ensures
        match outcome {
            Err(t) => r == Err::<Vec<HostValue>, CallError>(CallError::Trap(t)),
            Ok(vals) => if kinds_match(vals@, sig.results@) {
                r matches Ok(hs) && hs@.len() == vals@.len() && forall|i: int|
                    0 <= i < hs@.len() ==> #[trigger] hs@[i] == from_wasm_spec(vals@[i])
            } else {
                r == Err::<Vec<HostValue>, CallError>(CallError::ResultMismatch)
            },
        },
{
    match outcome {
        Err(t) => Err(CallError::Trap(t)),
        Ok(vals) => convert_results(sig, vals),
    }
}

/// Converts result values that must match the signature's result types.
fn convert_results(sig: &FunctionSignature, vals: Vec<WasmValue>) -> (r: Result<
    Vec<HostValue>,
    CallError,
>)
    ensures
        if kinds_match(vals@, sig.results@) {
            r matches Ok(hs) && hs@.len() == vals@.len() && forall|i: int|
                0 <= i < hs@.len() ==> #[trigger] hs@[i] == from_wasm_spec(vals@[i])
        } else {
            r == Err::<Vec<HostValue>, CallError>(CallError::ResultMismatch)
        },
{
    let n = vals.len();
    if n != sig.results.len() {
        return Err(CallError::ResultMismatch);
    }
    let mut k: usize = 0;
    while k < n
        invariant
            n == vals@.len(),
            n == sig.results@.len(),
            k <= n,
            forall|j: int| 0 <= j < k ==> kind_of(#[trigger] vals@[j]) == sig.results@[j],
        decreases n - k,
    {
        if !has_kind(&vals[k], sig.results[k]) {
            return Err(CallError::ResultMismatch);
        }
        k = k + 1;
    }
    let ghost all = vals@;
    let mut rest = vals;
    let mut out: Vec<HostValue> = Vec::new();
    let mut i: usize = 0;
    while i < n
        invariant
            all == vals@,
            n == all.len(),
            i <= n,
            rest@ == all.subrange(i as int, n as int),
            out@.len() == i,
            forall|j: int| 0 <= j < i ==> #[trigger] out@[j] == from_wasm_spec(all[j]),
        decreases n - i,
    {
        let w = rest.remove(0);
        assert(w == all[i as int]);
        out.push(from_wasm(w));
        i = i + 1;
        assert(rest@ =~= all.subrange(i as int, n as int));
    }
    Ok(out)
}

/// Whether `w` is a value of type `kind`.
pub fn has_kind(w: &WasmValue, kind: ValueKind) -> (r: bool)
    ensures
        r == (kind_of(*w) == kind),
{
    let k = match w {
        WasmValue::I32(_) => ValueKind::I32,
        WasmValue::I64(_) => ValueKind::I64,
        WasmValue::F32(_) => ValueKind::F32,
        WasmValue::F64(_) => ValueKind::F64,
        WasmValue::V128(_) => ValueKind::V128,
        WasmValue::FuncRef(_) => ValueKind::FuncRef,
        WasmValue::ExternRef(_) => ValueKind::ExternRef,
    };
    k == kind
}

/// Whether a trap of this kind leaves the instance unusable: after a stack
/// overflow its internal state can no longer be trusted, while the other
/// traps abandon only the call that raised them.
pub fn is_fatal(kind: TrapKind) -> (r: bool)
    ensures
        r == is_fatal_spec(kind),
{
    match kind {
        TrapKind::StackOverflow => true,
        _ => false,
    }
}

} // verus!
