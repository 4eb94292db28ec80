use wasmer_api::dispatch::FunctionSignature;
use wasmer_api::imports::{ExternType, ImportEntry, ImportObject, Limits, ResolutionFailure};
use wasmer_api::values::ValueKind;

fn func(params: Vec<ValueKind>, results: Vec<ValueKind>) -> ExternType {
    ExternType::Function(FunctionSignature { params, results })
}

fn decl(ns: &str, name: &str, ty: ExternType) -> ImportEntry {
    ImportEntry { namespace: ns.to_string(), name: name.to_string(), ty }
}

fn sample() -> ImportObject {
    let mut o = ImportObject::new();
    o.register("env".to_string(), "sum".to_string(), func(vec![ValueKind::I32, ValueKind::I32], vec![ValueKind::I32]));
    o.register("env".to_string(), "counter".to_string(), ExternType::Global { kind: ValueKind::I64, mutable: true });
    o.register(
        "env".to_string(),
        "memory".to_string(),
        ExternType::Memory(Limits { minimum: 2, maximum: Some(4) }),
    );
    o
}

#[test]
fn all_imports_satisfied_links_each() {
    let o = sample();
    let wanted = vec![
        decl("env", "memory", ExternType::Memory(Limits { minimum: 1, maximum: Some(8) })),
        decl("env", "sum", func(vec![ValueKind::I32, ValueKind::I32], vec![ValueKind::I32])),
    ];
    assert_eq!(o.resolve(&wanted), Ok(vec![2, 0]));
    assert_eq!(o.resolve(&vec![]), Ok(vec![]));
}

#[test]
fn missing_import_is_named() {
    let o = sample();
    let wanted = vec![
        decl("env", "sum", func(vec![ValueKind::I32, ValueKind::I32], vec![ValueKind::I32])),
        decl("env", "absent", func(vec![], vec![])),
    ];
    let e = o.resolve(&wanted).unwrap_err();
    assert_eq!(e.index, 1);
    assert_eq!(e.namespace, "env");
    assert_eq!(e.name, "absent");
    assert_eq!(e.failure, ResolutionFailure::Missing);
}

#[test]
fn signature_mismatch_is_named() {
    let o = sample();
    let wanted = vec![decl("env", "sum", func(vec![ValueKind::I32], vec![ValueKind::I32]))];
    let e = o.resolve(&wanted).unwrap_err();
    assert_eq!((e.index, e.failure), (0, ResolutionFailure::Mismatch));
    let wanted = vec![decl("env", "sum", ExternType::Global { kind: ValueKind::I32, mutable: false })];
    assert_eq!(o.resolve(&wanted).unwrap_err().failure, ResolutionFailure::Mismatch);
}

#[test]
fn global_mutability_must_match() {
    let o = sample();
    let wanted = vec![decl("env", "counter", ExternType::Global { kind: ValueKind::I64, mutable: false })];
    assert_eq!(o.resolve(&wanted).unwrap_err().failure, ResolutionFailure::Mismatch);
    let wanted = vec![decl("env", "counter", ExternType::Global { kind: ValueKind::I64, mutable: true })];
    assert_eq!(o.resolve(&wanted), Ok(vec![1]));
}

#[test]
fn memory_limits_must_fit() {
    let o = sample();
    let too_big_min = vec![decl("env", "memory", ExternType::Memory(Limits { minimum: 3, maximum: None }))];
    assert_eq!(o.resolve(&too_big_min).unwrap_err().failure, ResolutionFailure::Mismatch);
    let too_small_max = vec![decl("env", "memory", ExternType::Memory(Limits { minimum: 1, maximum: Some(3) }))];
    assert_eq!(o.resolve(&too_small_max).unwrap_err().failure, ResolutionFailure::Mismatch);
}

#[test]
fn later_registration_shadows() {
    let mut o = sample();
    o.register("env".to_string(), "sum".to_string(), func(vec![], vec![]));
    let wanted = vec![decl("env", "sum", func(vec![], vec![]))];
    assert_eq!(o.resolve(&wanted), Ok(vec![3]));
}

#[test]
fn namespace_is_part_of_the_key() {
    let o = sample();
    let wanted = vec![decl("other", "sum", func(vec![ValueKind::I32, ValueKind::I32], vec![ValueKind::I32]))];
    assert_eq!(o.resolve(&wanted).unwrap_err().failure, ResolutionFailure::Missing);
}
