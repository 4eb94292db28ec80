use wasmer_api::textformat::{wasm2wat, wat2wasm};

#[test]
fn empty_module_round_trip() {
    let bytes = wat2wasm("(module)").unwrap();
    assert_eq!(bytes, b"\x00asm\x01\x00\x00\x00".to_vec());
    assert_eq!(wasm2wat(&bytes).unwrap(), "(module)");
}

#[test]
fn bad_text_is_a_parse_error() {
    assert!(wat2wasm("(modul").is_err());
}

#[test]
fn bad_binary_is_a_parse_error() {
    assert!(wasm2wat(b"\x00asm\x02").is_err());
}

#[test]
fn function_module_assembles() {
    let bytes = wat2wasm("(module (func (export \"f\") (result i32) i32.const 1))").unwrap();
    assert_eq!(&bytes[0..8], b"\x00asm\x01\x00\x00\x00");
    assert!(bytes.len() > 8);
    let text = wasm2wat(&bytes).unwrap();
    assert!(text.contains("i32.const 1"));
}
