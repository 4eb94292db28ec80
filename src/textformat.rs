//! Conversion between the WebAssembly text format and the binary format,
//! through the `wat` and `wasmprinter` crates. `wat` is built without its
//! component-model support, so it reads core modules only.

use vstd::prelude::*;

verus! {

/// The binary core module that the text `text` assembles to, or `None` where
/// the text is not a valid core module.
pub uninterp spec fn assembled(text: Seq<char>) -> Option<Seq<u8>>;

/// The text that the binary module `bytes` prints as, or `None` where the
/// bytes are not a valid module.
pub uninterp spec fn printed(bytes: Seq<u8>) -> Option<Seq<char>>;

/// A failure to read text or binary WebAssembly, with the parser's message.
#[derive(Clone, Debug, PartialEq, Eq)]
pub struct ParseError {
    pub message: String,
}

/// Relies on `wat::parse_str`, built without the component model: assembles
/// the text of a core module into its binary form or fails with an error.
/// That parser reads nothing but the text, so the outcome depends on the
/// text alone.
#[verifier::external_body]
fn parse_text(text: &str) -> (r: Result<Vec<u8>, String>)
    ensures
        match assembled(text@) {
            Some(b) => r matches Ok(v) && v@ == b,
            None => r is Err,
        },
{
    wat::parse_str(text).map_err(|e| e.to_string())
}

/// Relies on `wasmprinter::print_bytes`: prints a binary module as
/// WebAssembly text or fails with an error; the outcome depends on the bytes
/// alone.
#[verifier::external_body]
fn print_binary(bytes: &[u8]) -> (r: Result<String, String>)
    ensures
        match printed(bytes@) {
            Some(t) => r matches Ok(s) && s@ == t,
            None => r is Err,
        },
{
    wasmprinter::print_bytes(bytes).map_err(|e| e.to_string())
}

/// Translates WebAssembly text into the binary format.
pub fn wat2wasm(text: &str) -> (r: Result<Vec<u8>, ParseError>)
    ensures
        match assembled(text@) {
            Some(b) => r matches Ok(v) && v@ == b,
            None => r is Err,
        },
{
    match parse_text(text) {
        Ok(v) => Ok(v),
        Err(message) => Err(ParseError { message }),
    }
}

/// Disassembles a binary module into the WebAssembly text format.
pub fn wasm2wat(bytes: &[u8]) -> (r: Result<String, ParseError>)
    ensures
        match printed(bytes@) {
            Some(t) => r matches Ok(s) && s@ == t,
            None => r is Err,
        },
{
    match print_binary(bytes) {
        Ok(s) => Ok(s),
        Err(message) => Err(ParseError { message }),
    }
}

} // verus!
