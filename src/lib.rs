//! The marshalling layer between a host's dynamic values and a WebAssembly
//! module's typed world: value conversion, bounded views over linear memory
//! with growth invalidation, call dispatch and import resolution.

pub mod dispatch;
pub mod imports;
pub mod instance;
pub mod memory;
pub mod text;
pub mod textformat;
pub mod values;
pub mod wasi;

