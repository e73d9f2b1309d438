//! The verified core of a bridge between Rust compiled to WebAssembly and a
//! JavaScript host: the model of the values that cross the boundary, the
//! NUL-terminated byte strings that carry property names and text, the type
//! codes of the wire protocol, and the encoding of call arguments and the
//! decoding of results.

pub mod cstring;
pub mod value;
pub mod wire;

pub use value::{JsType, RefIndex};
