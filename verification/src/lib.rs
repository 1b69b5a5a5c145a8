//! Format values against format strings that are only known at run time.
//!
//! The library consumes the output of a format-string tokenizer (literal
//! spans interleaved with argument references, plus any syntax
//! diagnostics) together with a source of argument values, validates
//! every reference, and produces a rendering plan: ordered literal
//! fragments, ordered resolved arguments, and ordered format
//! specifications.  Two binding strategies share the one resolver:
//! immediate binding against a list of erased values (`FormatBuf`), and
//! deferred binding against a producer type whose instances arrive only
//! at render time (`PreparedFormat`).  A small rendering backend turns a
//! plan into text, applying fill, alignment, width, precision and flags.

pub mod binding;
pub mod error;
pub mod labeled;
pub mod laws;
pub mod plan;
pub mod render;
pub mod resolve;
pub mod tokens;
pub mod value;

pub use binding::{FormatArgs, Param};
pub use error::Error;
pub use labeled::Labeled;
pub use plan::{Arguments, FormatBuf, PreparedFormat};
pub use tokens::{Align, ArgRef, FormatDesc, InCount, Piece, Position, Template};
pub use value::{Tag, Value};
