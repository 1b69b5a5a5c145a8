//! The tokenizer boundary: the pieces of a scanned format string, and the
//! resolved format specifications the resolver produces from them.

use vstd::prelude::*;

verus! {

/// Requested alignment inside a padded field.
#[derive(Clone, Copy, PartialEq, Eq, Structural, Debug)]
pub enum Align {
    Left,
    Right,
    Center,
    Unknown,
}

/// Which argument a placeholder denotes.  The tokenizer resolves the
/// next-implicit-argument form to an explicit index before handing the
/// stream over, so only explicit indices and names remain.
pub enum Position {
    Index(usize),
    Named(String),
}

/// A width or precision as written in the format string: a literal, a
/// reference by name, a reference by index, or nothing.
pub enum InCount {
    Is(usize),
    IsName(String),
    IsParam(usize),
    Implied,
}

/// Flag bit: always print a sign.
pub const FLAG_SIGN_PLUS: u32 = 1;

/// Flag bit: alternate form (a radix prefix such as `0x`).
pub const FLAG_ALTERNATE: u32 = 4;

/// Flag bit: pad with zeros after the sign, ignoring fill and alignment.
pub const FLAG_ZERO_PAD: u32 = 8;

/// The inline format descriptor attached to one placeholder.
pub struct FormatDesc {
    pub fill: Option<char>,
    pub align: Align,
    pub flags: u32,
    pub precision: InCount,
    pub width: InCount,
    pub ty: String,
}

/// One argument reference from the tokenizer.
pub struct ArgRef {
    pub position: Position,
    pub format: FormatDesc,
}

/// One token of the scanned format string.
pub enum Piece {
    Literal(String),
    Arg(ArgRef),
}

/// The tokenizer's whole output: the token stream plus the syntax
/// diagnostics it collected, each a message with an optional elaboration.
pub struct Template {
    pub pieces: Vec<Piece>,
    pub errors: Vec<(String, Option<String>)>,
}

/// A fully resolved width or precision: a literal, or the index of the
/// resolved-argument slot that provides the count at render time.
#[derive(Clone, Copy, PartialEq, Eq, Structural, Debug)]
pub enum RCount {
    Is(usize),
    Param(usize),
    Implied,
}

/// A resolved format specification: everything the backend needs to render
/// one argument, with `position` an index into the resolved-argument list.
#[derive(Clone, Copy, PartialEq, Eq, Structural, Debug)]
pub struct FmtSpec {
    pub position: usize,
    pub fill: char,
    pub align: Align,
    pub flags: u32,
    pub precision: RCount,
    pub width: RCount,
}

impl FormatDesc {
    /// A descriptor with every directive left at its default.
    pub fn plain() -> (r: FormatDesc)
        ensures
            r.fill is None,
            r.align == Align::Unknown,
            r.flags == 0u32,
            r.precision is Implied,
            r.width is Implied,
            r.ty@ == Seq::<char>::empty(),
    {
        FormatDesc {
            fill: None,
            align: Align::Unknown,
            flags: 0,
            precision: InCount::Implied,
            width: InCount::Implied,
            ty: String::new(),
        }
    }
}

} // verus!
