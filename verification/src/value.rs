//! Erased argument values and the type tags that select a formatting mode.

use vstd::prelude::*;
use vstd::string::StrSliceExecFns;

verus! {

/// A type tag: the formatting capability a placeholder asks a value for.
#[derive(Clone, Copy, PartialEq, Eq, Structural, Debug)]
pub enum Tag {
    Display,
    Debug,
    LowerHex,
    UpperHex,
    Octal,
    Binary,
}

/// The tag selected by a placeholder's type string, if it is recognized.
pub open spec fn spec_tag_for(ty: Seq<char>) -> Option<Tag> {
    if ty.len() == 0 {
        Some(Tag::Display)
    } else if ty.len() == 1 {
        if ty[0] == '?' {
            Some(Tag::Debug)
        } else if ty[0] == 'x' {
            Some(Tag::LowerHex)
        } else if ty[0] == 'X' {
            Some(Tag::UpperHex)
        } else if ty[0] == 'o' {
            Some(Tag::Octal)
        } else if ty[0] == 'b' {
            Some(Tag::Binary)
        } else {
            None
        }
    } else {
        None
    }
}

/// Parse a placeholder's type string into a tag.
pub fn tag_for(ty: &str) -> (r: Option<Tag>)
    ensures
        r == spec_tag_for(ty@),
{
    let n = ty.unicode_len();
    if n == 0 {
        Some(Tag::Display)
    } else if n == 1 {
        let c = ty.get_char(0);
        if c == '?' {
            Some(Tag::Debug)
        } else if c == 'x' {
            Some(Tag::LowerHex)
        } else if c == 'X' {
            Some(Tag::UpperHex)
        } else if c == 'o' {
            Some(Tag::Octal)
        } else if c == 'b' {
            Some(Tag::Binary)
        } else {
            None
        }
    } else {
        None
    }
}

/// The name of the formatting capability a tag demands of its argument.
pub open spec fn spec_trait_name(tag: Tag) -> Seq<char> {
    match tag {
        Tag::Display => "fmt::Display"@,
        Tag::Debug => "fmt::Debug"@,
        Tag::LowerHex => "fmt::LowerHex"@,
        Tag::UpperHex => "fmt::UpperHex"@,
        Tag::Octal => "fmt::Octal"@,
        Tag::Binary => "fmt::Binary"@,
    }
}

/// The capability name a tag demands, for diagnostics.
pub fn trait_name(tag: Tag) -> (r: &'static str)
    ensures
        r@ == spec_trait_name(tag),
{
    match tag {
        Tag::Display => "fmt::Display",
        Tag::Debug => "fmt::Debug",
        Tag::LowerHex => "fmt::LowerHex",
        Tag::UpperHex => "fmt::UpperHex",
        Tag::Octal => "fmt::Octal",
        Tag::Binary => "fmt::Binary",
    }
}

/// A type-erased argument value: what the resolver can read of a value is
/// exactly what the formatting backend needs of it.
#[derive(Debug)]
pub enum Value {
    Str(String),
    Uint(u64),
    Int(i64),
    Bool(bool),
    Char(char),
}

impl Value {
    /// An owned copy of the value.
    pub fn dup(&self) -> (r: Value)
        ensures
            r == *self,
    {
        match self {
            Value::Str(s) => Value::Str(s.clone()),
            Value::Uint(u) => Value::Uint(*u),
            Value::Int(i) => Value::Int(*i),
            Value::Bool(b) => Value::Bool(*b),
            Value::Char(c) => Value::Char(*c),
        }
    }

    /// Whether the value supports the formatting mode named by `tag`.
    pub open spec fn spec_supports(self, tag: Tag) -> bool {
        match self {
            Value::Str(_) => tag == Tag::Display || tag == Tag::Debug,
            Value::Bool(_) => tag == Tag::Display || tag == Tag::Debug,
            Value::Char(_) => tag == Tag::Display || tag == Tag::Debug,
            Value::Uint(_) => true,
            Value::Int(_) => true,
        }
    }

    /// Whether the value supports the formatting mode named by `tag`.
    pub fn supports(&self, tag: Tag) -> (r: bool)
        ensures
            r == self.spec_supports(tag),
    {
        match self {
            Value::Str(_) => tag == Tag::Display || tag == Tag::Debug,
            Value::Bool(_) => tag == Tag::Display || tag == Tag::Debug,
            Value::Char(_) => tag == Tag::Display || tag == Tag::Debug,
            Value::Uint(_) => true,
            Value::Int(_) => true,
        }
    }

    /// The value's projection to an unsigned size, for use as a count.
    pub open spec fn spec_as_usize(self) -> Option<usize> {
        match self {
            Value::Uint(u) => if u <= usize::MAX {
                Some(u as usize)
            } else {
                None
            },
            Value::Int(i) => if 0 <= i && i <= usize::MAX {
                Some(i as usize)
            } else {
                None
            },
            Value::Str(_) => None,
            Value::Bool(_) => None,
            Value::Char(_) => None,
        }
    }

    /// Project the value to an unsigned size, if it can act as a count.
    pub fn usize_proj(&self) -> (r: Option<usize>)
        ensures
            r == self.spec_as_usize(),
    {
        match self {
            Value::Uint(u) => if *u <= usize::MAX as u64 {
                Some(*u as usize)
            } else {
                None
            },
            Value::Int(i) => if 0 <= *i && (*i as u64) <= usize::MAX as u64 {
                Some(*i as usize)
            } else {
                None
            },
            Value::Str(_) => None,
            Value::Bool(_) => None,
            Value::Char(_) => None,
        }
    }
}

} // verus!
