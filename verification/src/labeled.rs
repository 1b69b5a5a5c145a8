//! A small producer type: the library's reference implementation of
//! `FormatArgs` for deferred binding.

use vstd::prelude::*;
use vstd::string::StringExecFns;
use crate::binding::FormatArgs;
use crate::value::{Tag, Value};

verus! {

/// A producer with a text slot named `label` and a count-capable numeric
/// slot named `width`.  Prepared plans replay their recipes against any
/// number of values of this type.
#[derive(Debug)]
pub struct Labeled {
    pub label: String,
    pub width: usize,
}

impl FormatArgs for Labeled {
    open spec fn sp_name_index(name: Seq<char>) -> Option<usize> {
        if name == "label"@ {
            Some(0usize)
        } else if name == "width"@ {
            Some(1usize)
        } else {
            None
        }
    }

    open spec fn sp_index_ok(index: int) -> bool {
        0 <= index < 2
    }

    open spec fn sp_supports(index: int, tag: Tag) -> bool {
        if index == 0 {
            tag == Tag::Display || tag == Tag::Debug
        } else {
            true
        }
    }

    open spec fn sp_count_ok(index: int) -> bool {
        index == 1
    }

    open spec fn sp_value(&self, index: int) -> Value {
        if index == 0 {
            Value::Str(self.label)
        } else {
            Value::Uint(self.width as u64)
        }
    }

    open spec fn sp_usize(&self, index: int) -> usize {
        self.width
    }

    proof fn name_index_valid(name: Seq<char>) {
    }

    fn validate_name(name: &str) -> (r: Option<usize>) {
        let s = name.to_owned();
        if s.eq(&String::from_str("label")) {
            Some(0)
        } else if s.eq(&String::from_str("width")) {
            Some(1)
        } else {
            None
        }
    }

    fn validate_index(index: usize) -> (r: bool) {
        index < 2
    }

    fn supports(index: usize, tag: Tag) -> (r: bool) {
        if index == 0 {
            tag == Tag::Display || tag == Tag::Debug
        } else {
            true
        }
    }

    fn count_ok(index: usize) -> (r: bool) {
        index == 1
    }

    fn get_value(&self, index: usize) -> (r: Value) {
        if index == 0 {
            Value::Str(self.label.clone())
        } else {
            Value::Uint(self.width as u64)
        }
    }

    fn get_usize(&self, index: usize) -> (r: usize) {
        self.width
    }
}

} // verus!
