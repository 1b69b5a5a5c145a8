//! The error taxonomy shared by resolution and the plan constructors.

use vstd::prelude::*;
use vstd::string::StringExecFns;
use crate::render::spec_uint;

verus! {

/// An error during resolution of a format string against its arguments.
/// Every failure is terminal: no partial plan is ever returned.
#[derive(Debug)]
pub enum Error {
    /// Invalid format string syntax: the tokenizer's diagnostics, each a
    /// message with an optional elaboration.
    BadSyntax(Vec<(String, Option<String>)>),
    /// An explicit numeric reference named a slot beyond the bounds of the
    /// argument list.
    BadIndex(usize),
    /// A named reference matched no supplied or declared name.
    BadName(String),
    /// The type tag of a format specifier is not a recognized mode.
    NoSuchFormat(String),
    /// The argument at `idx` does not support the requested mode.
    UnsatisfiedFormat { idx: usize, must_implement: String },
    /// A width or precision referred to a slot whose value cannot act as a
    /// count.
    BadCount(usize),
}

/// The mathematical shadow of a resolution error, over character sequences.
pub ghost enum ErrModel {
    BadIndex(usize),
    BadName(Seq<char>),
    NoSuchFormat(Seq<char>),
    Unsatisfied { idx: usize, must: Seq<char> },
    BadCount(usize),
}

/// Whether the executable error `e` denotes the model error `m`.
pub open spec fn err_matches(e: Error, m: ErrModel) -> bool {
    match m {
        ErrModel::BadIndex(i) => e == Error::BadIndex(i),
        ErrModel::BadName(n) => e matches Error::BadName(s) && s@ == n,
        ErrModel::NoSuchFormat(t) => e matches Error::NoSuchFormat(s) && s@ == t,
        ErrModel::Unsatisfied { idx, must } => e matches Error::UnsatisfiedFormat {
            idx: i,
            must_implement: s,
        } && i == idx && s@ == must,
        ErrModel::BadCount(i) => e == Error::BadCount(i),
    }
}

/// The short description of each error kind.
pub open spec fn spec_description(e: Error) -> Seq<char> {
    match e {
        Error::BadSyntax(_) => "bad syntax"@,
        Error::BadIndex(_) => "out-of-range index"@,
        Error::BadName(_) => "unknown name"@,
        Error::NoSuchFormat(_) => "bad formatting specifier"@,
        Error::UnsatisfiedFormat { .. } => "formatting trait not satisfied"@,
        Error::BadCount(_) => "non-integer used as count"@,
    }
}

impl Error {
    /// A short description of the error kind.
    pub fn description(&self) -> (r: &'static str)
        ensures
            r@ == spec_description(*self),
    {
        match self {
            Error::BadSyntax(_) => "bad syntax",
            Error::BadIndex(_) => "out-of-range index",
            Error::BadName(_) => "unknown name",
            Error::NoSuchFormat(_) => "bad formatting specifier",
            Error::UnsatisfiedFormat { .. } => "formatting trait not satisfied",
            Error::BadCount(_) => "non-integer used as count",
        }
    }

    /// A human-readable message for the error, with every syntax
    /// diagnostic included, not just the first.
    pub fn message(&self) -> (r: String)
        ensures
            r@ == spec_message(*self),
    {
        match self {
            Error::BadIndex(i) => {
                let mut s = String::from_str("index ");
                s.append(digits_string(*i).as_str());
                s.append(" out of range");
                s
            },
            Error::BadName(n) => {
                let mut s = String::from_str("unknown name \"");
                s.append(n.as_str());
                s.append("\"");
                s
            },
            Error::NoSuchFormat(t) => {
                let mut s = String::from_str("bad formatting specifier \"");
                s.append(t.as_str());
                s.append("\"");
                s
            },
            Error::UnsatisfiedFormat { idx, must_implement } => {
                let mut s = String::from_str("argument ");
                s.append(digits_string(*idx).as_str());
                s.append(" does not implement ");
                s.append(must_implement.as_str());
                s
            },
            Error::BadCount(i) => {
                let mut s = String::from_str("argument ");
                s.append(digits_string(*i).as_str());
                s.append(" cannot be used as a count");
                s
            },
            Error::BadSyntax(v) => {
                let mut s = String::new();
                let n = v.len();
                let mut i: usize = 0;
                proof {
                    assert(s@ =~= spec_syntax_message(v@.take(0)));
                }
                while i < n
                    invariant
                        i <= n,
                        n == v@.len(),
                        s@ == spec_syntax_message(v@.take(i as int)),
                    decreases n - i,
                {
                    proof {
                        assert(v@.take(i + 1).drop_last() =~= v@.take(i as int));
                        assert(v@.take(i + 1).last() == v@[i as int]);
                    }
                    if i > 0 {
                        s.append("; ");
                    }
                    s.append(v[i].0.as_str());
                    match &v[i].1 {
                        Some(more) => {
                            s.append(" (");
                            s.append(more.as_str());
                            s.append(")");
                        },
                        None => {},
                    }
                    i = i + 1;
                }
                proof {
                    assert(v@.take(n as int) =~= v@);
                }
                s
            },
        }
    }
}

/// The message of one run of syntax diagnostics, joined by `; `, each
/// with its elaboration in parentheses.
pub open spec fn spec_syntax_message(v: Seq<(String, Option<String>)>) -> Seq<char>
    decreases v.len(),
{
    if v.len() == 0 {
        Seq::empty()
    } else {
        let head = spec_syntax_message(v.drop_last()) + if v.len() > 1 {
            "; "@
        } else {
            Seq::empty()
        };
        head + v.last().0@ + match v.last().1 {
            Some(more) => " ("@ + more@ + ")"@,
            None => Seq::<char>::empty(),
        }
    }
}

/// The human-readable message of an error.
pub open spec fn spec_message(e: Error) -> Seq<char> {
    match e {
        Error::BadIndex(i) => "index "@ + spec_uint(i as nat, 10, false) + " out of range"@,
        Error::BadName(n) => "unknown name \""@ + n@ + "\""@,
        Error::NoSuchFormat(t) => "bad formatting specifier \""@ + t@ + "\""@,
        Error::UnsatisfiedFormat { idx, must_implement } => "argument "@ + spec_uint(
            idx as nat,
            10,
            false,
        ) + " does not implement "@ + must_implement@,
        Error::BadCount(i) => "argument "@ + spec_uint(i as nat, 10, false)
            + " cannot be used as a count"@,
        Error::BadSyntax(v) => spec_syntax_message(v@),
    }
}

/// A slot index rendered in decimal.
fn digits_string(i: usize) -> (r: String)
    ensures
        r@ == spec_uint(i as nat, 10, false),
{
    let d = crate::render::uint_digits(i as u64, 10, false);
    crate::render::chars_to_string(&d)
}

} // verus!
