//! The two argument-binding strategies behind the one resolver: immediate
//! binding against a list of erased parameter values, and deferred binding
//! against a producer type whose instances arrive only at render time.

use vstd::prelude::*;
use crate::value::{Tag, Value};

verus! {

/// A type-erased parameter with an optional name.  Its unsigned-size
/// projection is computed eagerly at construction, so resolving a count
/// never touches the value again.
pub struct Param {
    name: Option<String>,
    value: Value,
    as_usize: Option<usize>,
}

impl Param {
    /// The parameter's name, if it has one.
    pub closed spec fn spec_name(self) -> Option<Seq<char>> {
        match self.name {
            Some(n) => Some(n@),
            None => None,
        }
    }

    /// The erased value the parameter carries.
    pub closed spec fn spec_value(self) -> Value {
        self.value
    }

    /// The parameter's eagerly computed unsigned-size projection.
    pub closed spec fn spec_as_usize(self) -> Option<usize> {
        self.as_usize
    }

    /// Create a nameless parameter from the given value.
    pub fn normal(value: Value) -> (p: Param)
        ensures
            p.spec_name() is None,
            p.spec_value() == value,
            p.spec_as_usize() == value.spec_as_usize(),
    {
        let as_usize = value.usize_proj();
        Param { name: None, value, as_usize }
    }

    /// Create a named parameter from the given value.
    pub fn named(name: &str, value: Value) -> (p: Param)
        ensures
            p.spec_name() == Some(name@),
            p.spec_value() == value,
            p.spec_as_usize() == value.spec_as_usize(),
    {
        let as_usize = value.usize_proj();
        Param { name: Some(name.to_owned()), value, as_usize }
    }
}

/// A resolved argument of an immediate plan: either a value bound to the
/// formatting mode that will render it, or an unsigned size serving a
/// width or precision reference.
#[derive(Debug)]
pub enum RtArg {
    Val { value: Value, tag: Tag },
    Count { size: usize },
}

impl RtArg {
    /// An owned copy of the resolved argument.
    pub fn dup(&self) -> (r: RtArg)
        ensures
            r == *self,
    {
        match self {
            RtArg::Val { value, tag } => RtArg::Val { value: value.dup(), tag: *tag },
            RtArg::Count { size } => RtArg::Count { size: *size },
        }
    }
}

/// A resolved argument of a prepared plan: a recipe that is replayed
/// against a producer instance at render time.
#[derive(Clone, Copy, PartialEq, Eq, Structural, Debug)]
pub enum PreparedArgument {
    Normal { index: usize, tag: Tag },
    Usize { index: usize },
}

/// The binding strategy the resolver is generic over.  `A` is the type of
/// one resolved argument.
pub trait ParseTarget<A>: Sized {
    /// The slot a name denotes, if any.
    spec fn sp_name(&self, name: Seq<char>) -> Option<usize>;

    /// Whether an explicit index denotes a valid slot.
    spec fn sp_index_ok(&self, index: int) -> bool;

    /// The resolved argument binding slot `index` to the mode `tag`, or
    /// `None` if the slot does not support that mode.
    spec fn sp_format(&self, tag: Tag, index: int) -> Option<A>;

    /// The resolved argument exposing slot `index` as an unsigned size, or
    /// `None` if the slot cannot act as a count.
    spec fn sp_count(&self, index: int) -> Option<A>;

    /// Every slot a name resolves to is a valid slot.
    proof fn name_index_valid(&self, name: Seq<char>)
        ensures
            self.sp_name(name) matches Some(i) ==> self.sp_index_ok(i as int),
    ;

    /// Look up a named parameter.
    fn validate_name(&self, name: &str) -> (r: Option<usize>)
        ensures
            r == self.sp_name(name@),
    ;

    /// Check an explicit index.
    fn validate_index(&self, index: usize) -> (r: bool)
        ensures
            r == self.sp_index_ok(index as int),
    ;

    /// Bind the argument at `index` to the mode `tag`.
    fn format(&self, tag: Tag, index: usize) -> (r: Option<A>)
        requires
            self.sp_index_ok(index as int),
        ensures
            r == self.sp_format(tag, index as int),
    ;

    /// Bind the argument at `index` as a width or precision provider.
    fn format_usize(&self, index: usize) -> (r: Option<A>)
        requires
            self.sp_index_ok(index as int),
        ensures
            r == self.sp_count(index as int),
    ;
}

/// The first slot in `params` carrying the name `name`, if any.
pub open spec fn spec_find_name(params: Seq<Param>, name: Seq<char>) -> Option<usize>
    decreases params.len(),
{
    if params.len() <= 0 {
        None
    } else if params[0].spec_name() matches Some(n) && n == name {
        Some(0usize)
    } else {
        match spec_find_name(params.subrange(1, params.len() as int), name) {
            None => None,
            Some(i) => Some((i + 1) as usize),
        }
    }
}

/// Skipping a slot whose name does not match shifts the search by one.
pub proof fn lemma_find_name_step(params: Seq<Param>, name: Seq<char>, i: int)
    requires
        0 <= i < params.len(),
        !(params[i].spec_name() matches Some(n) && n == name),
    ensures
        spec_find_name(params.subrange(i, params.len() as int), name) == match spec_find_name(
            params.subrange(i + 1, params.len() as int),
            name,
        ) {
            None => None::<usize>,
            Some(j) => Some((j + 1) as usize),
        },
{
    let rest = params.subrange(i, params.len() as int);
    assert(rest[0] == params[i]);
    assert(rest.subrange(1, rest.len() as int) =~= params.subrange(i + 1, params.len() as int));
}

/// A found name always denotes a slot inside the parameter list.
pub proof fn lemma_find_name_in_range(params: Seq<Param>, name: Seq<char>)
    ensures
        spec_find_name(params, name) matches Some(i) ==> i < params.len(),
    decreases params.len(),
{
    if params.len() > 0 {
        lemma_find_name_in_range(params.subrange(1, params.len() as int), name);
    }
}

/// Immediate binding: resolve eagerly against concrete erased values.
pub struct ImmediateParse<'p> {
    pub params: &'p Vec<Param>,
}

impl<'p> ParseTarget<RtArg> for ImmediateParse<'p> {
    open spec fn sp_name(&self, name: Seq<char>) -> Option<usize> {
        spec_find_name(self.params@, name)
    }

    open spec fn sp_index_ok(&self, index: int) -> bool {
        index < self.params@.len()
    }

    open spec fn sp_format(&self, tag: Tag, index: int) -> Option<RtArg> {
        if self.params@[index].spec_value().spec_supports(tag) {
            Some(RtArg::Val { value: self.params@[index].spec_value(), tag })
        } else {
            None
        }
    }

    open spec fn sp_count(&self, index: int) -> Option<RtArg> {
        match self.params@[index].spec_as_usize() {
            Some(u) => Some(RtArg::Count { size: u }),
            None => None,
        }
    }

    proof fn name_index_valid(&self, name: Seq<char>) {
        lemma_find_name_in_range(self.params@, name);
    }

    fn validate_name(&self, name: &str) -> (r: Option<usize>) {
        let n = self.params.len();
        let name_s = name.to_owned();
        let mut i: usize = 0;
        proof {
            assert(self.params@.subrange(0, n as int) =~= self.params@);
        }
        while i < n
            invariant
                i <= n,
                n == self.params@.len(),
                name_s@ == name@,
                spec_find_name(self.params@, name@) == match spec_find_name(
                    self.params@.subrange(i as int, n as int),
                    name@,
                ) {
                    None => None::<usize>,
                    Some(j) => Some((j + i) as usize),
                },
            decreases n - i,
        {
            let p = &self.params[i];
            let named = match &p.name {
                Some(s) => s.eq(&name_s),
                None => false,
            };
            proof {
                assert(*p == self.params@[i as int]);
                assert(name_s@ == name@);
                assert(named == (p.spec_name() matches Some(nm) && nm == name@));
            }
            if named {
                proof {
                    assert(self.params@.subrange(i as int, n as int)[0] == self.params@[i as int]);
                    assert(spec_find_name(self.params@.subrange(i as int, n as int), name@)
                        == Some(0usize));
                }
                return Some(i);
            }
            proof {
                lemma_find_name_step(self.params@, name@, i as int);
                lemma_find_name_in_range(self.params@.subrange(i + 1, n as int), name@);
            }
            i = i + 1;
        }
        proof {
            assert(self.params@.subrange(n as int, n as int).len() == 0);
        }
        None
    }

    fn validate_index(&self, index: usize) -> (r: bool) {
        index < self.params.len()
    }

    fn format(&self, tag: Tag, index: usize) -> (r: Option<RtArg>) {
        let value = &self.params[index].value;
        if value.supports(tag) {
            Some(RtArg::Val { value: value.dup(), tag })
        } else {
            None
        }
    }

    fn format_usize(&self, index: usize) -> (r: Option<RtArg>) {
        match self.params[index].as_usize {
            Some(u) => Some(RtArg::Count { size: u }),
            None => None,
        }
    }
}

/// The shape a producer type declares so that format strings can be
/// prepared against it before any instance exists.  The slot tables are
/// static; only `get_value` and `get_usize` read an instance.
pub trait FormatArgs: Sized {
    /// The slot a name denotes, if any.
    spec fn sp_name_index(name: Seq<char>) -> Option<usize>;

    /// Whether an index denotes a valid slot.
    spec fn sp_index_ok(index: int) -> bool;

    /// Whether the slot supports the formatting mode `tag`.
    spec fn sp_supports(index: int, tag: Tag) -> bool;

    /// Whether the slot can act as a width or precision count.
    spec fn sp_count_ok(index: int) -> bool;

    /// The erased value an instance exposes at a slot.
    spec fn sp_value(&self, index: int) -> Value;

    /// The unsigned size an instance exposes at a count slot.
    spec fn sp_usize(&self, index: int) -> usize;

    /// Every slot a name resolves to is a valid slot.
    proof fn name_index_valid(name: Seq<char>)
        ensures
            Self::sp_name_index(name) matches Some(i) ==> Self::sp_index_ok(i as int),
    ;

    /// Look up a named slot.
    fn validate_name(name: &str) -> (r: Option<usize>)
        ensures
            r == Self::sp_name_index(name@),
    ;

    /// Check an explicit index.
    fn validate_index(index: usize) -> (r: bool)
        ensures
            r == Self::sp_index_ok(index as int),
    ;

    /// Whether the slot supports the mode `tag`.
    fn supports(index: usize, tag: Tag) -> (r: bool)
        requires
            Self::sp_index_ok(index as int),
        ensures
            r == Self::sp_supports(index as int, tag),
    ;

    /// Whether the slot can act as a count.
    fn count_ok(index: usize) -> (r: bool)
        requires
            Self::sp_index_ok(index as int),
        ensures
            r == Self::sp_count_ok(index as int),
    ;

    /// The value this instance exposes at a slot.
    fn get_value(&self, index: usize) -> (r: Value)
        requires
            Self::sp_index_ok(index as int),
        ensures
            r == self.sp_value(index as int),
    ;

    /// The unsigned size this instance exposes at a count slot.
    fn get_usize(&self, index: usize) -> (r: usize)
        requires
            Self::sp_index_ok(index as int),
            Self::sp_count_ok(index as int),
        ensures
            r == self.sp_usize(index as int),
    ;
}

/// Deferred binding: resolve against a producer type's declared shape,
/// producing recipes instead of bound values.
pub struct DelayedParse<T> {
    pub marker: core::marker::PhantomData<T>,
}

impl<T> DelayedParse<T> {
    /// A deferred binding for the producer type `T`.
    pub fn new() -> (r: DelayedParse<T>) {
        DelayedParse { marker: core::marker::PhantomData }
    }
}

impl<T: FormatArgs> ParseTarget<PreparedArgument> for DelayedParse<T> {
    open spec fn sp_name(&self, name: Seq<char>) -> Option<usize> {
        T::sp_name_index(name)
    }

    open spec fn sp_index_ok(&self, index: int) -> bool {
        T::sp_index_ok(index)
    }

    open spec fn sp_format(&self, tag: Tag, index: int) -> Option<PreparedArgument> {
        if 0 <= index <= usize::MAX && T::sp_supports(index, tag) {
            Some(PreparedArgument::Normal { index: index as usize, tag })
        } else {
            None
        }
    }

    open spec fn sp_count(&self, index: int) -> Option<PreparedArgument> {
        if 0 <= index <= usize::MAX && T::sp_count_ok(index) {
            Some(PreparedArgument::Usize { index: index as usize })
        } else {
            None
        }
    }

    proof fn name_index_valid(&self, name: Seq<char>) {
        T::name_index_valid(name);
    }

    fn validate_name(&self, name: &str) -> (r: Option<usize>) {
        T::validate_name(name)
    }

    fn validate_index(&self, index: usize) -> (r: bool) {
        T::validate_index(index)
    }

    fn format(&self, tag: Tag, index: usize) -> (r: Option<PreparedArgument>) {
        if T::supports(index, tag) {
            Some(PreparedArgument::Normal { index, tag })
        } else {
            None
        }
    }

    fn format_usize(&self, index: usize) -> (r: Option<PreparedArgument>) {
        if T::count_ok(index) {
            Some(PreparedArgument::Usize { index })
        } else {
            None
        }
    }
}

} // verus!
