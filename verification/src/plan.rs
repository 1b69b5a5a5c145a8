//! The plan wrappers: an immediate plan ready to render now, and a
//! prepared plan whose recipes replay against producer instances, plus
//! the rendering facade both expose.

use vstd::prelude::*;
use vstd::string::StringExecFns;
use vstd::string::StringSliceAdditionalSpecFns;
use std::io::Write;
use crate::binding::{
    DelayedParse, FormatArgs, ImmediateParse, Param, ParseTarget, PreparedArgument, RtArg,
};
use crate::error::{err_matches, Error};
use crate::render::{render_parts, spec_render};
use crate::resolve::{
    arg_from_target, lemma_run_args_ok, newln, outer_parse, resolve_model, run_resolve, views_of,
};
use crate::tokens::{FmtSpec, Template};
use crate::value::Tag;

verus! {

/// The backend-boundary triple: literal fragments, resolved arguments and
/// format specifications, in the shape the rendering backend consumes.
pub struct Arguments {
    pub pieces: Vec<String>,
    pub args: Vec<RtArg>,
    pub fmt: Vec<FmtSpec>,
}

/// Hand an assembled triple to the rendering backend.
pub fn render(a: &Arguments) -> (r: String)
    ensures
        r@ == spec_render(views_of(a.pieces@), a.args@, a.fmt@),
{
    render_parts(&a.pieces, &a.args, &a.fmt)
}

/// Relies on `std::io::stdout` and the `write!` macro: prints the text to
/// standard output; a failing write is ignored, as the platform print
/// primitive ignores it.
#[verifier::external_body]
fn print_str(s: &str) {
    let _ = write!(std::io::stdout(), "{}", s);
}

/// Copy a fragment list.
fn dup_strings(v: &Vec<String>) -> (r: Vec<String>)
    ensures
        r@ == v@,
{
    let mut r: Vec<String> = Vec::new();
    let n = v.len();
    let mut i: usize = 0;
    while i < n
        invariant
            i <= n,
            n == v@.len(),
            r@ == v@.take(i as int),
        decreases n - i,
    {
        r.push(v[i].clone());
        proof {
            assert(v@.take(i + 1) =~= v@.take(i as int).push(v@[i as int]));
        }
        i = i + 1;
    }
    proof {
        assert(v@.take(n as int) =~= v@);
    }
    r
}

/// Copy a resolved-argument list.
fn dup_rtargs(v: &Vec<RtArg>) -> (r: Vec<RtArg>)
    ensures
        r@ == v@,
{
    let mut r: Vec<RtArg> = Vec::new();
    let n = v.len();
    let mut i: usize = 0;
    while i < n
        invariant
            i <= n,
            n == v@.len(),
            r@ == v@.take(i as int),
        decreases n - i,
    {
        r.push(v[i].dup());
        proof {
            assert(v@.take(i + 1) =~= v@.take(i as int).push(v@[i as int]));
        }
        i = i + 1;
    }
    proof {
        assert(v@.take(n as int) =~= v@);
    }
    r
}

/// Copy a format-specification list.
fn dup_specs(v: &Vec<FmtSpec>) -> (r: Vec<FmtSpec>)
    ensures
        r@ == v@,
{
    let mut r: Vec<FmtSpec> = Vec::new();
    let n = v.len();
    let mut i: usize = 0;
    while i < n
        invariant
            i <= n,
            n == v@.len(),
            r@ == v@.take(i as int),
        decreases n - i,
    {
        r.push(v[i]);
        proof {
            assert(v@.take(i + 1) =~= v@.take(i as int).push(v@[i as int]));
        }
        i = i + 1;
    }
    proof {
        assert(v@.take(n as int) =~= v@);
    }
    r
}

/// A buffer holding a parsed format string bound to concrete argument
/// values: ready to render, as often as wanted.
#[derive(Debug)]
pub struct FormatBuf {
    pieces: Vec<String>,
    args: Vec<RtArg>,
    fmt: Vec<FmtSpec>,
}

impl FormatBuf {
    /// The literal fragments of the plan.
    pub closed spec fn frags(self) -> Seq<Seq<char>> {
        views_of(self.pieces@)
    }

    /// The resolved arguments of the plan.
    pub closed spec fn rt_args(self) -> Seq<RtArg> {
        self.args@
    }

    /// The format specifications of the plan.
    pub closed spec fn specs(self) -> Seq<FmtSpec> {
        self.fmt@
    }

    /// The text this plan renders to.
    pub open spec fn rendered(self) -> Seq<char> {
        spec_render(self.frags(), self.rt_args(), self.specs())
    }

    /// Construct a plan from the tokenizer's output and a parameter list.
    /// Succeeds exactly when the tokenizer recorded no syntax diagnostics
    /// and every reference resolves; syntax errors take priority.
    pub fn new(tpl: &Template, params: &Vec<Param>) -> (r: Result<FormatBuf, Error>)
        ensures
            tpl.errors@.len() > 0 ==> (r matches Err(e) && e matches Error::BadSyntax(v) && v@
                == tpl.errors@),
            tpl.errors@.len() == 0 ==> match r {
                Ok(b) => resolve_model(ImmediateParse { params }, tpl.pieces@) matches Ok(st)
                    && b.frags() == st.pieces && b.rt_args() == st.args && b.specs() == st.fmt
                    && b.specs().len() <= b.frags().len() <= b.specs().len() + 1,
                Err(e) => resolve_model(ImmediateParse { params }, tpl.pieces@) matches Err(em)
                    && err_matches(e, em),
            },
    {
        let target = ImmediateParse { params };
        match outer_parse(tpl, &target) {
            Ok(p) => Ok(FormatBuf { pieces: p.pieces, args: p.args, fmt: p.fmt }),
            Err(e) => Err(e),
        }
    }

    /// Append a linefeed to the end of this buffer.  A plan ending in
    /// literal text keeps its fragment count; one ending on an argument
    /// gains exactly one one-character fragment.
    pub fn newln(&mut self)
        ensures
            final(self).rt_args() == old(self).rt_args(),
            final(self).specs() == old(self).specs(),
            old(self).frags().len() > old(self).specs().len() ==> {
                &&& final(self).frags().len() == old(self).frags().len()
                &&& final(self).frags() == old(self).frags().update(
                    old(self).frags().len() - 1,
                    old(self).frags().last() + "\n"@,
                )
            },
            old(self).frags().len() <= old(self).specs().len() ==> final(self).frags() == old(
                self,
            ).frags().push("\n"@),
    {
        let len = self.fmt.len();
        newln(&mut self.pieces, len);
    }

    /// Assemble the backend triple from the contents of this buffer.
    pub fn with(&self) -> (a: Arguments)
        ensures
            views_of(a.pieces@) == self.frags(),
            a.args@ == self.rt_args(),
            a.fmt@ == self.specs(),
    {
        Arguments {
            pieces: dup_strings(&self.pieces),
            args: dup_rtargs(&self.args),
            fmt: dup_specs(&self.fmt),
        }
    }

    /// Format this buffer to a `String`.
    pub fn format(&self) -> (r: String)
        ensures
            r@ == self.rendered(),
    {
        render_parts(&self.pieces, &self.args, &self.fmt)
    }

    /// Print this buffer to standard output.
    pub fn print(&self) {
        let s = self.format();
        print_str(s.as_str());
    }

    /// Write this buffer's UTF-8 bytes to a byte sink.
    pub fn write_io(&self, dest: &mut Vec<u8>) -> (r: Result<(), Error>)
        ensures
            r is Ok,
            final(dest)@ == old(dest)@ + vstd::utf8::encode_utf8(self.rendered()),
    {
        let s = self.format();
        append_utf8(dest, s.as_str());
        Ok(())
    }

    /// Write this buffer to a text sink.
    pub fn write_fmt(&self, dest: &mut String) -> (r: Result<(), Error>)
        ensures
            r is Ok,
            final(dest)@ == old(dest)@ + self.rendered(),
    {
        let s = self.format();
        dest.append(s.as_str());
        Ok(())
    }
}

/// Append the UTF-8 bytes of `s` to a byte sink.
fn append_utf8(dest: &mut Vec<u8>, s: &str)
    ensures
        final(dest)@ == old(dest)@ + vstd::utf8::encode_utf8(s@),
{
    let bytes = s.as_bytes();
    let n = bytes.len();
    let mut i: usize = 0;
    while i < n
        invariant
            i <= n,
            n == bytes@.len(),
            bytes@ == s.spec_bytes(),
            dest@ == old(dest)@ + bytes@.take(i as int),
        decreases n - i,
    {
        dest.push(bytes[i]);
        proof {
            assert(bytes@.take(i + 1) =~= bytes@.take(i as int).push(bytes@[i as int]));
        }
        i = i + 1;
    }
    proof {
        assert(bytes@.take(n as int) =~= bytes@);
    }
}

/// Whether a recipe fits the producer type's declared shape.
pub open spec fn recipe_ok<T: FormatArgs>(a: PreparedArgument) -> bool {
    match a {
        PreparedArgument::Normal { index, tag } => T::sp_index_ok(index as int),
        PreparedArgument::Usize { index } => T::sp_index_ok(index as int) && T::sp_count_ok(
            index as int,
        ),
    }
}

/// The resolved argument a recipe yields against one producer instance.
pub open spec fn spec_replay<T: FormatArgs>(t: T, a: PreparedArgument) -> RtArg
    recommends
        recipe_ok::<T>(a),
{
    match a {
        PreparedArgument::Normal { index, tag } => RtArg::Val {
            value: t.sp_value(index as int),
            tag,
        },
        PreparedArgument::Usize { index } => RtArg::Count { size: t.sp_usize(index as int) },
    }
}

/// Replay a whole recipe list against one producer instance.
pub open spec fn spec_replay_all<T: FormatArgs>(t: T, args: Seq<PreparedArgument>) -> Seq<RtArg> {
    args.map_values(|a: PreparedArgument| spec_replay(t, a))
}

/// A recipe handed out by the deferred binding fits the producer's shape.
pub proof fn lemma_from_target_recipe_ok<T: FormatArgs>(dp: DelayedParse<T>, a: PreparedArgument)
    requires
        arg_from_target(dp, a),
    ensures
        recipe_ok::<T>(a),
{
    if exists|tag: Tag, idx: int| dp.sp_index_ok(idx) && #[trigger] dp.sp_format(tag, idx)
        == Some(a) {
        let (tag, idx) = choose|tag: Tag, idx: int|
            dp.sp_index_ok(idx) && #[trigger] dp.sp_format(tag, idx) == Some(a);
        assert(a == PreparedArgument::Normal { index: idx as usize, tag });
    } else {
        let idx = choose|idx: int| dp.sp_index_ok(idx) && #[trigger] dp.sp_count(idx) == Some(a);
        assert(a == PreparedArgument::Usize { index: idx as usize });
    }
}

/// Replay every recipe of a plan against one producer instance.
fn replay_args<T: FormatArgs>(t: &T, args: &Vec<PreparedArgument>) -> (r: Vec<RtArg>)
    requires
        forall|j: int| 0 <= j < args@.len() ==> recipe_ok::<T>(#[trigger] args@[j]),
    ensures
        r@ == spec_replay_all(*t, args@),
{
    let mut r: Vec<RtArg> = Vec::new();
    let n = args.len();
    let mut i: usize = 0;
    proof {
        assert(r@ =~= spec_replay_all(*t, args@.take(0)));
    }
    while i < n
        invariant
            i <= n,
            n == args@.len(),
            forall|j: int| 0 <= j < args@.len() ==> recipe_ok::<T>(#[trigger] args@[j]),
            r@ == spec_replay_all(*t, args@.take(i as int)),
        decreases n - i,
    {
        let a = match &args[i] {
            PreparedArgument::Normal { index, tag } => RtArg::Val {
                value: t.get_value(*index),
                tag: *tag,
            },
            PreparedArgument::Usize { index } => RtArg::Count { size: t.get_usize(*index) },
        };
        r.push(a);
        proof {
            assert(spec_replay_all(*t, args@.take(i + 1)) =~= spec_replay_all(
                *t,
                args@.take(i as int),
            ).push(spec_replay(*t, args@[i as int])));
        }
        i = i + 1;
    }
    proof {
        assert(args@.take(n as int) =~= args@);
    }
    r
}

/// A pre-checked format string, prepared against a producer type: render
/// any number of that type's instances without re-validating.
#[derive(Debug)]
pub struct PreparedFormat<T: FormatArgs> {
    pieces: Vec<String>,
    args: Vec<PreparedArgument>,
    fmt: Vec<FmtSpec>,
    marker: core::marker::PhantomData<T>,
}

impl<T: FormatArgs> PreparedFormat<T> {
    /// The literal fragments of the plan.
    pub closed spec fn frags(self) -> Seq<Seq<char>> {
        views_of(self.pieces@)
    }

    /// The recipes of the plan.
    pub closed spec fn recipes(self) -> Seq<PreparedArgument> {
        self.args@
    }

    /// The format specifications of the plan.
    pub closed spec fn specs(self) -> Seq<FmtSpec> {
        self.fmt@
    }

    /// Every recipe fits the producer type's declared shape.
    pub open spec fn wf(self) -> bool {
        forall|j: int| 0 <= j < self.recipes().len() ==> recipe_ok::<T>(#[trigger] self.recipes()[j])
    }

    /// The text this plan renders to against one producer instance.
    pub open spec fn rendered_with(self, t: T) -> Seq<char> {
        spec_render(self.frags(), spec_replay_all(t, self.recipes()), self.specs())
    }

    /// Prepare a format string against a producer type.  Once prepared,
    /// rendering an instance re-checks nothing.
    pub fn prepare(tpl: &Template) -> (r: Result<PreparedFormat<T>, Error>)
        ensures
            tpl.errors@.len() > 0 ==> (r matches Err(e) && e matches Error::BadSyntax(v) && v@
                == tpl.errors@),
            tpl.errors@.len() == 0 ==> match r {
                Ok(p) => resolve_model(
                    DelayedParse::<T> { marker: core::marker::PhantomData },
                    tpl.pieces@,
                ) matches Ok(st) && p.frags() == st.pieces && p.recipes() == st.args && p.specs()
                    == st.fmt && p.specs().len() <= p.frags().len() <= p.specs().len() + 1
                    && p.wf(),
                Err(e) => resolve_model(
                    DelayedParse::<T> { marker: core::marker::PhantomData },
                    tpl.pieces@,
                ) matches Err(em) && err_matches(e, em),
            },
    {
        let target: DelayedParse<T> = DelayedParse::new();
        match outer_parse(tpl, &target) {
            Ok(p) => {
                proof {
                    lemma_run_args_ok(target, tpl.pieces@);
                    if run_resolve(target, tpl.pieces@) matches Ok(st) {
                        assert forall|j: int| 0 <= j < p.args@.len() implies recipe_ok::<T>(
                            #[trigger] p.args@[j],
                        ) by {
                            lemma_from_target_recipe_ok(target, p.args@[j]);
                        }
                    }
                }
                Ok(PreparedFormat { pieces: p.pieces, args: p.args, fmt: p.fmt, marker: core::marker::PhantomData })
            },
            Err(e) => Err(e),
        }
    }

    /// Append a linefeed to the end of this buffer.  A plan ending in
    /// literal text keeps its fragment count; one ending on an argument
    /// gains exactly one one-character fragment.
    pub fn newln(&mut self)
        ensures
            final(self).recipes() == old(self).recipes(),
            final(self).specs() == old(self).specs(),
            final(self).wf() == old(self).wf(),
            old(self).frags().len() > old(self).specs().len() ==> {
                &&& final(self).frags().len() == old(self).frags().len()
                &&& final(self).frags() == old(self).frags().update(
                    old(self).frags().len() - 1,
                    old(self).frags().last() + "\n"@,
                )
            },
            old(self).frags().len() <= old(self).specs().len() ==> final(self).frags() == old(
                self,
            ).frags().push("\n"@),
    {
        let len = self.fmt.len();
        newln(&mut self.pieces, len);
        proof {
            if old(self).wf() {
                assert forall|j: int| 0 <= j < self.recipes().len() implies recipe_ok::<T>(
                    #[trigger] self.recipes()[j],
                ) by {
                    assert(recipe_ok::<T>(old(self).recipes()[j]));
                }
            }
            if self.wf() {
                assert forall|j: int| 0 <= j < old(self).recipes().len() implies recipe_ok::<T>(
                    #[trigger] old(self).recipes()[j],
                ) by {
                    assert(recipe_ok::<T>(self.recipes()[j]));
                }
            }
        }
    }

    /// Assemble the backend triple for one producer instance, replaying
    /// the stored recipes against it.
    pub fn with(&self, t: &T) -> (a: Arguments)
        requires
            self.wf(),
        ensures
            views_of(a.pieces@) == self.frags(),
            a.args@ == spec_replay_all(*t, self.recipes()),
            a.fmt@ == self.specs(),
    {
        proof {
            assert forall|j: int| 0 <= j < self.args@.len() implies recipe_ok::<T>(
                #[trigger] self.args@[j],
            ) by {
                assert(self.args@[j] == self.recipes()[j]);
                assert(recipe_ok::<T>(self.recipes()[j]));
            }
        }
        Arguments {
            pieces: dup_strings(&self.pieces),
            args: replay_args(t, &self.args),
            fmt: dup_specs(&self.fmt),
        }
    }

    /// Format the given producer instance to a `String`.
    pub fn format(&self, t: &T) -> (r: String)
        requires
            self.wf(),
        ensures
            r@ == self.rendered_with(*t),
    {
        proof {
            assert forall|j: int| 0 <= j < self.args@.len() implies recipe_ok::<T>(
                #[trigger] self.args@[j],
            ) by {
                assert(self.args@[j] == self.recipes()[j]);
                assert(recipe_ok::<T>(self.recipes()[j]));
            }
        }
        let args = replay_args(t, &self.args);
        render_parts(&self.pieces, &args, &self.fmt)
    }

    /// Print the given producer instance to standard output.
    pub fn print(&self, t: &T)
        requires
            self.wf(),
    {
        let s = self.format(t);
        print_str(s.as_str());
    }

    /// Write the given producer instance's UTF-8 bytes to a byte sink.
    pub fn write_io(&self, t: &T, dest: &mut Vec<u8>) -> (r: Result<(), Error>)
        requires
            self.wf(),
        ensures
            r is Ok,
            final(dest)@ == old(dest)@ + vstd::utf8::encode_utf8(self.rendered_with(*t)),
    {
        let s = self.format(t);
        append_utf8(dest, s.as_str());
        Ok(())
    }

    /// Write the given producer instance to a text sink.
    pub fn write_fmt(&self, t: &T, dest: &mut String) -> (r: Result<(), Error>)
        requires
            self.wf(),
        ensures
            r is Ok,
            final(dest)@ == old(dest)@ + self.rendered_with(*t),
    {
        let s = self.format(t);
        dest.append(s.as_str());
        Ok(())
    }
}

} // verus!
