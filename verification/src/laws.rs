//! The library's general laws, stated and proved once over the resolver's
//! model and the renderer's specification.

use vstd::prelude::*;
use crate::binding::{FormatArgs, ImmediateParse, ParseTarget, RtArg};
use crate::plan::{recipe_ok, spec_replay, spec_replay_all, PreparedFormat};
use crate::render::{
    piece_at, spec_count_value, spec_display, spec_render, spec_render_arg, spec_render_upto,
};
use crate::resolve::{finish, resolve_model, run_resolve, ResolveState};
use crate::tokens::{Align, FmtSpec, InCount, Piece, Position, RCount};
use crate::value::Tag;

verus! {

/// Whether a piece is plain for the given parameters: literal text, or an
/// explicit in-range index reference with an all-default descriptor whose
/// value renders under `Display`.
pub open spec fn plain_piece(params: Seq<crate::binding::Param>, p: Piece) -> bool {
    match p {
        Piece::Literal(_) => true,
        Piece::Arg(a) => {
            &&& a.position matches Position::Index(i) && i < params.len()
                && params[i as int].spec_value().spec_supports(Tag::Display)
            &&& a.format.fill is None
            &&& a.format.align == Align::Unknown
            &&& a.format.flags == 0u32
            &&& a.format.precision is Implied
            &&& a.format.width is Implied
            &&& a.format.ty@ == Seq::<char>::empty()
        },
    }
}

/// The text a compile-time equivalent produces for a plain token stream:
/// the literals, with each referenced value rendered under `Display`.
pub open spec fn plain_text(params: Seq<crate::binding::Param>, pieces: Seq<Piece>) -> Seq<char>
    decreases pieces.len(),
{
    if pieces.len() == 0 {
        Seq::empty()
    } else {
        plain_text(params, pieces.drop_last()) + match pieces.last() {
            Piece::Literal(s) => s@,
            Piece::Arg(a) => match a.position {
                Position::Index(i) => spec_display(params[i as int].spec_value()),
                Position::Named(_) => Seq::empty(),
            },
        }
    }
}

/// The format specification a plain reference resolves to: slot `j`, all
/// directives at their defaults.
pub open spec fn default_spec_at(j: int) -> FmtSpec {
    FmtSpec {
        position: j as usize,
        fill: ' ',
        align: Align::Unknown,
        flags: 0u32,
        precision: RCount::Implied,
        width: RCount::Implied,
    }
}

/// The shape a resolver state has after plain pieces only: one fragment,
/// one `Display`-bound argument and one default specification per
/// reference, in step.
pub open spec fn plain_state(st: ResolveState<RtArg>) -> bool {
    &&& st.pieces.len() == st.fmt.len()
    &&& st.args.len() == st.fmt.len()
    &&& forall|j: int| 0 <= j < st.fmt.len() ==> #[trigger] st.fmt[j] == default_spec_at(j)
    &&& forall|j: int| 0 <= j < st.args.len() ==> (#[trigger] st.args[j]) matches RtArg::Val {
        tag: Tag::Display,
        ..
    }
}

/// The text a plain state renders to so far, pending buffer included.
pub open spec fn render_state(st: ResolveState<RtArg>) -> Seq<char> {
    spec_render_upto(st.pieces, st.args, st.fmt, st.fmt.len() as int) + st.buf
}

/// Extending a plan past its first `k` fragment/argument pairs does not
/// change the text those pairs render to, as long as each of the `k`
/// specifications is a default one pointing below `args.len()`.
proof fn lemma_upto_extend(
    pieces: Seq<Seq<char>>,
    args: Seq<RtArg>,
    fmt: Seq<FmtSpec>,
    pieces2: Seq<Seq<char>>,
    args2: Seq<RtArg>,
    fmt2: Seq<FmtSpec>,
    k: int,
)
    requires
        0 <= k <= fmt.len(),
        k <= fmt2.len(),
        forall|j: int| 0 <= j < k ==> piece_at(pieces2, j) == piece_at(pieces, j),
        forall|j: int| 0 <= j < k ==> #[trigger] fmt2[j] == fmt[j],
        forall|j: int| 0 <= j < k ==> #[trigger] fmt[j] == default_spec_at(j),
        k <= args.len(),
        k <= args2.len(),
        forall|j: int| 0 <= j < k ==> #[trigger] args2[j] == #[trigger] args[j],
    ensures
        spec_render_upto(pieces2, args2, fmt2, k) == spec_render_upto(pieces, args, fmt, k),
    decreases k,
{
    if k > 0 {
        lemma_upto_extend(pieces, args, fmt, pieces2, args2, fmt2, k - 1);
        assert(spec_render_arg(args2, fmt2[k - 1]) == spec_render_arg(args, fmt[k - 1]));
    }
}

/// Resolving a plain token stream succeeds and accumulates exactly the
/// compile-time text.
proof fn lemma_plain_run<'p>(t: ImmediateParse<'p>, pieces: Seq<Piece>)
    requires
        pieces.len() <= usize::MAX,
        forall|k: int| 0 <= k < pieces.len() ==> plain_piece(t.params@, #[trigger] pieces[k]),
    ensures
        run_resolve(t, pieces) matches Ok(st) && plain_state(st) && st.fmt.len() <= pieces.len()
            && render_state(st) == plain_text(t.params@, pieces),
    decreases pieces.len(),
{
    if pieces.len() == 0 {
        let st = ResolveState::<RtArg> {
            pieces: Seq::empty(),
            args: Seq::empty(),
            fmt: Seq::empty(),
            buf: Seq::empty(),
        };
        assert(render_state(st) =~= Seq::<char>::empty());
    } else {
        lemma_plain_run(t, pieces.drop_last());
        let st = run_resolve(t, pieces.drop_last())->Ok_0;
        let len = st.fmt.len() as int;
        match pieces.last() {
            Piece::Literal(s) => {
                let st2 = ResolveState { buf: st.buf + s@, ..st };
                assert(render_state(st2) =~= render_state(st) + s@);
            },
            Piece::Arg(a) => {
                let i = a.position->Index_0;
                let v = t.params@[i as int].spec_value();
                let st2 = ResolveState {
                    pieces: st.pieces.push(st.buf),
                    args: st.args.push(RtArg::Val { value: v, tag: Tag::Display }),
                    fmt: st.fmt.push(default_spec_at(len)),
                    buf: Seq::empty(),
                };
                assert(run_resolve(t, pieces) == Ok::<ResolveState<RtArg>, crate::error::ErrModel>(
                    st2,
                ));
                assert(plain_state(st2));
                lemma_upto_extend(
                    st.pieces,
                    st.args,
                    st.fmt,
                    st2.pieces,
                    st2.args,
                    st2.fmt,
                    len,
                );
                assert(piece_at(st2.pieces, len) == st.buf);
                assert(spec_count_value(st2.args, RCount::Implied) is None);
                assert(spec_render_arg(st2.args, default_spec_at(len)) == spec_display(v));
                assert(spec_render_upto(st2.pieces, st2.args, st2.fmt, len + 1)
                    == spec_render_upto(st.pieces, st.args, st.fmt, len) + st.buf + spec_display(
                    v,
                ));
                assert(render_state(st2) =~= (spec_render_upto(st.pieces, st.args, st.fmt, len)
                    + st.buf) + spec_display(v));
            },
        }
    }
}

/// Positional round-trip: a token stream of literal text and plain
/// explicit-index references resolves, and its plan renders to exactly
/// the text a compile-time equivalent produces: the literals with each
/// referenced value rendered under `Display`, in order.
pub proof fn lemma_positional_round_trip<'p>(t: ImmediateParse<'p>, pieces: Seq<Piece>)
    requires
        pieces.len() <= usize::MAX,
        forall|k: int| 0 <= k < pieces.len() ==> plain_piece(t.params@, #[trigger] pieces[k]),
    ensures
        resolve_model(t, pieces) matches Ok(st) && spec_render(st.pieces, st.args, st.fmt)
            == plain_text(t.params@, pieces),
{
    lemma_plain_run(t, pieces);
    let st = run_resolve(t, pieces)->Ok_0;
    let len = st.fmt.len() as int;
    let fin = finish(st);
    if st.buf.len() == 0 {
        assert(piece_at(fin.pieces, len) == Seq::<char>::empty());
        assert(spec_render(fin.pieces, fin.args, fin.fmt) =~= render_state(st));
    } else {
        lemma_upto_extend(st.pieces, st.args, st.fmt, fin.pieces, fin.args, fin.fmt, len);
        assert(piece_at(fin.pieces, len) == st.buf);
        assert(spec_render(fin.pieces, fin.args, fin.fmt) =~= render_state(st));
    }
}

/// Prepared-plan reuse: rendering a prepared plan is a pure function of
/// the plan and the values the producer instance exposes.  Two instances
/// exposing the same values render to the same text; in particular, one
/// instance renders identically on every call.
pub proof fn lemma_prepared_reuse<T: FormatArgs>(p: PreparedFormat<T>, a: T, b: T)
    requires
        p.wf(),
        forall|i: int| T::sp_index_ok(i) ==> a.sp_value(i) == b.sp_value(i),
        forall|i: int| T::sp_index_ok(i) && T::sp_count_ok(i) ==> a.sp_usize(i) == b.sp_usize(i),
    ensures
        p.rendered_with(a) == p.rendered_with(b),
{
    assert forall|j: int| 0 <= j < p.recipes().len() implies #[trigger] spec_replay(
        a,
        p.recipes()[j],
    ) == spec_replay(b, p.recipes()[j]) by {
        assert(recipe_ok::<T>(p.recipes()[j]));
    }
    assert(spec_replay_all(a, p.recipes()) =~= spec_replay_all(b, p.recipes()));
}

} // verus!
