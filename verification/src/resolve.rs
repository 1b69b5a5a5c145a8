//! The resolver: one forward pass over the tokenizer's pieces, generic over
//! the binding strategy, producing a rendering plan or the first
//! resolution error.  Syntax errors recorded by the tokenizer take
//! priority over any resolution error.

use vstd::prelude::*;
use vstd::string::StringExecFns;
use crate::binding::ParseTarget;
use crate::error::{err_matches, ErrModel, Error};
use crate::tokens::{ArgRef, FmtSpec, InCount, Piece, Position, RCount, Template};
use crate::value::{spec_tag_for, spec_trait_name, tag_for, trait_name, Tag};

verus! {

/// The resolver's accumulated output while walking the token stream: the
/// flushed literal fragments, the resolved arguments, the format
/// specifications, and the pending literal buffer.
#[verifier::ext_equal]
pub ghost struct ResolveState<A> {
    pub pieces: Seq<Seq<char>>,
    pub args: Seq<A>,
    pub fmt: Seq<FmtSpec>,
    pub buf: Seq<char>,
}

/// The state before any piece has been consumed.
pub open spec fn init_state<A>() -> ResolveState<A> {
    ResolveState {
        pieces: Seq::empty(),
        args: Seq::empty(),
        fmt: Seq::empty(),
        buf: Seq::empty(),
    }
}

/// Resolve one width or precision: a literal count stands as it is; a
/// named or indexed count is validated and appends a fresh
/// resolved-argument entry that exposes the referenced slot as a size.
pub open spec fn step_count<A, P: ParseTarget<A>>(t: P, args: Seq<A>, c: InCount) -> Result<
    (RCount, Seq<A>),
    ErrModel,
> {
    match c {
        InCount::Is(v) => Ok((RCount::Is(v), args)),
        InCount::IsName(n) => match t.sp_name(n@) {
            None => Err(ErrModel::BadName(n@)),
            Some(i) => match t.sp_count(i as int) {
                None => Err(ErrModel::BadCount(i)),
                Some(a) => Ok((RCount::Param(args.len() as usize), args.push(a))),
            },
        },
        InCount::IsParam(i) => if !t.sp_index_ok(i as int) {
            Err(ErrModel::BadIndex(i))
        } else {
            match t.sp_count(i as int) {
                None => Err(ErrModel::BadCount(i)),
                Some(a) => Ok((RCount::Param(args.len() as usize), args.push(a))),
            }
        },
        InCount::Implied => Ok((RCount::Implied, args)),
    }
}

/// Resolve one argument reference: flush the pending literal, validate the
/// position, bind the argument to its tag, resolve both counts, and
/// append the assembled format specification.
pub open spec fn step_arg<A, P: ParseTarget<A>>(t: P, st: ResolveState<A>, arg: ArgRef) -> Result<
    ResolveState<A>,
    ErrModel,
> {
    let pieces2 = st.pieces.push(st.buf);
    let pos = match arg.position {
        Position::Index(i) => if t.sp_index_ok(i as int) {
            Ok(i)
        } else {
            Err(ErrModel::BadIndex(i))
        },
        Position::Named(n) => match t.sp_name(n@) {
            Some(i) => Ok(i),
            None => Err(ErrModel::BadName(n@)),
        },
    };
    match pos {
        Err(e) => Err(e),
        Ok(idx) => match spec_tag_for(arg.format.ty@) {
            None => Err(ErrModel::NoSuchFormat(arg.format.ty@)),
            Some(tag) => match t.sp_format(tag, idx as int) {
                None => Err(ErrModel::Unsatisfied { idx, must: spec_trait_name(tag) }),
                Some(a) => {
                    let argpos = st.args.len() as usize;
                    let args1 = st.args.push(a);
                    match step_count(t, args1, arg.format.precision) {
                        Err(e) => Err(e),
                        Ok(pr) => match step_count(t, pr.1, arg.format.width) {
                            Err(e) => Err(e),
                            Ok(wr) => Ok(
                                ResolveState {
                                    pieces: pieces2,
                                    args: wr.1,
                                    fmt: st.fmt.push(
                                        FmtSpec {
                                            position: argpos,
                                            fill: match arg.format.fill {
                                                Some(c) => c,
                                                None => ' ',
                                            },
                                            align: arg.format.align,
                                            flags: arg.format.flags,
                                            precision: pr.0,
                                            width: wr.0,
                                        },
                                    ),
                                    buf: Seq::empty(),
                                },
                            ),
                        },
                    }
                },
            },
        },
    }
}

/// Consume one piece: literal text joins the pending buffer, an argument
/// reference goes through `step_arg`.
pub open spec fn step<A, P: ParseTarget<A>>(t: P, st: ResolveState<A>, piece: Piece) -> Result<
    ResolveState<A>,
    ErrModel,
> {
    match piece {
        Piece::Literal(s) => Ok(ResolveState { buf: st.buf + s@, ..st }),
        Piece::Arg(a) => step_arg(t, st, a),
    }
}

/// The state after consuming a whole prefix of the token stream, or the
/// first resolution error.
pub open spec fn run_resolve<A, P: ParseTarget<A>>(t: P, pieces: Seq<Piece>) -> Result<
    ResolveState<A>,
    ErrModel,
>
    decreases pieces.len(),
{
    if pieces.len() == 0 {
        Ok(init_state())
    } else {
        match run_resolve(t, pieces.drop_last()) {
            Err(e) => Err(e),
            Ok(st) => step(t, st, pieces.last()),
        }
    }
}

/// Flush the pending literal buffer, but only if it is non-empty: a
/// string ending right after an argument gets no trailing fragment.
pub open spec fn finish<A>(st: ResolveState<A>) -> ResolveState<A> {
    if st.buf.len() == 0 {
        st
    } else {
        ResolveState { pieces: st.pieces.push(st.buf), buf: Seq::empty(), ..st }
    }
}

/// What resolving a whole token stream yields.
pub open spec fn resolve_model<A, P: ParseTarget<A>>(t: P, pieces: Seq<Piece>) -> Result<
    ResolveState<A>,
    ErrModel,
> {
    match run_resolve(t, pieces) {
        Ok(st) => Ok(finish(st)),
        Err(e) => Err(e),
    }
}

/// A rendering plan as the resolver hands it out.
pub struct Parsed<A> {
    pub pieces: Vec<String>,
    pub args: Vec<A>,
    pub fmt: Vec<FmtSpec>,
}

/// The character sequences of a list of fragments.
pub open spec fn views_of(pieces: Seq<String>) -> Seq<Seq<char>> {
    pieces.map_values(|s: String| s@)
}

/// Appending a fragment appends its view.
pub proof fn lemma_views_push(pieces: Seq<String>, s: String)
    ensures
        views_of(pieces.push(s)) == views_of(pieces).push(s@),
{
    assert(views_of(pieces.push(s)) =~= views_of(pieces).push(s@));
}

/// An error on a prefix of the stream is the error of the whole stream.
pub proof fn lemma_run_err_persists<A, P: ParseTarget<A>>(t: P, pieces: Seq<Piece>, k: int)
    requires
        0 <= k <= pieces.len(),
        run_resolve(t, pieces.take(k)) is Err,
    ensures
        run_resolve(t, pieces) == run_resolve(t, pieces.take(k)),
    decreases pieces.len() - k,
{
    if k == pieces.len() {
        assert(pieces.take(k) =~= pieces);
    } else {
        assert(pieces.take(k + 1).drop_last() =~= pieces.take(k));
        assert(pieces.take(k + 1).last() == pieces[k]);
        lemma_run_err_persists(t, pieces, k + 1);
    }
}

/// Whether a resolved argument was handed out by the binding, either as a
/// bound value or as a count, for some valid slot.
pub open spec fn arg_from_target<A, P: ParseTarget<A>>(t: P, a: A) -> bool {
    (exists|tag: Tag, idx: int|
        t.sp_index_ok(idx) && #[trigger] t.sp_format(tag, idx) == Some(a)) || (exists|idx: int|
        t.sp_index_ok(idx) && #[trigger] t.sp_count(idx) == Some(a))
}

/// Whether every resolved argument of a state came from the binding.
pub open spec fn st_args_ok<A, P: ParseTarget<A>>(t: P, st: ResolveState<A>) -> bool {
    forall|j: int| 0 <= j < st.args.len() ==> arg_from_target(t, #[trigger] st.args[j])
}

/// Every argument of a successfully resolved plan came from the binding.
pub proof fn lemma_run_args_ok<A, P: ParseTarget<A>>(t: P, pieces: Seq<Piece>)
    ensures
        run_resolve(t, pieces) matches Ok(st) ==> st_args_ok(t, st),
    decreases pieces.len(),
{
    if pieces.len() > 0 {
        lemma_run_args_ok(t, pieces.drop_last());
        if run_resolve(t, pieces.drop_last()) matches Ok(st0) {
            match pieces.last() {
                Piece::Literal(_) => {},
                Piece::Arg(aref) => {
                    match aref.position {
                        Position::Named(nm) => {
                            t.name_index_valid(nm@);
                        },
                        Position::Index(_) => {},
                    }
                    match aref.format.precision {
                        InCount::IsName(nm) => {
                            t.name_index_valid(nm@);
                        },
                        _ => {},
                    }
                    match aref.format.width {
                        InCount::IsName(nm) => {
                            t.name_index_valid(nm@);
                        },
                        _ => {},
                    }
                },
            }
        }
    }
}
fn convert_count<A, P: ParseTarget<A>>(target: &P, args: &mut Vec<A>, c: &InCount) -> (r: Result<
    RCount,
    Error,
>)
    ensures
        match r {
            Ok(rc) => step_count(*target, old(args)@, *c) matches Ok(p) && p.0 == rc
                && final(args)@ == p.1,
            Err(e) => step_count(*target, old(args)@, *c) matches Err(em) && err_matches(e, em),
        },
{
    match c {
        InCount::Is(v) => Ok(RCount::Is(*v)),
        InCount::IsName(n) => match target.validate_name(n.as_str()) {
            None => Err(Error::BadName(n.clone())),
            Some(i) => {
                proof {
                    target.name_index_valid(n@);
                }
                match target.format_usize(i) {
                    None => Err(Error::BadCount(i)),
                    Some(a) => {
                        let slot = args.len();
                        args.push(a);
                        Ok(RCount::Param(slot))
                    },
                }
            },
        },
        InCount::IsParam(i) => {
            if !target.validate_index(*i) {
                Err(Error::BadIndex(*i))
            } else {
                match target.format_usize(*i) {
                    None => Err(Error::BadCount(*i)),
                    Some(a) => {
                        let slot = args.len();
                        args.push(a);
                        Ok(RCount::Param(slot))
                    },
                }
            }
        },
        InCount::Implied => Ok(RCount::Implied),
    }
}

/// Resolve a token stream against a binding: a single forward pass that
/// merges adjacent literals, validates every reference, and assembles the
/// plan, stopping at the first resolution error.
#[verifier::rlimit(50)]
pub fn parse<A, P: ParseTarget<A>>(target: &P, pieces: &Vec<Piece>) -> (r: Result<
    Parsed<A>,
    Error,
>)
    ensures
        match r {
            Ok(p) => resolve_model(*target, pieces@) matches Ok(st) && views_of(p.pieces@)
                == st.pieces && p.args@ == st.args && p.fmt@ == st.fmt && p.fmt@.len()
                <= p.pieces@.len() <= p.fmt@.len() + 1,
            Err(e) => resolve_model(*target, pieces@) matches Err(em) && err_matches(e, em),
        },
{
    let n = pieces.len();
    let mut pieces_v: Vec<String> = Vec::new();
    let mut args_v: Vec<A> = Vec::new();
    let mut fmt_v: Vec<FmtSpec> = Vec::new();
    let mut accum: String = String::new();
    let mut i: usize = 0;
    proof {
        assert(pieces@.take(0) =~= Seq::<Piece>::empty());
        assert(views_of(pieces_v@) =~= Seq::<Seq<char>>::empty());
    }
    while i < n
        invariant
            i <= n,
            n == pieces@.len(),
            pieces_v@.len() == fmt_v@.len(),
            run_resolve(*target, pieces@.take(i as int)) == Ok::<ResolveState<A>, ErrModel>(
                ResolveState { pieces: views_of(pieces_v@), args: args_v@, fmt: fmt_v@, buf: accum@ },
            ),
        decreases n - i,
    {
        proof {
            assert(pieces@.take(i + 1).drop_last() =~= pieces@.take(i as int));
            assert(pieces@.take(i + 1).last() == pieces@[i as int]);
        }
        let ghost prev = ResolveState {
            pieces: views_of(pieces_v@),
            args: args_v@,
            fmt: fmt_v@,
            buf: accum@,
        };
        match &pieces[i] {
            Piece::Literal(s) => {
                accum.append(s.as_str());
            },
            Piece::Arg(aref) => {
                // flush the pending literal, even if empty
                proof {
                    lemma_views_push(pieces_v@, accum);
                }
                pieces_v.push(accum);
                accum = String::new();

                // resolve the reference's position
                let idx = match &aref.position {
                    Position::Index(pi) => {
                        if target.validate_index(*pi) {
                            *pi
                        } else {
                            proof {
                                lemma_run_err_persists(*target, pieces@, i + 1);
                            }
                            return Err(Error::BadIndex(*pi));
                        }
                    },
                    Position::Named(nm) => match target.validate_name(nm.as_str()) {
                        Some(pi) => {
                            proof {
                                target.name_index_valid(nm@);
                            }
                            pi
                        },
                        None => {
                            proof {
                                lemma_run_err_persists(*target, pieces@, i + 1);
                            }
                            return Err(Error::BadName(nm.clone()));
                        },
                    },
                };

                // bind the argument to the mode its type tag selects
                let tag = match tag_for(aref.format.ty.as_str()) {
                    Some(tg) => tg,
                    None => {
                        proof {
                            lemma_run_err_persists(*target, pieces@, i + 1);
                        }
                        return Err(Error::NoSuchFormat(aref.format.ty.clone()));
                    },
                };
                let bound = match target.format(tag, idx) {
                    Some(a) => a,
                    None => {
                        proof {
                            lemma_run_err_persists(*target, pieces@, i + 1);
                        }
                        return Err(
                            Error::UnsatisfiedFormat {
                                idx,
                                must_implement: trait_name(tag).to_owned(),
                            },
                        );
                    },
                };
                let argpos = args_v.len();
                args_v.push(bound);

                // resolve both counts; each may append a fresh argument
                let prec = match convert_count(target, &mut args_v, &aref.format.precision) {
                    Ok(rc) => rc,
                    Err(e) => {
                        proof {
                            lemma_run_err_persists(*target, pieces@, i + 1);
                        }
                        return Err(e);
                    },
                };
                let width = match convert_count(target, &mut args_v, &aref.format.width) {
                    Ok(rc) => rc,
                    Err(e) => {
                        proof {
                            lemma_run_err_persists(*target, pieces@, i + 1);
                        }
                        return Err(e);
                    },
                };
                let fill = match aref.format.fill {
                    Some(c) => c,
                    None => ' ',
                };
                let entry = FmtSpec {
                    position: argpos,
                    fill,
                    align: aref.format.align,
                    flags: aref.format.flags,
                    precision: prec,
                    width,
                };
                let ghost fprev = fmt_v@;
                fmt_v.push(entry);
                proof {
                    // the push-length fact needs its axiom by hand here
                    vstd::seq::axiom_seq_push_len(fprev, entry);
                }
            },
        }
        proof {
            assert(step(*target, prev, pieces@[i as int]) == Ok::<ResolveState<A>, ErrModel>(
                ResolveState {
                    pieces: views_of(pieces_v@),
                    args: args_v@,
                    fmt: fmt_v@,
                    buf: accum@,
                },
            ));
        }
        i = i + 1;
    }
    proof {
        assert(pieces@.take(n as int) =~= pieces@);
    }
    // flush a trailing literal only if it is non-empty
    if !accum.as_str().is_empty() {
        proof {
            lemma_views_push(pieces_v@, accum);
        }
        pieces_v.push(accum);
    }
    Ok(Parsed { pieces: pieces_v, args: args_v, fmt: fmt_v })
}

/// Resolve the tokenizer's whole output.  Syntax diagnostics collected by
/// the tokenizer take priority over any resolution error from the same
/// parse.
pub fn outer_parse<A, P: ParseTarget<A>>(tpl: &Template, target: &P) -> (r: Result<
    Parsed<A>,
    Error,
>)
    ensures
        tpl.errors@.len() > 0 ==> (r matches Err(e) && e matches Error::BadSyntax(v) && v@
            == tpl.errors@),
        tpl.errors@.len() == 0 ==> match r {
            Ok(p) => resolve_model(*target, tpl.pieces@) matches Ok(st) && views_of(p.pieces@)
                == st.pieces && p.args@ == st.args && p.fmt@ == st.fmt && p.fmt@.len()
                <= p.pieces@.len() <= p.fmt@.len() + 1,
            Err(e) => resolve_model(*target, tpl.pieces@) matches Err(em) && err_matches(e, em),
        },
{
    let result = parse(target, &tpl.pieces);
    // a separate check, so that syntax errors take priority
    if tpl.errors.len() == 0 {
        result
    } else {
        let mut v: Vec<(String, Option<String>)> = Vec::new();
        let m = tpl.errors.len();
        let mut j: usize = 0;
        while j < m
            invariant
                j <= m,
                m == tpl.errors@.len(),
                v@ =~= tpl.errors@.take(j as int),
            decreases m - j,
        {
            let msg = tpl.errors[j].0.clone();
            let detail = match &tpl.errors[j].1 {
                Some(d) => Some(d.clone()),
                None => None,
            };
            v.push((msg, detail));
            proof {
                assert(v@ =~= tpl.errors@.take(j + 1));
            }
            j = j + 1;
        }
        proof {
            assert(tpl.errors@.take(m as int) =~= tpl.errors@);
        }
        Err(Error::BadSyntax(v))
    }
}

/// Append a linefeed to a plan's fragments.  If the fragments outnumber
/// the format specifications, the string ended in literal text and the
/// final fragment is extended in place; otherwise it ended on an argument
/// and a fresh one-character fragment is appended, keeping the
/// fragment/argument interleaving invariant intact.
pub fn newln(pieces: &mut Vec<String>, len: usize)
    ensures
        old(pieces)@.len() > len ==> {
            &&& final(pieces)@.len() == old(pieces)@.len()
            &&& views_of(final(pieces)@) == views_of(old(pieces)@).update(
                old(pieces)@.len() - 1,
                views_of(old(pieces)@).last() + "\n"@,
            )
        },
        old(pieces)@.len() <= len ==> views_of(final(pieces)@) == views_of(old(pieces)@).push(
            "\n"@,
        ),
{
    if pieces.len() > len {
        // the final fragment follows the last specifier: extend it
        let mut last = pieces.pop().unwrap();
        last.append("\n");
        pieces.push(last);
        proof {
            assert(views_of(pieces@) =~= views_of(old(pieces)@).update(
                old(pieces)@.len() - 1,
                views_of(old(pieces)@).last() + "\n"@,
            ));
        }
    } else {
        // the final fragment precedes the last specifier: add a new one
        pieces.push("\n".to_owned());
        proof {
            assert(views_of(pieces@) =~= views_of(old(pieces)@).push("\n"@));
        }
    }
}

} // verus!
