//! The rendering backend: turn a plan's fragments, resolved arguments and
//! format specifications into text.  Fill, alignment, width, precision and
//! the flag bits are applied here; each value kind renders under the
//! formatting modes it supports.

use vstd::prelude::*;
use vstd::string::StrSliceExecFns;
use vstd::string::StringExecFns;
use crate::binding::RtArg;
use crate::tokens::{Align, FmtSpec, RCount, FLAG_ALTERNATE, FLAG_SIGN_PLUS, FLAG_ZERO_PAD};
use crate::value::{Tag, Value};

verus! {

/// The character for one digit.
pub open spec fn spec_digit(d: int, upper: bool) -> char {
    if d == 0 {
        '0'
    } else if d == 1 {
        '1'
    } else if d == 2 {
        '2'
    } else if d == 3 {
        '3'
    } else if d == 4 {
        '4'
    } else if d == 5 {
        '5'
    } else if d == 6 {
        '6'
    } else if d == 7 {
        '7'
    } else if d == 8 {
        '8'
    } else if d == 9 {
        '9'
    } else if d == 10 {
        if upper { 'A' } else { 'a' }
    } else if d == 11 {
        if upper { 'B' } else { 'b' }
    } else if d == 12 {
        if upper { 'C' } else { 'c' }
    } else if d == 13 {
        if upper { 'D' } else { 'd' }
    } else if d == 14 {
        if upper { 'E' } else { 'e' }
    } else if d == 15 {
        if upper { 'F' } else { 'f' }
    } else {
        '0'
    }
}

/// The character for one digit.
pub fn digit_char(d: u64, upper: bool) -> (c: char)
    requires
        d < 16,
    ensures
        c == spec_digit(d as int, upper),
{
    if d == 0 {
        '0'
    } else if d == 1 {
        '1'
    } else if d == 2 {
        '2'
    } else if d == 3 {
        '3'
    } else if d == 4 {
        '4'
    } else if d == 5 {
        '5'
    } else if d == 6 {
        '6'
    } else if d == 7 {
        '7'
    } else if d == 8 {
        '8'
    } else if d == 9 {
        '9'
    } else if d == 10 {
        if upper { 'A' } else { 'a' }
    } else if d == 11 {
        if upper { 'B' } else { 'b' }
    } else if d == 12 {
        if upper { 'C' } else { 'c' }
    } else if d == 13 {
        if upper { 'D' } else { 'd' }
    } else if d == 14 {
        if upper { 'E' } else { 'e' }
    } else {
        if upper { 'F' } else { 'f' }
    }
}

/// The digits of `n` in the given base, most significant first, empty for
/// zero.
pub open spec fn spec_radix(n: nat, base: nat, upper: bool) -> Seq<char>
    decreases n,
    via spec_radix_decreases
{
    if n == 0 || base < 2 {
        Seq::empty()
    } else {
        spec_radix(n / base, base, upper).push(spec_digit((n % base) as int, upper))
    }
}

#[via_fn]
proof fn spec_radix_decreases(n: nat, base: nat, upper: bool) {
    if n > 0 && base >= 2 {
        assert((n as int) / (base as int) < n as int) by (nonlinear_arith)
            requires
                n > 0,
                base >= 2,
        ;
    }
}

/// The digits of `n` in the given base; zero renders as a single `0`.
pub open spec fn spec_uint(n: nat, base: nat, upper: bool) -> Seq<char> {
    if n == 0 {
        seq!['0']
    } else {
        spec_radix(n, base, upper)
    }
}

/// Render an unsigned number in the given base.
pub fn uint_digits(n: u64, base: u64, upper: bool) -> (r: Vec<char>)
    requires
        2 <= base <= 16,
    ensures
        r@ == spec_uint(n as nat, base as nat, upper),
{
    let mut out: Vec<char> = Vec::new();
    if n == 0 {
        out.push('0');
        proof {
            assert(out@ =~= seq!['0']);
        }
        return out;
    }
    let mut m = n;
    while m > 0
        invariant
            2 <= base <= 16,
            n > 0,
            spec_radix(n as nat, base as nat, upper) == spec_radix(m as nat, base as nat, upper)
                + out@,
        decreases m,
    {
        let ghost m0 = m as nat;
        let ghost out0 = out@;
        let d = m % base;
        let c = digit_char(d, upper);
        out.insert(0, c);
        m = m / base;
        proof {
            assert((m0 as int) / (base as int) < m0 as int) by (nonlinear_arith)
                requires
                    m0 > 0,
                    base >= 2,
            ;
            assert(out@ =~= seq![c] + out0);
            assert(spec_radix(m0, base as nat, upper) =~= spec_radix(m as nat, base as nat, upper)
                + seq![c]);
            assert(spec_radix(m as nat, base as nat, upper) + (seq![c] + out0) =~= (spec_radix(
                m as nat,
                base as nat,
                upper,
            ) + seq![c]) + out0);
        }
    }
    proof {
        assert(spec_radix(0, base as nat, upper) + out@ =~= out@);
    }
    out
}

/// The sign prepended to a numeric value in the decimal modes.
pub open spec fn spec_sign(v: Value, tag: Tag, flags: u32) -> Seq<char> {
    let decimal = tag == Tag::Display || tag == Tag::Debug;
    match v {
        Value::Int(i) => if decimal {
            if i < 0 {
                seq!['-']
            } else if flags & FLAG_SIGN_PLUS != 0u32 {
                seq!['+']
            } else {
                Seq::empty()
            }
        } else {
            Seq::empty()
        },
        Value::Uint(_) => if decimal && flags & FLAG_SIGN_PLUS != 0u32 {
            seq!['+']
        } else {
            Seq::empty()
        },
        Value::Str(_) => Seq::empty(),
        Value::Bool(_) => Seq::empty(),
        Value::Char(_) => Seq::empty(),
    }
}

/// The radix prefix demanded by the alternate flag.
pub open spec fn spec_alt_prefix(v: Value, tag: Tag, flags: u32) -> Seq<char> {
    let numeric = v is Uint || v is Int;
    if numeric && flags & FLAG_ALTERNATE != 0u32 {
        match tag {
            Tag::LowerHex => seq!['0', 'x'],
            Tag::UpperHex => seq!['0', 'x'],
            Tag::Octal => seq!['0', 'o'],
            Tag::Binary => seq!['0', 'b'],
            Tag::Display => Seq::empty(),
            Tag::Debug => Seq::empty(),
        }
    } else {
        Seq::empty()
    }
}

/// Everything that precedes the digits: sign, then radix prefix.
pub open spec fn spec_prefix(v: Value, tag: Tag, flags: u32) -> Seq<char> {
    spec_sign(v, tag, flags) + spec_alt_prefix(v, tag, flags)
}

/// The body of a rendered value: text or digits, after the prefix, with
/// string precision already applied.
pub open spec fn spec_body(v: Value, tag: Tag, prec: Option<usize>) -> Seq<char> {
    match v {
        Value::Str(s) => {
            let t = match prec {
                Some(p) => if p < s@.len() {
                    s@.take(p as int)
                } else {
                    s@
                },
                None => s@,
            };
            if tag == Tag::Debug {
                seq!['"'] + t + seq!['"']
            } else {
                t
            }
        },
        Value::Bool(b) => if b {
            seq!['t', 'r', 'u', 'e']
        } else {
            seq!['f', 'a', 'l', 's', 'e']
        },
        Value::Char(c) => if tag == Tag::Debug {
            seq!['\'', c, '\'']
        } else {
            seq![c]
        },
        Value::Uint(u) => match tag {
            Tag::Display => spec_uint(u as nat, 10, false),
            Tag::Debug => spec_uint(u as nat, 10, false),
            Tag::LowerHex => spec_uint(u as nat, 16, false),
            Tag::UpperHex => spec_uint(u as nat, 16, true),
            Tag::Octal => spec_uint(u as nat, 8, false),
            Tag::Binary => spec_uint(u as nat, 2, false),
        },
        Value::Int(i) => match tag {
            Tag::Display => spec_uint(if i < 0 {
                (-(i as int)) as nat
            } else {
                i as nat
            }, 10, false),
            Tag::Debug => spec_uint(if i < 0 {
                (-(i as int)) as nat
            } else {
                i as nat
            }, 10, false),
            Tag::LowerHex => spec_uint((i as u64) as nat, 16, false),
            Tag::UpperHex => spec_uint((i as u64) as nat, 16, true),
            Tag::Octal => spec_uint((i as u64) as nat, 8, false),
            Tag::Binary => spec_uint((i as u64) as nat, 2, false),
        },
    }
}

/// `k` copies of one character.
pub open spec fn spec_repeat(c: char, k: nat) -> Seq<char> {
    Seq::new(k, |i| c)
}

/// Where a value sits in its padded field when no alignment was written:
/// numbers to the right, text to the left.
pub open spec fn default_align(v: Value) -> Align {
    match v {
        Value::Uint(_) => Align::Right,
        Value::Int(_) => Align::Right,
        Value::Str(_) => Align::Left,
        Value::Bool(_) => Align::Left,
        Value::Char(_) => Align::Left,
    }
}

/// Pad a rendered value out to its width.  Zero padding inserts zeros
/// between prefix and body; otherwise the fill character pads on the side
/// the alignment dictates, with a centered value favouring the left.
pub open spec fn spec_padded(
    prefix: Seq<char>,
    body: Seq<char>,
    v: Value,
    fill: char,
    align: Align,
    flags: u32,
    width: Option<usize>,
) -> Seq<char> {
    let full = prefix + body;
    match width {
        None => full,
        Some(w) => if full.len() >= w {
            full
        } else {
            let k = (w - full.len()) as nat;
            if flags & FLAG_ZERO_PAD != 0u32 {
                prefix + spec_repeat('0', k) + body
            } else {
                let al = if align == Align::Unknown {
                    default_align(v)
                } else {
                    align
                };
                match al {
                    Align::Left => full + spec_repeat(fill, k),
                    Align::Right => spec_repeat(fill, k) + full,
                    Align::Center => spec_repeat(fill, k / 2) + full + spec_repeat(
                        fill,
                        (k - k / 2) as nat,
                    ),
                    Align::Unknown => full,
                }
            }
        },
    }
}

/// What a value renders to under `Display` with an all-default
/// descriptor: its sign, then its text or digits.
pub open spec fn spec_display(v: Value) -> Seq<char> {
    spec_prefix(v, Tag::Display, 0u32) + spec_body(v, Tag::Display, None)
}

/// The value a resolved count takes at render time: a literal, or the
/// size stored in the count slot it references.
pub open spec fn spec_count_value(args: Seq<RtArg>, rc: RCount) -> Option<usize> {
    match rc {
        RCount::Is(v) => Some(v),
        RCount::Param(j) => if j < args.len() {
            match args[j as int] {
                RtArg::Count { size } => Some(size),
                RtArg::Val { .. } => None,
            }
        } else {
            None
        },
        RCount::Implied => None,
    }
}

/// The text one format specification contributes: its argument, rendered
/// under the resolved counts, or nothing if the specification does not
/// point at a value slot.
pub open spec fn spec_render_arg(args: Seq<RtArg>, f: FmtSpec) -> Seq<char> {
    if f.position < args.len() {
        match args[f.position as int] {
            RtArg::Val { value, tag } => {
                let prec = spec_count_value(args, f.precision);
                let width = spec_count_value(args, f.width);
                spec_padded(
                    spec_prefix(value, tag, f.flags),
                    spec_body(value, tag, prec),
                    value,
                    f.fill,
                    f.align,
                    f.flags,
                    width,
                )
            },
            RtArg::Count { .. } => Seq::empty(),
        }
    } else {
        Seq::empty()
    }
}

/// The fragment before the `i`-th argument, or nothing past the end.
pub open spec fn piece_at(pieces: Seq<Seq<char>>, i: int) -> Seq<char> {
    if 0 <= i < pieces.len() {
        pieces[i]
    } else {
        Seq::empty()
    }
}

/// The text of the first `k` fragment/argument pairs.
pub open spec fn spec_render_upto(
    pieces: Seq<Seq<char>>,
    args: Seq<RtArg>,
    fmt: Seq<FmtSpec>,
    k: int,
) -> Seq<char>
    decreases k,
{
    if k <= 0 {
        Seq::empty()
    } else {
        spec_render_upto(pieces, args, fmt, k - 1) + piece_at(pieces, k - 1) + spec_render_arg(
            args,
            fmt[k - 1],
        )
    }
}

/// The whole rendered text: fragments interleaved with rendered
/// arguments, plus the trailing fragment if the plan has one.
pub open spec fn spec_render(pieces: Seq<Seq<char>>, args: Seq<RtArg>, fmt: Seq<FmtSpec>) -> Seq<
    char,
> {
    spec_render_upto(pieces, args, fmt, fmt.len() as int) + piece_at(pieces, fmt.len() as int)
}

/// Resolve a count against the resolved-argument list.
pub fn count_value(args: &Vec<RtArg>, rc: RCount) -> (r: Option<usize>)
    ensures
        r == spec_count_value(args@, rc),
{
    match rc {
        RCount::Is(v) => Some(v),
        RCount::Param(j) => if j < args.len() {
            match &args[j] {
                RtArg::Count { size } => Some(*size),
                RtArg::Val { .. } => None,
            }
        } else {
            None
        },
        RCount::Implied => None,
    }
}

/// Push every character of `s` onto `out`.
fn push_seq(out: &mut Vec<char>, s: &Vec<char>)
    ensures
        final(out)@ == old(out)@ + s@,
{
    let mut i: usize = 0;
    let n = s.len();
    while i < n
        invariant
            i <= n,
            n == s@.len(),
            out@ == old(out)@ + s@.take(i as int),
        decreases n - i,
    {
        out.push(s[i]);
        proof {
            assert(old(out)@ + s@.take(i + 1) =~= (old(out)@ + s@.take(i as int)).push(
                s@[i as int],
            ));
        }
        i = i + 1;
    }
    proof {
        assert(s@.take(n as int) =~= s@);
    }
}

/// Push `k` copies of `c` onto `out`.
fn push_repeat(out: &mut Vec<char>, c: char, k: usize)
    ensures
        final(out)@ == old(out)@ + spec_repeat(c, k as nat),
{
    let mut i: usize = 0;
    while i < k
        invariant
            i <= k,
            out@ == old(out)@ + spec_repeat(c, i as nat),
        decreases k - i,
    {
        out.push(c);
        proof {
            assert(old(out)@ + spec_repeat(c, (i + 1) as nat) =~= (old(out)@ + spec_repeat(
                c,
                i as nat,
            )).push(c));
        }
        i = i + 1;
    }
}

/// The characters of `s`, truncated to `prec` characters if given.
fn str_chars(s: &String, prec: &Option<usize>) -> (r: Vec<char>)
    ensures
        r@ == match *prec {
            Some(p) => if p < s@.len() {
                s@.take(p as int)
            } else {
                s@
            },
            None => s@,
        },
{
    let slice = s.as_str();
    let n = slice.unicode_len();
    let lim = match prec {
        Some(p) => if *p < n {
            *p
        } else {
            n
        },
        None => n,
    };
    let mut out: Vec<char> = Vec::new();
    let mut i: usize = 0;
    while i < lim
        invariant
            i <= lim,
            lim <= n,
            n == s@.len(),
            slice@ == s@,
            out@ == s@.take(i as int),
        decreases lim - i,
    {
        out.push(slice.get_char(i));
        proof {
            assert(s@.take(i + 1) =~= s@.take(i as int).push(s@[i as int]));
        }
        i = i + 1;
    }
    proof {
        if lim == n {
            assert(s@.take(n as int) =~= s@);
        }
    }
    out
}

/// Render the prefix of a value: its sign, then any radix prefix.
fn prefix_chars(v: &Value, tag: Tag, flags: u32) -> (r: Vec<char>)
    ensures
        r@ == spec_prefix(*v, tag, flags),
{
    let mut out: Vec<char> = Vec::new();
    let decimal = tag == Tag::Display || tag == Tag::Debug;
    match v {
        Value::Int(i) => {
            if decimal {
                if *i < 0 {
                    out.push('-');
                } else if flags & FLAG_SIGN_PLUS != 0 {
                    out.push('+');
                }
            }
        },
        Value::Uint(_) => {
            if decimal && flags & FLAG_SIGN_PLUS != 0 {
                out.push('+');
            }
        },
        _ => {},
    }
    let numeric = match v {
        Value::Uint(_) => true,
        Value::Int(_) => true,
        _ => false,
    };
    if numeric && flags & FLAG_ALTERNATE != 0 {
        match tag {
            Tag::LowerHex => {
                out.push('0');
                out.push('x');
            },
            Tag::UpperHex => {
                out.push('0');
                out.push('x');
            },
            Tag::Octal => {
                out.push('0');
                out.push('o');
            },
            Tag::Binary => {
                out.push('0');
                out.push('b');
            },
            _ => {},
        }
    }
    proof {
        assert(out@ =~= spec_prefix(*v, tag, flags));
    }
    out
}

/// Render the body of a value under a tag, with string precision applied.
fn body_chars(v: &Value, tag: Tag, prec: &Option<usize>) -> (r: Vec<char>)
    ensures
        r@ == spec_body(*v, tag, *prec),
{
    match v {
        Value::Str(s) => {
            let inner = str_chars(s, prec);
            if tag == Tag::Debug {
                let mut out: Vec<char> = Vec::new();
                out.push('"');
                push_seq(&mut out, &inner);
                out.push('"');
                proof {
                    assert(out@ =~= seq!['"'] + inner@ + seq!['"']);
                    assert(spec_body(*v, tag, *prec) == seq!['"'] + inner@ + seq!['"']);
                }
                out
            } else {
                inner
            }
        },
        Value::Bool(b) => {
            let mut out: Vec<char> = Vec::new();
            if *b {
                out.push('t');
                out.push('r');
                out.push('u');
                out.push('e');
                proof {
                    assert(out@ =~= seq!['t', 'r', 'u', 'e']);
                }
            } else {
                out.push('f');
                out.push('a');
                out.push('l');
                out.push('s');
                out.push('e');
                proof {
                    assert(out@ =~= seq!['f', 'a', 'l', 's', 'e']);
                }
            }
            out
        },
        Value::Char(c) => {
            let mut out: Vec<char> = Vec::new();
            if tag == Tag::Debug {
                out.push('\'');
                out.push(*c);
                out.push('\'');
                proof {
                    assert(out@ =~= seq!['\'', *c, '\'']);
                }
            } else {
                out.push(*c);
                proof {
                    assert(out@ =~= seq![*c]);
                }
            }
            out
        },
        Value::Uint(u) => {
            match tag {
                Tag::Display => uint_digits(*u, 10, false),
                Tag::Debug => uint_digits(*u, 10, false),
                Tag::LowerHex => uint_digits(*u, 16, false),
                Tag::UpperHex => uint_digits(*u, 16, true),
                Tag::Octal => uint_digits(*u, 8, false),
                Tag::Binary => uint_digits(*u, 2, false),
            }
        },
        Value::Int(i) => {
            match tag {
                Tag::Display | Tag::Debug => {
                    let mag: u64 = if *i == i64::MIN {
                        9223372036854775808u64
                    } else if *i < 0 {
                        (-*i) as u64
                    } else {
                        *i as u64
                    };
                    proof {
                        assert(mag as nat == if *i < 0 {
                            (-(*i as int)) as nat
                        } else {
                            *i as nat
                        });
                    }
                    uint_digits(mag, 10, false)
                },
                Tag::LowerHex => uint_digits(*i as u64, 16, false),
                Tag::UpperHex => uint_digits(*i as u64, 16, true),
                Tag::Octal => uint_digits(*i as u64, 8, false),
                Tag::Binary => uint_digits(*i as u64, 2, false),
            }
        },
    }
}

/// Pad a rendered value out to its width.
fn padded(
    prefix: Vec<char>,
    body: Vec<char>,
    v: &Value,
    fill: char,
    align: Align,
    flags: u32,
    width: Option<usize>,
) -> (r: Vec<char>)
    ensures
        r@ == spec_padded(prefix@, body@, *v, fill, align, flags, width),
{
    let mut out: Vec<char> = Vec::new();
    let room = match width {
        Some(w) => if prefix.len() < w && w - prefix.len() > body.len() {
            Some(w - prefix.len() - body.len())
        } else {
            None
        },
        None => None,
    };
    match room {
        Some(k) => {
            if flags & FLAG_ZERO_PAD != 0 {
                push_seq(&mut out, &prefix);
                push_repeat(&mut out, '0', k);
                push_seq(&mut out, &body);
                proof {
                    assert(out@ =~= spec_padded(prefix@, body@, *v, fill, align, flags, width));
                }
            } else {
                let al = if align == Align::Unknown {
                    match v {
                        Value::Uint(_) => Align::Right,
                        Value::Int(_) => Align::Right,
                        _ => Align::Left,
                    }
                } else {
                    align
                };
                match al {
                    Align::Left => {
                        push_seq(&mut out, &prefix);
                        push_seq(&mut out, &body);
                        push_repeat(&mut out, fill, k);
                    },
                    Align::Right => {
                        push_repeat(&mut out, fill, k);
                        push_seq(&mut out, &prefix);
                        push_seq(&mut out, &body);
                    },
                    Align::Center => {
                        push_repeat(&mut out, fill, k / 2);
                        push_seq(&mut out, &prefix);
                        push_seq(&mut out, &body);
                        push_repeat(&mut out, fill, k - k / 2);
                    },
                    Align::Unknown => {
                        push_seq(&mut out, &prefix);
                        push_seq(&mut out, &body);
                    },
                }
                proof {
                    assert(out@ =~= spec_padded(prefix@, body@, *v, fill, align, flags, width));
                }
            }
        },
        None => {
            push_seq(&mut out, &prefix);
            push_seq(&mut out, &body);
            proof {
                assert(out@ =~= spec_padded(prefix@, body@, *v, fill, align, flags, width));
            }
        },
    }
    out
}

/// Relies on `FromIterator<char> for String`: collecting characters
/// yields the string of exactly those characters, in order.
#[verifier::external_body]
pub(crate) fn chars_to_string(v: &Vec<char>) -> (r: String)
    ensures
        r@ == v@,
{
    v.iter().collect()
}

/// Render the argument one format specification points at.
pub fn render_arg(args: &Vec<RtArg>, f: &FmtSpec) -> (r: Vec<char>)
    ensures
        r@ == spec_render_arg(args@, *f),
{
    if f.position < args.len() {
        match &args[f.position] {
            RtArg::Val { value, tag } => {
                let prec = count_value(args, f.precision);
                let width = count_value(args, f.width);
                let prefix = prefix_chars(value, *tag, f.flags);
                let body = body_chars(value, *tag, &prec);
                padded(prefix, body, value, f.fill, f.align, f.flags, width)
            },
            RtArg::Count { .. } => {
                let r: Vec<char> = Vec::new();
                proof {
                    assert(r@ =~= spec_render_arg(args@, *f));
                }
                r
            },
        }
    } else {
        let r: Vec<char> = Vec::new();
        proof {
            assert(r@ =~= spec_render_arg(args@, *f));
        }
        r
    }
}

/// Assemble the whole text of a plan: fragments interleaved with rendered
/// arguments, plus the trailing fragment if the plan has one.
pub fn render_parts(pieces: &Vec<String>, args: &Vec<RtArg>, fmt: &Vec<FmtSpec>) -> (r: String)
    ensures
        r@ == spec_render(crate::resolve::views_of(pieces@), args@, fmt@),
{
    let ghost frags = crate::resolve::views_of(pieces@);
    let mut out = String::new();
    let n = fmt.len();
    let mut k: usize = 0;
    while k < n
        invariant
            k <= n,
            n == fmt@.len(),
            frags == crate::resolve::views_of(pieces@),
            out@ == spec_render_upto(frags, args@, fmt@, k as int),
        decreases n - k,
    {
        if k < pieces.len() {
            out.append(pieces[k].as_str());
            proof {
                assert(piece_at(frags, k as int) == pieces@[k as int]@);
            }
        } else {
            proof {
                assert(out@ + piece_at(frags, k as int) =~= out@);
            }
        }
        let rendered = render_arg(args, &fmt[k]);
        let rs = chars_to_string(&rendered);
        out.append(rs.as_str());
        k = k + 1;
    }
    if fmt.len() < pieces.len() {
        out.append(pieces[fmt.len()].as_str());
        proof {
            assert(piece_at(frags, fmt@.len() as int) == pieces@[fmt@.len() as int]@);
        }
    } else {
        proof {
            assert(out@ + piece_at(frags, fmt@.len() as int) =~= out@);
        }
    }
    out
}

} // verus!

