use runtime_fmt::{
    Align, ArgRef, Error, FormatBuf, FormatDesc, InCount, Labeled, Param, Piece, Position,
    PreparedFormat, Template, Value,
};

fn lit(s: &str) -> Piece {
    Piece::Literal(s.to_string())
}

fn arg_index(i: usize) -> Piece {
    Piece::Arg(ArgRef { position: Position::Index(i), format: FormatDesc::plain() })
}

fn arg_named(name: &str) -> Piece {
    Piece::Arg(ArgRef { position: Position::Named(name.to_string()), format: FormatDesc::plain() })
}

fn arg_with(position: Position, format: FormatDesc) -> Piece {
    Piece::Arg(ArgRef { position, format })
}

fn desc() -> FormatDesc {
    FormatDesc::plain()
}

fn tpl(pieces: Vec<Piece>) -> Template {
    Template { pieces, errors: vec![] }
}

#[test]
fn positional_round_trip() {
    let t = tpl(vec![lit("x"), arg_index(0), lit("y"), arg_index(1), lit("z")]);
    let params = vec![
        Param::normal(Value::Uint(7)),
        Param::normal(Value::Str("seven".to_string())),
    ];
    let buf = FormatBuf::new(&t, &params).unwrap();
    assert_eq!(buf.format(), format!("x{}y{}z", 7, "seven"));
}

#[test]
fn positional_reordered_and_repeated() {
    let t = tpl(vec![arg_index(1), lit(" "), arg_index(0), lit(" "), arg_index(1)]);
    let params = vec![
        Param::normal(Value::Str("a".to_string())),
        Param::normal(Value::Str("b".to_string())),
    ];
    let buf = FormatBuf::new(&t, &params).unwrap();
    assert_eq!(buf.format(), format!("{1} {0} {1}", "a", "b"));
}

#[test]
fn named_resolution() {
    let t = tpl(vec![arg_named("greeting"), lit(", "), arg_named("name"), lit("!")]);
    let params = vec![
        Param::named("greeting", Value::Str("Hello".to_string())),
        Param::named("name", Value::Str("World".to_string())),
    ];
    let buf = FormatBuf::new(&t, &params).unwrap();
    assert_eq!(buf.format(), "Hello, World!");
}

#[test]
fn out_of_range_index() {
    let t = tpl(vec![arg_index(5)]);
    let params = vec![
        Param::normal(Value::Uint(1)),
        Param::normal(Value::Uint(2)),
    ];
    let err = FormatBuf::new(&t, &params).unwrap_err();
    assert!(matches!(err, Error::BadIndex(5)));
}

#[test]
fn unknown_name() {
    let t = tpl(vec![arg_named("who")]);
    let params: Vec<Param> = vec![];
    let err = FormatBuf::new(&t, &params).unwrap_err();
    match err {
        Error::BadName(n) => assert_eq!(n, "who"),
        _ => panic!("expected an unknown-name error"),
    }
}

#[test]
fn count_by_name() {
    let mut d = desc();
    d.width = InCount::IsName("width".to_string());
    let t = tpl(vec![arg_with(Position::Index(0), d)]);
    let params = vec![
        Param::normal(Value::Str("x".to_string())),
        Param::named("width", Value::Uint(8)),
    ];
    let buf = FormatBuf::new(&t, &params).unwrap();
    assert_eq!(buf.format(), format!("{:width$}", "x", width = 8));
}

#[test]
fn count_by_name_not_a_count() {
    let mut d = desc();
    d.width = InCount::IsName("width".to_string());
    let t = tpl(vec![arg_with(Position::Index(0), d)]);
    let params = vec![
        Param::normal(Value::Str("x".to_string())),
        Param::named("width", Value::Str("wide".to_string())),
    ];
    let err = FormatBuf::new(&t, &params).unwrap_err();
    assert!(matches!(err, Error::BadCount(1)));
}

#[test]
fn count_by_position() {
    let mut d = desc();
    d.precision = InCount::IsParam(1);
    let t = tpl(vec![arg_with(Position::Index(0), d)]);
    let params = vec![
        Param::normal(Value::Str("truncate".to_string())),
        Param::normal(Value::Uint(4)),
    ];
    let buf = FormatBuf::new(&t, &params).unwrap();
    assert_eq!(buf.format(), format!("{0:.1$}", "truncate", 4));
}

#[test]
fn negative_count_rejected() {
    let mut d = desc();
    d.width = InCount::IsName("width".to_string());
    let t = tpl(vec![arg_with(Position::Index(0), d)]);
    let params = vec![
        Param::normal(Value::Str("x".to_string())),
        Param::named("width", Value::Int(-1)),
    ];
    let err = FormatBuf::new(&t, &params).unwrap_err();
    assert!(matches!(err, Error::BadCount(1)));
}

#[test]
fn newline_after_trailing_literal() {
    let t = tpl(vec![lit("a"), arg_index(0), lit("b")]);
    let params = vec![Param::normal(Value::Uint(5))];
    let mut buf = FormatBuf::new(&t, &params).unwrap();
    buf.newln();
    assert_eq!(buf.format(), "a5b\n");
}

#[test]
fn newline_after_trailing_argument() {
    let t = tpl(vec![lit("a"), arg_index(0)]);
    let params = vec![Param::normal(Value::Uint(5))];
    let mut buf = FormatBuf::new(&t, &params).unwrap();
    buf.newln();
    assert_eq!(buf.format(), "a5\n");
}

#[test]
fn syntax_error_priority() {
    // an out-of-range index and a recorded syntax diagnostic together:
    // the syntax error wins
    let t = Template {
        pieces: vec![arg_index(5)],
        errors: vec![("unmatched `}`".to_string(), Some("if you intended to print `}`, you can escape it using `}}`".to_string()))],
    };
    let params = vec![Param::normal(Value::Uint(1))];
    let err = FormatBuf::new(&t, &params).unwrap_err();
    match err {
        Error::BadSyntax(v) => {
            assert_eq!(v.len(), 1);
            assert_eq!(v[0].0, "unmatched `}`");
        },
        _ => panic!("expected the syntax diagnostics to take priority"),
    }
}

#[test]
fn unknown_type_tag() {
    let mut d = desc();
    d.ty = "q".to_string();
    let t = tpl(vec![arg_with(Position::Index(0), d)]);
    let params = vec![Param::normal(Value::Uint(1))];
    let err = FormatBuf::new(&t, &params).unwrap_err();
    match err {
        Error::NoSuchFormat(tag) => assert_eq!(tag, "q"),
        _ => panic!("expected an unknown-specifier error"),
    }
}

#[test]
fn unsatisfied_format() {
    let mut d = desc();
    d.ty = "x".to_string();
    let t = tpl(vec![arg_with(Position::Index(0), d)]);
    let params = vec![Param::normal(Value::Str("nope".to_string()))];
    let err = FormatBuf::new(&t, &params).unwrap_err();
    match err {
        Error::UnsatisfiedFormat { idx, must_implement } => {
            assert_eq!(idx, 0);
            assert_eq!(must_implement, "fmt::LowerHex");
        },
        _ => panic!("expected an unsatisfied-format error"),
    }
}

#[test]
fn hex_and_alternate_forms() {
    let mut dx = desc();
    dx.ty = "x".to_string();
    let mut dalt = desc();
    dalt.ty = "X".to_string();
    dalt.flags = 4; // alternate
    let t = tpl(vec![arg_with(Position::Index(0), dx), lit(" "), arg_with(Position::Index(0), dalt)]);
    let params = vec![Param::normal(Value::Uint(48879))];
    let buf = FormatBuf::new(&t, &params).unwrap();
    assert_eq!(buf.format(), format!("{0:x} {0:#X}", 48879u64));
}

#[test]
fn binary_octal_and_debug() {
    let mut db = desc();
    db.ty = "b".to_string();
    let mut doc = desc();
    doc.ty = "o".to_string();
    let mut dq = desc();
    dq.ty = "?".to_string();
    let t = tpl(vec![
        arg_with(Position::Index(0), db),
        lit(" "),
        arg_with(Position::Index(0), doc),
        lit(" "),
        arg_with(Position::Index(1), dq),
    ]);
    let params = vec![
        Param::normal(Value::Uint(10)),
        Param::normal(Value::Str("s".to_string())),
    ];
    let buf = FormatBuf::new(&t, &params).unwrap();
    assert_eq!(buf.format(), format!("{0:b} {0:o} {1:?}", 10u64, "s"));
}

#[test]
fn width_fill_and_alignment() {
    let mut right = desc();
    right.width = InCount::Is(5);
    right.align = Align::Right;
    let mut center = desc();
    center.width = InCount::Is(7);
    center.align = Align::Center;
    center.fill = Some('-');
    let t = tpl(vec![
        arg_with(Position::Index(0), right),
        lit("|"),
        arg_with(Position::Index(1), center),
    ]);
    let params = vec![
        Param::normal(Value::Str("ab".to_string())),
        Param::normal(Value::Str("mid".to_string())),
    ];
    let buf = FormatBuf::new(&t, &params).unwrap();
    assert_eq!(buf.format(), format!("{0:>5}|{1:-^7}", "ab", "mid"));
}

#[test]
fn zero_pad_and_signs() {
    let mut zp = desc();
    zp.width = InCount::Is(8);
    zp.flags = 8; // sign-aware zero pad
    let mut plus = desc();
    plus.flags = 1; // always print the sign
    let t = tpl(vec![
        arg_with(Position::Index(0), zp),
        lit(" "),
        arg_with(Position::Index(1), plus),
        lit(" "),
        arg_with(Position::Index(2), desc()),
    ]);
    let params = vec![
        Param::normal(Value::Int(-42)),
        Param::normal(Value::Uint(9)),
        Param::normal(Value::Int(-7)),
    ];
    let buf = FormatBuf::new(&t, &params).unwrap();
    assert_eq!(buf.format(), format!("{0:08} {1:+} {2}", -42i64, 9u64, -7i64));
}

#[test]
fn default_numeric_alignment_is_right() {
    let mut w = desc();
    w.width = InCount::Is(5);
    let t = tpl(vec![arg_with(Position::Index(0), w)]);
    let params = vec![Param::normal(Value::Uint(42))];
    let buf = FormatBuf::new(&t, &params).unwrap();
    assert_eq!(buf.format(), format!("{:5}", 42u64));
}

#[test]
fn string_precision_truncates() {
    let mut d = desc();
    d.precision = InCount::Is(3);
    let t = tpl(vec![arg_with(Position::Index(0), d)]);
    let params = vec![Param::normal(Value::Str("truncated".to_string()))];
    let buf = FormatBuf::new(&t, &params).unwrap();
    assert_eq!(buf.format(), format!("{:.3}", "truncated"));
}

#[test]
fn bool_and_char_display() {
    let t = tpl(vec![arg_index(0), lit(" "), arg_index(1), lit(" "), arg_index(2)]);
    let params = vec![
        Param::normal(Value::Bool(true)),
        Param::normal(Value::Bool(false)),
        Param::normal(Value::Char('Q')),
    ];
    let buf = FormatBuf::new(&t, &params).unwrap();
    assert_eq!(buf.format(), format!("{} {} {}", true, false, 'Q'));
}

#[test]
fn immediate_plan_renders_identically_on_repeated_calls() {
    let t = tpl(vec![lit("n="), arg_index(0)]);
    let params = vec![Param::normal(Value::Uint(31))];
    let buf = FormatBuf::new(&t, &params).unwrap();
    let first = buf.format();
    let second = buf.format();
    assert_eq!(first, second);
    assert_eq!(first, "n=31");
}

#[test]
fn prepared_plan_reuse_across_instances() {
    let t = tpl(vec![arg_named("label"), lit(": "), arg_named("width")]);
    let plan: PreparedFormat<Labeled> = PreparedFormat::prepare(&t).unwrap();
    let a = Labeled { label: "first".to_string(), width: 3 };
    let b = Labeled { label: "second".to_string(), width: 44 };
    assert_eq!(plan.format(&a), "first: 3");
    assert_eq!(plan.format(&b), "second: 44");
    assert_eq!(plan.format(&a), "first: 3");
}

#[test]
fn prepared_plan_count_by_name() {
    let mut d = desc();
    d.width = InCount::IsName("width".to_string());
    let t = tpl(vec![arg_with(Position::Named("label".to_string()), d)]);
    let plan: PreparedFormat<Labeled> = PreparedFormat::prepare(&t).unwrap();
    let a = Labeled { label: "pad".to_string(), width: 6 };
    assert_eq!(plan.format(&a), format!("{:width$}", "pad", width = 6));
}

#[test]
fn prepared_plan_unknown_name() {
    let t = tpl(vec![arg_named("nobody")]);
    let err = PreparedFormat::<Labeled>::prepare(&t).unwrap_err();
    match err {
        Error::BadName(n) => assert_eq!(n, "nobody"),
        _ => panic!("expected an unknown-name error"),
    }
}

#[test]
fn prepared_plan_newline() {
    let t = tpl(vec![arg_named("label")]);
    let mut plan: PreparedFormat<Labeled> = PreparedFormat::prepare(&t).unwrap();
    plan.newln();
    let a = Labeled { label: "line".to_string(), width: 0 };
    assert_eq!(plan.format(&a), "line\n");
}

#[test]
fn write_to_sinks() {
    let t = tpl(vec![lit("v="), arg_index(0)]);
    let params = vec![Param::normal(Value::Uint(250))];
    let buf = FormatBuf::new(&t, &params).unwrap();

    let mut bytes: Vec<u8> = vec![1];
    buf.write_io(&mut bytes).unwrap();
    assert_eq!(bytes, vec![1, b'v', b'=', b'2', b'5', b'0']);

    let mut text = String::from("x");
    buf.write_fmt(&mut text).unwrap();
    assert_eq!(text, "xv=250");
}

#[test]
fn assembled_arguments_render_like_the_plan() {
    let t = tpl(vec![lit("["), arg_index(0), lit("]")]);
    let params = vec![Param::normal(Value::Int(-3))];
    let buf = FormatBuf::new(&t, &params).unwrap();
    let args = buf.with();
    assert_eq!(runtime_fmt::plan::render(&args), "[-3]");
    assert_eq!(buf.format(), "[-3]");
}

#[test]
fn error_descriptions_and_messages() {
    assert_eq!(Error::BadIndex(5).description(), "out-of-range index");
    assert_eq!(Error::BadIndex(5).message(), "index 5 out of range");
    assert_eq!(Error::BadName("who".to_string()).message(), "unknown name \"who\"");
    assert_eq!(Error::NoSuchFormat("q".to_string()).message(), "bad formatting specifier \"q\"");
    assert_eq!(
        Error::UnsatisfiedFormat { idx: 0, must_implement: "fmt::LowerHex".to_string() }.message(),
        "argument 0 does not implement fmt::LowerHex"
    );
    assert_eq!(Error::BadCount(1).message(), "argument 1 cannot be used as a count");
    let syntax = Error::BadSyntax(vec![
        ("first problem".to_string(), None),
        ("second problem".to_string(), Some("more detail".to_string())),
    ]);
    assert_eq!(syntax.message(), "first problem; second problem (more detail)");
    assert_eq!(syntax.description(), "bad syntax");
}

#[test]
fn empty_template_renders_empty() {
    let t = tpl(vec![]);
    let params: Vec<Param> = vec![];
    let buf = FormatBuf::new(&t, &params).unwrap();
    assert_eq!(buf.format(), "");
}

#[test]
fn adjacent_literals_merge() {
    let t = tpl(vec![lit("a"), lit(""), lit("b"), arg_index(0), lit("c"), lit("d")]);
    let params = vec![Param::normal(Value::Uint(1))];
    let buf = FormatBuf::new(&t, &params).unwrap();
    assert_eq!(buf.format(), "ab1cd");
}

#[test]
fn repeated_reference_resolves_each_time() {
    // each reference allocates its own resolved-argument entry; the
    // rendered text still repeats the value
    let t = tpl(vec![arg_index(0), arg_index(0), arg_index(0)]);
    let params = vec![Param::normal(Value::Uint(9))];
    let buf = FormatBuf::new(&t, &params).unwrap();
    assert_eq!(buf.format(), "999");
}

#[test]
fn first_resolution_error_wins() {
    // the bad name comes before the bad index in the stream
    let t = tpl(vec![arg_named("missing"), arg_index(9)]);
    let params = vec![Param::normal(Value::Uint(1))];
    let err = FormatBuf::new(&t, &params).unwrap_err();
    assert!(matches!(err, Error::BadName(_)));
}

#[test]
fn large_unsigned_values() {
    let t = tpl(vec![arg_index(0)]);
    let params = vec![Param::normal(Value::Uint(u64::MAX))];
    let buf = FormatBuf::new(&t, &params).unwrap();
    assert_eq!(buf.format(), format!("{}", u64::MAX));
}

#[test]
fn most_negative_signed_value() {
    let t = tpl(vec![arg_index(0)]);
    let params = vec![Param::normal(Value::Int(i64::MIN))];
    let buf = FormatBuf::new(&t, &params).unwrap();
    assert_eq!(buf.format(), format!("{}", i64::MIN));
}

#[test]
fn hex_of_negative_is_twos_complement() {
    let mut d = desc();
    d.ty = "x".to_string();
    let t = tpl(vec![arg_with(Position::Index(0), d)]);
    let params = vec![Param::normal(Value::Int(-1))];
    let buf = FormatBuf::new(&t, &params).unwrap();
    assert_eq!(buf.format(), format!("{:x}", -1i64));
}

#[test]
fn prepared_plan_unsatisfied_format() {
    let mut d = desc();
    d.ty = "x".to_string();
    let t = tpl(vec![arg_with(Position::Named("label".to_string()), d)]);
    let err = PreparedFormat::<Labeled>::prepare(&t).unwrap_err();
    match err {
        Error::UnsatisfiedFormat { idx, must_implement } => {
            assert_eq!(idx, 0);
            assert_eq!(must_implement, "fmt::LowerHex");
        },
        _ => panic!("expected an unsatisfied-format error"),
    }
}

#[test]
fn prepared_plan_write_to_sinks() {
    let t = tpl(vec![arg_named("label"), lit("!")]);
    let plan: PreparedFormat<Labeled> = PreparedFormat::prepare(&t).unwrap();
    let a = Labeled { label: "hi".to_string(), width: 0 };
    let mut bytes: Vec<u8> = vec![];
    plan.write_io(&a, &mut bytes).unwrap();
    assert_eq!(bytes, b"hi!".to_vec());
    let mut text = String::new();
    plan.write_fmt(&a, &mut text).unwrap();
    assert_eq!(text, "hi!");
}
