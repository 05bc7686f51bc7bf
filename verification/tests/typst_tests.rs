use kaze_backend::typst::{to_typst_string, TypstDateTime, TypstSerError, TypstSerializer, TypstValue};

fn render(v: &TypstValue) -> String {
    let mut ser = TypstSerializer::new();
    ser.serialize(v);
    ser.output
}

fn s(x: &str) -> String {
    x.to_string()
}

#[test]
fn primitives() {
    assert_eq!(render(&TypstValue::Bool(true)), "true");
    assert_eq!(render(&TypstValue::Bool(false)), "false");
    assert_eq!(render(&TypstValue::Unsigned(42)), "42");
    assert_eq!(render(&TypstValue::Signed(-7)), "-7");
    assert_eq!(render(&TypstValue::Number(s("1.5"))), "1.5");
    assert_eq!(render(&TypstValue::Char('я')), "\"я\"");
    assert_eq!(render(&TypstValue::Str(s("a \"b\""))), "\"a \"b\"\"");
    assert_eq!(render(&TypstValue::Null), "null");
    assert_eq!(render(&TypstValue::UnitVariant(s("SingleRate"))), "SingleRate");
    assert_eq!(
        render(&TypstValue::NewtypeVariant(s("Some"), Box::new(TypstValue::Unsigned(1)))),
        "Some: 1"
    );
}

#[test]
fn arrays_keep_a_trailing_comma() {
    assert_eq!(render(&TypstValue::List(vec![])), "()");
    assert_eq!(
        render(&TypstValue::List(vec![TypstValue::Unsigned(1), TypstValue::Str(s("x"))])),
        "(1, \"x\", )"
    );
}

#[test]
fn compound_values() {
    let st = TypstValue::Struct(vec![
        (s("a"), TypstValue::Unsigned(1)),
        (s("b"), TypstValue::List(vec![TypstValue::Bool(true)])),
    ]);
    assert_eq!(render(&st), "(a: 1, b: (true, ))");
    assert_eq!(render(&TypstValue::Struct(vec![])), "()");
    let dict = TypstValue::Dict(vec![
        (TypstValue::Str(s("Кондиціонер (AERO 2020)")), TypstValue::Unsigned(3)),
        (TypstValue::Unsigned(5), TypstValue::Null),
    ]);
    assert_eq!(render(&dict), "(\"Кондиціонер (AERO 2020)\": 3, 5: null)");
    let tv = TypstValue::TupleVariant(s("Pair"), vec![TypstValue::Unsigned(1), TypstValue::Unsigned(2)]);
    assert_eq!(render(&tv), "Pair: (1, 2)");
    let sv = TypstValue::StructVariant(s("Point"), vec![(s("x"), TypstValue::Signed(-1))]);
    assert_eq!(render(&sv), "Point: (x: -1)");
}

#[test]
fn indentation() {
    let mut ser = TypstSerializer::new();
    ser._level = 2;
    ser._indent();
    assert_eq!(ser.output, "    ");
    assert_eq!(ser._level, 2);
}

#[test]
fn bytes_are_refused() {
    let mut ser = TypstSerializer::new();
    match ser.serialize_bytes(&[1, 2]) {
        Err(TypstSerError::Message(m)) => assert_eq!(m, "serialize_bytes not supported"),
        Ok(()) => panic!("bytes were accepted"),
    }
    assert_eq!(ser.output, "");
}

#[test]
fn dates_lose_their_quotes() {
    let date = TypstDateTime { day: 1, month: 2, year: 2024 };
    let v = TypstValue::Struct(vec![(s("date"), date.to_typst_value()), (s("n"), TypstValue::Str(s("plain")))]);
    assert_eq!(render(&v), "(date: \"datetime(day: 1, month: 2, year: 2024)\", n: \"plain\")");
    assert_eq!(
        to_typst_string(&v).ok().unwrap(),
        "(date: datetime(day: 1, month: 2, year: 2024), n: \"plain\")"
    );
}

#[test]
fn text_without_dates_is_unchanged() {
    let v = TypstValue::List(vec![TypstValue::Str(s("datetime")), TypstValue::Unsigned(3)]);
    assert_eq!(to_typst_string(&v).ok().unwrap(), "(\"datetime\", 3, )");
}

#[test]
fn error_messages() {
    let e = TypstSerError::custom("boom");
    assert_eq!(e.message(), "boom");
}

#[test]
fn date_calls_are_unquoted_shortest_first_and_within_a_line() {
    let v = TypstValue::List(vec![
        TypstValue::Str("datetime(a)\" \"datetime(b".to_string()),
        TypstValue::Str("datetime(day: 1)".to_string()),
    ]);
    assert_eq!(to_typst_string(&v).unwrap(), "(datetime(a) datetime(b\", \"datetime(day: 1), )");
    let w = TypstValue::List(vec![TypstValue::Str("datetime(x\ny)".to_string())]);
    assert_eq!(to_typst_string(&w).unwrap(), "(\"datetime(x\ny)\", )");
}
