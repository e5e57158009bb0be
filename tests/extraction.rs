use maybe_json::{
    coerce_bool, coerce_int, coerce_string, coerce_uint, string_truth, FloatNumber, FromJsonError, Json, Key,
    Maybe, MaybeValue, Number, TryFromJson,
};

fn text(s: &str) -> Json {
    Json::String(s.to_string())
}

fn whole(i: i64) -> Json {
    if i < 0 {
        Json::Number(Number::NegInt(i))
    } else {
        Json::Number(Number::PosInt(i as u64))
    }
}

fn float(truncated: i64, nonzero: bool, repr: &str) -> Json {
    Json::Number(Number::Float(FloatNumber { truncated, nonzero, text: repr.to_string() }))
}

fn object(members: Vec<(&str, Json)>) -> Json {
    Json::Object(members.into_iter().map(|(k, v)| (k.to_string(), v)).collect())
}

fn message<T>(m: Maybe<T>) -> String {
    match m {
        Maybe::Error(e) => e.message(),
        _ => panic!("not an error"),
    }
}

#[derive(Debug, PartialEq)]
struct Point {
    x: i64,
    y: i64,
}

impl TryFromJson for Point {
    fn try_from_json(node: &Json) -> Result<Self, FromJsonError> {
        match node {
            Json::Object(_) => Ok(Point {
                x: node.maybe_int(Key::name("x")).strict_ok()?,
                y: node.maybe_int(Key::name("y")).strict_ok()?,
            }),
            Json::Array(_) => Err(FromJsonError::with_message("type mismatch: array")),
            _ => Err(FromJsonError::with_message("not an object")),
        }
    }
}

#[test]
fn it_works() {
    assert_eq!(2 + 2, 4);
}

#[test]
fn basic_test() -> Result<(), FromJsonError> {
    let json = object(vec![("foo", whole(23)), ("bar", text("42"))]);

    assert_eq!(json.maybe_int(Key::name("foo")).strict(), Some(23));
    assert_eq!(json.maybe_string(Key::name("foo")).relaxed(), "23");
    assert_eq!(json.maybe_int(Key::name("bar")).relaxed(), 42);
    assert_eq!(json.maybe_string(Key::name("bar")).relaxed(), "42");
    Ok(())
}

#[test]
fn absent_key_reads_null_for_every_type() {
    let json = object(vec![("a", whole(1))]);
    assert!(matches!(json.maybe_bool(Key::name("zz")), Maybe::Null));
    assert!(matches!(json.maybe_int(Key::name("zz")), Maybe::Null));
    assert!(matches!(json.maybe_uint(Key::name("zz")), Maybe::Null));
    assert!(matches!(json.maybe_string(Key::name("zz")), Maybe::Null));
    assert!(matches!(json.maybe_array::<i64>(Key::name("zz")), Maybe::Null));
    assert!(matches!(json.maybe_object::<Point>(Key::name("zz")), Maybe::Null));
    assert!(matches!(json.maybe_int(Key::index(0)), Maybe::Null));
}

#[test]
fn explicit_null_reads_null() {
    let json = object(vec![("n", Json::Null)]);
    assert!(matches!(json.maybe_bool(Key::name("n")), Maybe::Null));
    assert!(matches!(json.maybe_int(Key::name("n")), Maybe::Null));
    assert!(matches!(json.maybe_string(Key::name("n")), Maybe::Null));
}

#[test]
fn integers_in_range_read_strict() {
    let json = object(vec![
        ("min", whole(i64::MIN)),
        ("max", whole(i64::MAX)),
        ("zero", whole(0)),
        ("neg", whole(-17)),
    ]);
    assert_eq!(json.maybe_int(Key::name("min")).strict(), Some(i64::MIN));
    assert_eq!(json.maybe_int(Key::name("max")).strict(), Some(i64::MAX));
    assert_eq!(json.maybe_int(Key::name("zero")).strict(), Some(0));
    assert_eq!(json.maybe_int(Key::name("neg")).strict(), Some(-17));
}

#[test]
fn large_unsigned_is_reinterpreted_as_signed() {
    let json = object(vec![("big", Json::Number(Number::PosInt(u64::MAX)))]);
    assert_eq!(json.maybe_int(Key::name("big")).strict(), Some(-1));
    assert_eq!(json.maybe_uint(Key::name("big")).strict(), Some(u64::MAX));
    assert_eq!(json.maybe_string(Key::name("big")).relaxed(), "18446744073709551615");
    assert_eq!(json.maybe_bool(Key::name("big")).relaxed(), true);
}

#[test]
fn negative_int_reads_as_wrapped_unsigned() {
    let json = object(vec![("n", whole(-1)), ("s", text("-2"))]);
    assert_eq!(json.maybe_uint(Key::name("n")).strict(), Some(u64::MAX));
    assert!(matches!(json.maybe_uint(Key::name("s")), Maybe::Relaxed(v) if v == u64::MAX - 1));
}

#[test]
fn strings_read_strict_and_unchanged() {
    let json = object(vec![("s", text("héllo wörld")), ("e", text(""))]);
    assert_eq!(json.maybe_string(Key::name("s")).strict(), Some("héllo wörld".to_string()));
    assert_eq!(json.maybe_string(Key::name("e")).strict(), Some(String::new()));
}

#[test]
fn booleans_coerce_to_integers_and_text() {
    let json = object(vec![("t", Json::Bool(true)), ("f", Json::Bool(false))]);
    assert!(matches!(json.maybe_int(Key::name("t")), Maybe::Relaxed(1)));
    assert!(matches!(json.maybe_int(Key::name("f")), Maybe::Relaxed(0)));
    assert!(matches!(json.maybe_bool(Key::name("t")), Maybe::Strict(true)));
    assert_eq!(json.maybe_string(Key::name("t")).relaxed(), "true");
    assert_eq!(json.maybe_string(Key::name("f")).relaxed(), "false");
    assert!(matches!(json.maybe_string(Key::name("f")), Maybe::Relaxed(_)));
}

#[test]
fn numbers_coerce_to_booleans() {
    let json = object(vec![("z", whole(0)), ("p", whole(5)), ("n", whole(-5)), ("fz", float(0, false, "0.0"))]);
    assert!(matches!(json.maybe_bool(Key::name("z")), Maybe::Relaxed(false)));
    assert!(matches!(json.maybe_bool(Key::name("p")), Maybe::Relaxed(true)));
    assert!(matches!(json.maybe_bool(Key::name("n")), Maybe::Relaxed(true)));
    assert!(matches!(json.maybe_bool(Key::name("fz")), Maybe::Relaxed(false)));
}

#[test]
fn floats_truncate_and_keep_their_text() {
    let json = object(vec![("f", float(-2, true, "-2.75"))]);
    assert!(matches!(json.maybe_int(Key::name("f")), Maybe::Relaxed(-2)));
    assert!(matches!(json.maybe_bool(Key::name("f")), Maybe::Relaxed(true)));
    assert_eq!(json.maybe_string(Key::name("f")).relaxed(), "-2.75");
    assert_eq!(json.maybe_int(Key::name("f")).strict(), None);
}

#[test]
fn negative_number_text() {
    let json = object(vec![("n", whole(-9_007))]);
    assert_eq!(json.maybe_string(Key::name("n")).relaxed(), "-9007");
}

#[test]
fn string_flag_off_is_true() {
    let json = object(vec![("flag", text("off"))]);
    assert_eq!(json.maybe_bool(Key::name("flag")).relaxed(), true);
}

#[test]
fn strings_that_read_false() {
    let json = object(vec![("e", text("")), ("z", text("0")), ("f", text("FaLsE")), ("t", text("false "))]);
    assert!(matches!(json.maybe_bool(Key::name("e")), Maybe::Relaxed(false)));
    assert!(matches!(json.maybe_bool(Key::name("z")), Maybe::Relaxed(false)));
    assert!(matches!(json.maybe_bool(Key::name("f")), Maybe::Relaxed(false)));
    assert!(matches!(json.maybe_bool(Key::name("t")), Maybe::Relaxed(true)));
}

#[test]
fn string_truth_takes_the_lowered_form() {
    assert!(!string_truth("FALSE", "false"));
    assert!(string_truth("FALSE", "FALSE"));
    assert!(!string_truth("0", "0"));
    assert!(!string_truth("", ""));
    assert!(string_truth("00", "00"));
}

#[test]
fn numeric_strings_parse_or_fail() {
    let json = object(vec![
        ("plus", text("+7")),
        ("neg", text("-42")),
        ("bad", text("4x2")),
        ("space", text(" 1")),
        ("over", text("9223372036854775808")),
        ("min", text("-9223372036854775808")),
        ("sign", text("-")),
    ]);
    assert!(matches!(json.maybe_int(Key::name("plus")), Maybe::Relaxed(7)));
    assert!(matches!(json.maybe_int(Key::name("neg")), Maybe::Relaxed(-42)));
    assert!(matches!(json.maybe_int(Key::name("min")), Maybe::Relaxed(i64::MIN)));
    assert_eq!(message(json.maybe_int(Key::name("bad"))), "parseIntError");
    assert_eq!(message(json.maybe_int(Key::name("space"))), "parseIntError");
    assert_eq!(message(json.maybe_int(Key::name("over"))), "parseIntError");
    assert_eq!(message(json.maybe_int(Key::name("sign"))), "parseIntError");
    assert_eq!(json.maybe_int(Key::name("bad")).relaxed(), 0);
    assert_eq!(json.maybe_int(Key::name("bad")).default(9), 9);
}

#[test]
fn arrays_and_objects_are_type_mismatches() {
    let json = object(vec![("a", Json::Array(vec![whole(1)])), ("o", object(vec![]))]);
    assert_eq!(message(json.maybe_bool(Key::name("a"))), "type mismatch: array");
    assert_eq!(message(json.maybe_bool(Key::name("o"))), "type mismatch: object");
    assert_eq!(message(json.maybe_int(Key::name("a"))), "type mismatch: array");
    assert_eq!(message(json.maybe_int(Key::name("o"))), "type mismatch: object");
    assert_eq!(message(json.maybe_uint(Key::name("o"))), "type mismatch: object");
    assert_eq!(message(json.maybe_string(Key::name("a"))), "type mismatch: array");
    assert_eq!(message(json.maybe_string(Key::name("o"))), "type mismatch: object");
}

#[test]
fn list_drops_unconvertible_elements() {
    let json = object(vec![("list", Json::Array(vec![whole(1), text("x"), whole(3)]))]);
    match json.maybe_array::<i64>(Key::name("list")) {
        Maybe::Relaxed(v) => assert_eq!(v, vec![1, 3]),
        _ => panic!("expected a relaxed list"),
    }
}

#[test]
fn clean_list_is_strict() {
    let json = object(vec![("list", Json::Array(vec![whole(1), text("2"), Json::Bool(true)]))]);
    match json.maybe_array::<i64>(Key::name("list")) {
        Maybe::Strict(v) => assert_eq!(v, vec![1, 2, 1]),
        _ => panic!("expected a strict list"),
    }
    let empty = object(vec![("list", Json::Array(vec![]))]);
    assert!(matches!(empty.maybe_array::<bool>(Key::name("list")), Maybe::Strict(v) if v.is_empty()));
}

#[test]
fn lone_value_is_a_one_element_list() {
    let json = object(vec![("one", whole(4)), ("bad", text("nope")), ("nul", Json::Null)]);
    match json.maybe_array::<u64>(Key::name("one")) {
        Maybe::Relaxed(v) => assert_eq!(v, vec![4]),
        _ => panic!("expected a relaxed list"),
    }
    assert_eq!(message(json.maybe_array::<i64>(Key::name("bad"))), "parseIntError");
    assert_eq!(message(json.maybe_array::<i64>(Key::name("nul"))), "null value");
}

#[test]
fn object_from_array_is_an_error() {
    let json = object(vec![("obj", Json::Array(vec![whole(1), whole(2)]))]);
    assert_eq!(message(json.maybe_object::<Point>(Key::name("obj"))), "type mismatch: array");
}

#[test]
fn object_converts_strictly() {
    let json = object(vec![("obj", object(vec![("x", whole(1)), ("y", whole(-2))]))]);
    assert_eq!(json.maybe_object::<Point>(Key::name("obj")).strict(), Some(Point { x: 1, y: -2 }));
    let list = object(vec![("pts", Json::Array(vec![object(vec![("x", whole(3)), ("y", whole(4))]), whole(5)]))]);
    match list.maybe_array::<Point>(Key::name("pts")) {
        Maybe::Relaxed(v) => assert_eq!(v, vec![Point { x: 3, y: 4 }]),
        _ => panic!("expected a relaxed list"),
    }
}

#[test]
fn lookup_by_index_and_first_member() {
    let arr = Json::Array(vec![text("a"), whole(2)]);
    assert_eq!(arr.maybe_string(Key::index(0)).strict(), Some("a".to_string()));
    assert_eq!(arr.maybe_int(Key::index(1)).strict(), Some(2));
    assert!(matches!(arr.maybe_int(Key::index(2)), Maybe::Null));
    assert!(matches!(arr.maybe_int(Key::name("a")), Maybe::Null));
    let dup = object(vec![("k", whole(1)), ("k", whole(2))]);
    assert_eq!(dup.maybe_int(Key::name("k")).strict(), Some(1));
}

#[test]
fn default_for_null_only_for_absence() {
    let json = object(vec![("s", whole(5)), ("r", text("6")), ("e", text("x")), ("n", Json::Null)]);
    assert_eq!(json.maybe_int(Key::name("s")).default_for_null(0), Some(5));
    assert_eq!(json.maybe_int(Key::name("n")).default_for_null(7), Some(7));
    assert_eq!(json.maybe_int(Key::name("missing")).default_for_null(8), Some(8));
    assert_eq!(json.maybe_int(Key::name("r")).default_for_null(9), None);
    assert_eq!(json.maybe_int(Key::name("e")).default_for_null(9), None);
    assert_eq!(json.maybe_int(Key::name("r")).default(9), 6);
    assert_eq!(json.maybe_int(Key::name("r")).relaxed(), 6);
    assert_eq!(json.maybe_int(Key::name("e")).default(9), 9);
}

#[test]
fn strict_ok_outcomes() {
    let json = object(vec![("s", whole(5)), ("r", text("6")), ("e", Json::Array(vec![]))]);
    assert_eq!(json.maybe_int(Key::name("s")).strict_ok().unwrap(), 5);
    assert_eq!(json.maybe_int(Key::name("r")).strict_ok().unwrap_err().message(), "no strict value");
    assert_eq!(json.maybe_int(Key::name("missing")).strict_ok().unwrap_err().message(), "no strict value");
    assert_eq!(json.maybe_int(Key::name("e")).strict_ok().unwrap_err().message(), "type mismatch: array");
}

#[test]
fn strict_only_for_exact_type() {
    let json = object(vec![("r", text("6"))]);
    assert_eq!(json.maybe_int(Key::name("r")).strict(), None);
    assert_eq!(json.maybe_string(Key::name("missing")).relaxed(), "");
    assert_eq!(json.maybe_bool(Key::name("missing")).default(true), true);
}

#[test]
fn node_coercions_directly() {
    assert!(matches!(coerce_int(None), Maybe::Null));
    assert!(matches!(coerce_uint(Some(&whole(3))), Maybe::Strict(3)));
    assert!(matches!(coerce_bool(Some(&text("TRUE"))), Maybe::Relaxed(true)));
    assert_eq!(coerce_string(Some(&whole(120))).relaxed(), "120");
}

#[test]
fn error_keeps_its_message() {
    assert_eq!(FromJsonError::with_message("boom").message(), "boom");
}

#[test]
fn list_of_strings_reads_every_scalar() {
    let json = object(vec![("l", Json::Array(vec![text("a"), whole(7), Json::Bool(false), Json::Array(vec![])]))]);
    match json.maybe_array::<String>(Key::name("l")) {
        Maybe::Relaxed(v) => assert_eq!(v, vec!["a".to_string(), "7".to_string(), "false".to_string()]),
        _ => panic!("expected a relaxed list"),
    }
}
