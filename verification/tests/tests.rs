use ryaml::{
    array_marked_table, decode, encode, null_sentinel, safe_decode, safe_encode, CodecError,
    DynValue,
};

fn table(entries: Vec<(DynValue, DynValue)>) -> DynValue {
    DynValue::Table { entries, array_marked: false }
}

fn key(k: &str) -> DynValue {
    DynValue::Str(k.to_owned())
}

#[test]
fn test_encode_decode() {
    let t1 = table(vec![
        (key("a"), null_sentinel()),
        (key("b"), DynValue::Str("hello".to_owned())),
        (key("c"), array_marked_table()),
        (key("d"), DynValue::Int(4)),
    ]);
    let encoded = encode(&t1).unwrap();
    assert!(encoded.contains("c: []"));
    let t2 = decode(&DynValue::Str(encoded)).unwrap();
    // The round trip settles the value into its normal shape: the marked
    // empty table comes back as an empty array, which the host cannot tell
    // apart from the marked table it sent in.
    let expected = table(vec![
        (key("a"), null_sentinel()),
        (key("b"), DynValue::Str("hello".to_owned())),
        (key("c"), DynValue::Array(vec![])),
        (key("d"), DynValue::Int(4)),
    ]);
    assert_eq!(t2, expected);
}

#[test]
fn test_encode_error() {
    let err = encode(&DynValue::Opaque("function".to_owned())).unwrap_err();
    assert_eq!(err.message(), "cannot serialize <function>");

    let (value, message) = safe_encode(&DynValue::Opaque("userdata".to_owned()));
    assert_eq!(value, DynValue::Nil);
    assert_eq!(message.unwrap(), "cannot serialize <userdata>");
}

#[test]
fn test_null_distinction() {
    let decoded = decode(&DynValue::Str("{a: null}".to_owned())).unwrap();
    let expected = table(vec![(key("a"), null_sentinel())]);
    assert_eq!(decoded, expected);
    // The sentinel is its own value: it never equals the native absence
    // value, and never equals anything a plain key lookup would miss.
    assert_ne!(null_sentinel(), DynValue::Nil);
    assert_eq!(null_sentinel(), null_sentinel());
}

#[test]
fn test_empty_array_marker() {
    let marked = table(vec![(key("a"), array_marked_table())]);
    assert_eq!(encode(&marked).unwrap(), "a: []\n");

    let unmarked = table(vec![(key("a"), table(vec![]))]);
    assert_eq!(encode(&unmarked).unwrap(), "a: {}\n");
}

#[test]
fn test_invalid_input_type() {
    let err = decode(&DynValue::Int(3)).unwrap_err();
    assert!(matches!(err, CodecError::InvalidInputType(_)));
    assert_eq!(err.message(), "invalid input type: number");

    let err = decode(&DynValue::Bool(true)).unwrap_err();
    assert_eq!(err.message(), "invalid input type: boolean");
}

#[test]
fn test_parse_error() {
    let err = decode(&DynValue::Str("{a: [unclosed".to_owned())).unwrap_err();
    match err {
        CodecError::ParseError(msg) => assert!(!msg.is_empty()),
        other => panic!("expected a parse error, got {:?}", other),
    }
}

#[test]
fn test_internal_serialize_error() {
    // A numeric-text scalar the codec's number parser does not take back is
    // refused by the serializer side, not silently stringified.
    let bad = table(vec![(key("a"), DynValue::Float("not a number".to_owned()))]);
    let err = encode(&bad).unwrap_err();
    assert!(matches!(err, CodecError::InternalSerializeError(_)));
}

#[test]
fn test_safe_decode_matches_throwing_mode() {
    let (value, message) = safe_decode(&DynValue::Int(7));
    assert_eq!(value, DynValue::Nil);
    assert_eq!(message.unwrap(), "invalid input type: number");

    let (value, message) = safe_decode(&DynValue::Str("x: 2".to_owned()));
    assert_eq!(value, table(vec![(key("x"), DynValue::Int(2))]));
    assert!(message.is_none());

    let bad = DynValue::Str("{a: [unclosed".to_owned());
    let thrown = decode(&bad).unwrap_err();
    let (value, message) = safe_decode(&bad);
    assert_eq!(value, DynValue::Nil);
    assert_eq!(message.unwrap(), thrown.message());
}

#[test]
fn test_safe_encode_success() {
    let (value, message) = safe_encode(&DynValue::Int(4));
    assert_eq!(value, DynValue::Str("4\n".to_owned()));
    assert!(message.is_none());
}

#[test]
fn test_scalars() {
    assert_eq!(encode(&DynValue::Int(4)).unwrap(), "4\n");
    assert_eq!(encode(&DynValue::Bool(false)).unwrap(), "false\n");
    assert_eq!(encode(&DynValue::Str("hi".to_owned())).unwrap(), "hi\n");
    assert_eq!(encode(&null_sentinel()).unwrap(), "null\n");
    assert_eq!(encode(&DynValue::Nil).unwrap(), "null\n");

    assert_eq!(decode(&DynValue::Str("4".to_owned())).unwrap(), DynValue::Int(4));
    assert_eq!(decode(&DynValue::Str("true".to_owned())).unwrap(), DynValue::Bool(true));
    assert_eq!(decode(&DynValue::Str("hi".to_owned())).unwrap(), DynValue::Str("hi".to_owned()));
    assert_eq!(decode(&DynValue::Str("null".to_owned())).unwrap(), null_sentinel());
}

#[test]
fn test_float_text() {
    assert_eq!(
        decode(&DynValue::Str("1.5".to_owned())).unwrap(),
        DynValue::Float("1.5".to_owned())
    );
    assert_eq!(encode(&DynValue::Float("1.5".to_owned())).unwrap(), "1.5\n");
    // An integer too large for the signed 64-bit kind still round trips
    // exactly, through its text.
    let big = "18446744073709551615";
    assert_eq!(
        decode(&DynValue::Str(big.to_owned())).unwrap(),
        DynValue::Float(big.to_owned())
    );
    assert_eq!(encode(&DynValue::Float(big.to_owned())).unwrap(), format!("{}\n", big));
}

#[test]
fn test_sequence_order() {
    let decoded = decode(&DynValue::Str("- 1\n- 2\n- 3".to_owned())).unwrap();
    assert_eq!(
        decoded,
        DynValue::Array(vec![DynValue::Int(1), DynValue::Int(2), DynValue::Int(3)])
    );
    let text = encode(&decoded).unwrap();
    assert_eq!(text, "- 1\n- 2\n- 3\n");
}

#[test]
fn test_nested_round_trip() {
    let v = table(vec![
        (
            key("outer"),
            table(vec![
                (key("inner"), DynValue::Array(vec![DynValue::Int(1), DynValue::Bool(true)])),
                (key("deep"), null_sentinel()),
            ]),
        ),
        (key("list"), DynValue::Array(vec![table(vec![(key("k"), DynValue::Int(-7))])])),
    ]);
    let text = encode(&v).unwrap();
    let back = decode(&DynValue::Str(text)).unwrap();
    assert_eq!(back, v);
}

#[test]
fn test_int_extremes_round_trip() {
    let v = DynValue::Array(vec![DynValue::Int(i64::MAX), DynValue::Int(i64::MIN)]);
    let text = encode(&v).unwrap();
    let back = decode(&DynValue::Str(text)).unwrap();
    assert_eq!(back, v);
}

#[test]
fn test_opaque_inside_container() {
    let v = table(vec![
        (key("fine"), DynValue::Int(1)),
        (key("bad"), DynValue::Opaque("thread".to_owned())),
    ]);
    let err = encode(&v).unwrap_err();
    assert_eq!(err.message(), "cannot serialize <thread>");
    let (value, message) = safe_encode(&v);
    assert_eq!(value, DynValue::Nil);
    assert_eq!(message.unwrap(), "cannot serialize <thread>");
}

#[test]
fn test_empty_containers() {
    assert_eq!(decode(&DynValue::Str("[]".to_owned())).unwrap(), DynValue::Array(vec![]));
    assert_eq!(decode(&DynValue::Str("{}".to_owned())).unwrap(), table(vec![]));
    assert_eq!(encode(&DynValue::Array(vec![])).unwrap(), "[]\n");
    assert_eq!(encode(&table(vec![])).unwrap(), "{}\n");
    assert_eq!(encode(&array_marked_table()).unwrap(), "[]\n");
}

#[test]
fn test_decoded_value_round_trips_exactly() {
    let text = "a: null\nb:\n- 1\n- 2.5\n- x: true\nc: {}\nd: []\n";
    let v1 = decode(&DynValue::Str(text.to_owned())).unwrap();
    let t1 = encode(&v1).unwrap();
    let v2 = decode(&DynValue::Str(t1)).unwrap();
    assert_eq!(v1, v2);
}
