use variants::text::{
    bool_word_text, bracket, signed_text, text_piece, unsigned_text, wrap, Piece,
};
use variants::variant::Payload;
use variants::vartype::{
    VT_ARRAY, VT_BSTR, VT_DECIMAL, VT_DISPATCH, VT_EMPTY, VT_I4, VT_LPSTR, VT_LPWSTR,
    VT_SAFEARRAY, VT_UNKNOWN, VT_VARIANT,
};
use variants::{SafeArray, Value, Variant};

fn texts(pieces: &Vec<Piece>) -> Vec<String> {
    pieces
        .iter()
        .map(|p| match p {
            Piece::Text(s) => s.clone(),
            Piece::Single(b) => format!("<{}>", b),
            Piece::Double(b) => format!("<<{}>>", b),
        })
        .collect()
}

#[test]
fn integers_in_decimal() {
    assert_eq!(unsigned_text(0), "0");
    assert_eq!(unsigned_text(7), "7");
    assert_eq!(unsigned_text(10), "10");
    assert_eq!(unsigned_text(1234567890), "1234567890");
    assert_eq!(unsigned_text(u64::MAX), "18446744073709551615");
    assert_eq!(signed_text(0), "0");
    assert_eq!(signed_text(-1), "-1");
    assert_eq!(signed_text(-10), "-10");
    assert_eq!(signed_text(i64::MAX), "9223372036854775807");
    assert_eq!(signed_text(i64::MIN), "-9223372036854775808");
    let mut n: u64 = 1;
    for _ in 0..19 {
        assert_eq!(unsigned_text(n), n.to_string());
        assert_eq!(unsigned_text(n - 1), (n - 1).to_string());
        assert_eq!(signed_text(-(n as i64)), (-(n as i64)).to_string());
        n *= 10;
    }
}

#[test]
fn booleans_as_words() {
    assert_eq!(bool_word_text(true), "true");
    assert_eq!(bool_word_text(false), "false");
}

#[test]
fn lists_in_square_brackets() {
    assert_eq!(texts(&bracket(&vec![])), vec!["[", "]"]);
    assert_eq!(texts(&bracket(&vec![text_piece("a")])), vec!["[", "a", "]"]);
    assert_eq!(
        texts(&bracket(&vec![text_piece("a"), Piece::Single(5), text_piece("c")])),
        vec!["[", "a", ", ", "<5>", ", ", "c", "]"]
    );
}

#[test]
fn payload_in_round_brackets() {
    assert_eq!(texts(&wrap("TAG(", vec![])), vec!["TAG(", ")"]);
    assert_eq!(
        texts(&wrap("TAG(", vec![text_piece("x"), Piece::Double(9)])),
        vec!["TAG(", "x", "<<9>>", ")"]
    );
}

#[test]
fn reals_stand_between_the_text_around_them() {
    let pieces = Value::R4(1.5f32.to_bits()).fmt().unwrap();
    assert_eq!(
        pieces,
        vec![Piece::Text("R4(".into()), Piece::Single(1.5f32.to_bits()), Piece::Text(")".into())]
    );
    let pieces = Value::DATE(2.0f64.to_bits()).fmt().unwrap();
    assert_eq!(
        pieces,
        vec![Piece::Text("DATE(".into()), Piece::Double(2.0f64.to_bits()), Piece::Text(")".into())]
    );
}

#[test]
fn the_default_value_is_empty() {
    let v = Variant::default();
    assert_eq!(v.get_type(), VT_EMPTY);
    assert!(v.is_null());
    assert_eq!(*v.get_data(), Payload::Scalar(0));
    assert!(v == Variant::from(Value::EMPTY));
}

#[test]
fn tags_with_a_resource() {
    let text = |vt: i32| Variant::new(vt as u16, Payload::Text("x".into())).unwrap();
    assert!(text(VT_BSTR).holds_resource());
    assert!(text(VT_LPSTR).holds_resource());
    assert!(text(VT_LPWSTR).holds_resource());
    assert!(Variant::new(VT_UNKNOWN as u16, Payload::Object(0)).unwrap().holds_resource());
    assert!(Variant::new(VT_DISPATCH as u16, Payload::Object(8)).unwrap().holds_resource());
    assert!(Variant::from(Value::VARIANT(Variant::default())).holds_resource());
    let d = variants::value::Decimal { scale: 0, sign: 0, hi32: 0, lo64: 0 };
    assert!(Variant::new(VT_DECIMAL as u16, Payload::Decimal(d)).unwrap().holds_resource());
    assert!(Variant::from(Value::SAFEARRAY(SafeArray::null(true))).holds_resource());
    assert!(Variant::new(VT_ARRAY as u16, Payload::Array(SafeArray::null(true))).unwrap().holds_resource());
    assert!(!Variant::from(Value::I4(1)).holds_resource());
    assert!(!Variant::default().holds_resource());
    assert!(!Variant::new(26, Payload::Scalar(0)).unwrap().holds_resource());
    assert_eq!(Variant::from(Value::I4(1)).get_type(), VT_I4);
    assert_eq!(Variant::from(Value::VARIANT(Variant::default())).get_type(), VT_VARIANT);
    assert_eq!(Variant::from(Value::ARRAY(SafeArray::null(true))).get_type(), VT_SAFEARRAY);
}

#[test]
fn a_value_is_duplicated_with_its_payload() {
    let a = SafeArray::from_vector(VT_I4, &vec![1i32, 2]).unwrap();
    let all = vec![
        Value::NULL,
        Value::I8(-9),
        Value::STRING("text".into()),
        Value::R8(0.5f64.to_bits()),
        Value::VARIANT(Variant::from(Value::STRING("in".into()))),
        Value::SAFEARRAY(a.clone()),
        Value::ARRAY(a),
    ];
    for v in all {
        assert!(v.clone() == v);
    }
}
