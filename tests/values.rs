use qjs::{same_value, Kind, Number, RawValue, TAG_INT, TAG_STRING};

fn as_float(v: &RawValue) -> Option<f64> {
    match v.as_number() {
        Some(Number::Int(i)) => Some(i as f64),
        Some(Number::Float(b)) => Some(f64::from_bits(b)),
        None => None,
    }
}

fn inline_int(v: i64) -> RawValue {
    RawValue::integer(v).unwrap()
}

#[test]
fn unit() {
    let undef = RawValue::undefined();
    let null = RawValue::null();
    let ex = RawValue::exception();

    assert!(undef.is_undefined());
    assert!(null.is_null());
    assert!(ex.is_exception());
}

#[test]
fn strings() {
    let s1 = qjs::render(qjs::c_string("Hello, World").unwrap()[..12].to_vec());
    let s2 = qjs::render("".as_bytes().to_vec());
    let s3 = qjs::render("\0".as_bytes().to_vec());

    assert_eq!(&s1, "Hello, World");
    assert_eq!(&s2, "");
    assert_eq!(&s3, "\0");

    let block = RawValue { tag: TAG_STRING, bits: 0x7f00_1000 };
    assert!(block.is_string());
    assert!(same_value(1, &block.clone(), 1, &block));
}

#[test]
fn integer() {
    let i1 = inline_int(42);
    let i2 = inline_int(0);
    let i3 = inline_int(-1);
    let i4 = inline_int(0x7fffffff);
    let i5 = inline_int(-0x7fffffff);

    assert!(i1.is_integer());
    assert_eq!(i1.as_integer().unwrap(), 42);

    assert!(i2.is_integer());
    assert_eq!(i2.as_integer().unwrap(), 0);

    assert!(i3.is_integer());
    assert_eq!(i3.as_integer().unwrap(), -1);

    assert!(i4.is_integer());
    assert_eq!(i4.as_integer().unwrap(), 0x7fffffff);

    assert!(i5.is_integer());
    assert_eq!(i5.as_integer().unwrap(), -0x7fffffff);
}

#[test]
fn float() {
    let f1 = RawValue::float_bits(42.0f64.to_bits());
    let f2 = RawValue::float_bits(0.0f64.to_bits());
    let f3 = RawValue::float_bits((-1.0f64).to_bits());
    let f4 = RawValue::float_bits(f64::INFINITY.to_bits());
    let f5 = RawValue::float_bits(f64::NEG_INFINITY.to_bits());
    let f6 = RawValue::float_bits(f64::NAN.to_bits());

    assert!(f1.is_number());
    assert_eq!(as_float(&f1).unwrap(), 42.0);

    assert!(f2.is_number());
    assert_eq!(as_float(&f2).unwrap(), 0.0);

    assert!(f3.is_number());
    assert_eq!(as_float(&f3).unwrap(), -1.0);

    assert!(f4.is_number());
    assert_eq!(as_float(&f4).unwrap(), f64::INFINITY);

    assert!(f5.is_number());
    assert_eq!(as_float(&f5).unwrap(), f64::NEG_INFINITY);

    assert!(f6.is_number());
    assert!(as_float(&f6).unwrap().is_nan());
}

#[test]
fn bool() {
    let b1 = RawValue::boolean(true);
    let b2 = RawValue::boolean(false);

    assert!(b1.is_boolean());
    assert!(b1.as_boolean().unwrap());

    assert!(b2.is_boolean());
    assert!(!b2.as_boolean().unwrap());
}

#[test]
fn arrays() {
    let len = inline_int(100);
    assert_eq!(qjs::array_length(&len).unwrap(), 100);
    for i in 0..100usize {
        let idx = qjs::element_index(i).unwrap();
        assert_eq!(inline_int(idx as i64).as_integer().unwrap(), i as i64);
    }
}

#[test]
fn func2() {
    let args = [inline_int(23), inline_int(42)];
    let n = qjs::argument_count(2);
    assert_eq!(n, 2);
    let sum = args[0].as_integer().unwrap() + args[1].as_integer().unwrap();
    let exp = inline_int(23 + 42);
    assert!(same_value(5, &inline_int(sum), 5, &exp));
    assert_eq!(inline_int(sum).as_integer(), Some(65));
}

#[test]
fn object() {
    let one = inline_int(1);
    let handed_back = one;
    assert!(same_value(9, &handed_back, 9, &inline_int(1)));
    let obj = RawValue { tag: qjs::TAG_OBJECT, bits: 0x5555_0000 };
    let same_obj = obj;
    assert!(same_value(9, &same_obj, 9, &obj));
}

#[test]
fn integers_outside_inline_range_are_not_inline() {
    assert!(RawValue::integer(1i64 << 40).is_none());
    assert!(RawValue::integer(i32::MAX as i64 + 1).is_none());
    assert!(RawValue::integer(i32::MIN as i64 - 1).is_none());
    assert_eq!(RawValue::integer(i32::MIN as i64).unwrap().as_integer(), Some(i32::MIN as i64));
}

#[test]
fn conversions_on_wrong_tags_are_empty() {
    let s = RawValue { tag: TAG_STRING, bits: 0x1000 };
    assert_eq!(s.as_integer(), None);
    assert_eq!(s.as_number(), None);
    assert_eq!(s.as_boolean(), None);
    assert_eq!(RawValue::boolean(true).as_integer(), None);
    assert_eq!(inline_int(1).as_boolean(), None);
    assert_eq!(RawValue { tag: qjs::TAG_BOOL, bits: 2 }.as_boolean(), None);
    assert_eq!(inline_int(-5).as_number(), Some(Number::Int(-5)));
}

#[test]
fn number_predicate_covers_integers_and_doubles() {
    assert!(inline_int(3).is_number());
    assert!(RawValue::float_bits(1.5f64.to_bits()).is_number());
    assert!(!RawValue::boolean(true).is_number());
    assert!(!RawValue::null().is_number());
}

#[test]
fn values_of_different_contexts_differ() {
    let a = inline_int(7);
    let b = inline_int(7);
    assert!(!same_value(1, &a, 2, &b));
    let o = RawValue { tag: qjs::TAG_OBJECT, bits: 0x4000 };
    assert!(!same_value(1, &o, 2, &o));
}

#[test]
fn equality_is_identity_for_blocks() {
    let a = RawValue { tag: qjs::TAG_OBJECT, bits: 0x4000 };
    let b = RawValue { tag: qjs::TAG_OBJECT, bits: 0x8000 };
    assert!(!same_value(1, &a, 1, &b));
    assert!(!same_value(1, &inline_int(1), 1, &RawValue::boolean(true)));
    assert!(same_value(1, &RawValue::undefined(), 1, &RawValue::undefined()));
}

#[test]
fn tags_classify() {
    assert_eq!(Kind::of_tag(TAG_INT), Kind::Integer);
    assert_eq!(Kind::of_tag(qjs::TAG_FLOAT64), Kind::Float);
    assert_eq!(Kind::of_tag(qjs::TAG_BOOL), Kind::Boolean);
    assert_eq!(Kind::of_tag(qjs::TAG_NULL), Kind::Null);
    assert_eq!(Kind::of_tag(qjs::TAG_UNDEFINED), Kind::Undefined);
    assert_eq!(Kind::of_tag(qjs::TAG_EXCEPTION), Kind::Exception);
    assert_eq!(Kind::of_tag(TAG_STRING), Kind::String);
    assert_eq!(Kind::of_tag(qjs::TAG_OBJECT), Kind::Object);
    assert_eq!(Kind::of_tag(-8), Kind::OtherCounted);
    assert_eq!(Kind::of_tag(qjs::TAG_FIRST), Kind::OtherCounted);
    assert_eq!(Kind::of_tag(-11), Kind::OtherScalar);
    assert_eq!(Kind::of_tag(4), Kind::OtherScalar);
    assert!(Kind::String.is_counted());
    assert!(!Kind::Integer.is_counted());
    assert!(RawValue { tag: -1, bits: 8 }.is_counted());
    assert!(!RawValue::exception().is_counted());
    assert_eq!(inline_int(2).kind(), Kind::Integer);
}
