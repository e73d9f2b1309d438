use wap::cstring::c_string;
use wap::wire::{decode_return, encode_args, slot, type_code, RetTypes, F64_NEG_ZERO_BITS, F64_ONE_BITS};
use wap::{JsType, RefIndex};

#[test]
fn it_works() {
    assert_eq!(2 + 2, 4);
}

#[test]
fn unwrap_gives_back_what_from_wrapped() {
    assert_eq!(JsType::from(true).unwrap_boolean(), true);
    assert_eq!(JsType::from(false).unwrap_boolean(), false);
    assert_eq!(JsType::from("hello".to_string()).unwrap_string(), "hello");
    let r = RefIndex { bits: 42 };
    assert_eq!(JsType::from(r).unwrap(), r);
    assert_eq!(JsType::Number(2.5f64.to_bits()).unwrap_number(), 2.5f64.to_bits());
}

#[test]
fn c_string_appends_nul() {
    assert_eq!(c_string("document"), b"document\0".to_vec());
    assert_eq!(c_string(""), vec![0u8]);
    assert_eq!(c_string("é"), vec![0xC3u8, 0xA9, 0]);
    assert_eq!(c_string("€x"), vec![0xE2u8, 0x82, 0xAC, b'x', 0]);
}

#[test]
fn c_string_round_trip() {
    for text in ["innerHTML", "", "héllo wörld", "日本", "🦀"] {
        let bytes = c_string(text);
        assert_eq!(*bytes.last().unwrap(), 0u8);
        let body = &bytes[..bytes.len() - 1];
        assert!(body.iter().all(|b| *b != 0));
        assert_eq!(std::str::from_utf8(body).unwrap(), text);
    }
}

#[test]
fn type_codes() {
    let kinds = [
        RetTypes::Null,
        RetTypes::Undefined,
        RetTypes::Boolean,
        RetTypes::Number,
        RetTypes::String,
        RetTypes::Ref,
    ];
    for (i, k) in kinds.iter().enumerate() {
        assert_eq!(k.code() as usize, i);
        assert_eq!(RetTypes::from_code(k.code()), Some(*k));
    }
}

#[test]
fn unknown_type_codes() {
    assert_eq!(RetTypes::from_code(6), None);
    assert_eq!(RetTypes::from_code(200), None);
    assert_eq!(RetTypes::from_code(255), None);
}

#[test]
fn single_value_codes_and_slots() {
    assert_eq!(type_code(&JsType::Null), 0);
    assert_eq!(type_code(&JsType::Ref(RefIndex { bits: 1 })), 5);
    assert_eq!(slot(&JsType::Boolean(true)), 1.0f64.to_bits());
    assert_eq!(slot(&JsType::Boolean(false)), 0.0f64.to_bits());
    assert_eq!(slot(&JsType::Number((-3.75f64).to_bits())), (-3.75f64).to_bits());
    assert_eq!(slot(&JsType::Ref(RefIndex { bits: 9.0f64.to_bits() })), 9.0f64.to_bits());
    assert_eq!(slot(&JsType::String("x".to_string())), 0);
}

#[test]
fn encode_mixed_arguments() {
    let args = vec![
        JsType::Null,
        JsType::Undefined,
        JsType::Boolean(true),
        JsType::Boolean(false),
        JsType::Number(2.5f64.to_bits()),
        JsType::String("hi".to_string()),
        JsType::Ref(RefIndex { bits: 7.0f64.to_bits() }),
    ];
    let e = encode_args(&args);
    assert_eq!(e.types, vec![0u8, 1, 2, 2, 3, 4, 5]);
    assert_eq!(
        e.values,
        vec![0u64, 0, F64_ONE_BITS, 0, 2.5f64.to_bits(), 0, 7.0f64.to_bits()]
    );
    assert_eq!(F64_ONE_BITS, 1.0f64.to_bits());
    assert_eq!(
        e.texts,
        vec![None, None, None, None, None, Some(b"hi\0".to_vec()), None]
    );
}

#[test]
fn encode_no_arguments() {
    let e = encode_args(&[]);
    assert!(e.types.is_empty());
    assert!(e.values.is_empty());
    assert!(e.texts.is_empty());
}

#[test]
fn decode_each_kind() {
    assert_eq!(decode_return(RetTypes::Null, 123, String::new()), JsType::Null);
    assert_eq!(decode_return(RetTypes::Undefined, 0, String::new()), JsType::Undefined);
    assert_eq!(
        decode_return(RetTypes::Number, 4.25f64.to_bits(), String::new()),
        JsType::Number(4.25f64.to_bits())
    );
    assert_eq!(
        decode_return(RetTypes::String, 0, "text".to_string()),
        JsType::String("text".to_string())
    );
    assert_eq!(
        decode_return(RetTypes::Ref, 11.0f64.to_bits(), String::new()),
        JsType::Ref(RefIndex { bits: 11.0f64.to_bits() })
    );
}

#[test]
fn decode_boolean_follows_f64_comparison_with_zero() {
    let samples = [0.0f64, -0.0, 1.0, -1.0, 0.5, f64::NAN, f64::INFINITY, f64::MIN_POSITIVE];
    for x in samples {
        assert_eq!(
            decode_return(RetTypes::Boolean, x.to_bits(), String::new()),
            JsType::Boolean(x != 0.0)
        );
    }
    assert_eq!(F64_NEG_ZERO_BITS, (-0.0f64).to_bits());
}

#[test]
fn argument_comes_back_as_result() {
    let args = vec![
        JsType::Null,
        JsType::Undefined,
        JsType::Boolean(true),
        JsType::Boolean(false),
        JsType::Number((-0.125f64).to_bits()),
        JsType::String("back".to_string()),
        JsType::Ref(RefIndex { bits: 3.0f64.to_bits() }),
    ];
    let e = encode_args(&args);
    for i in 0..args.len() {
        let kind = RetTypes::from_code(e.types[i]).unwrap();
        let text = match &args[i] {
            JsType::String(s) => s.clone(),
            _ => String::new(),
        };
        assert_eq!(decode_return(kind, e.values[i], text), args[i]);
    }
}
