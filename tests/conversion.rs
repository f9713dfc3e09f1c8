use rb_polars::builder::{build, materialize, TypeConversionError};
use rb_polars::column::Column;
use rb_polars::dtype::DataTypeTag;
use rb_polars::series::{RbError, RbSeries};
use rb_polars::value::{HostValue, Scalar};

fn ints(c: &Column) -> Vec<Option<i32>> {
    c.values
        .iter()
        .map(|o| match o {
            Some(Scalar::Int32(v)) => Some(*v),
            None => None,
            _ => panic!("not an i32 slot"),
        })
        .collect()
}

fn mixed() -> Vec<HostValue> {
    vec![
        HostValue::Int(1),
        HostValue::Nil,
        HostValue::Str("oops".to_string()),
        HostValue::Int(4),
    ]
}

#[test]
fn lenient_int32_nulls_unconvertible() {
    let c = build("x".to_string(), &mixed(), DataTypeTag::Int32, false).unwrap();
    assert_eq!(ints(&c), vec![Some(1), None, None, Some(4)]);
    assert_eq!(c.name, "x");
    assert_eq!(c.dtype, DataTypeTag::Int32);
    assert_eq!(c.null_count(), 2);
    assert_eq!(c.chunks, vec![4]);
}

#[test]
fn strict_int32_fails_at_position_two() {
    let r = build("x".to_string(), &mixed(), DataTypeTag::Int32, true);
    assert_eq!(
        r.err(),
        Some(TypeConversionError { position: 2, expected: DataTypeTag::Int32 })
    );
}

#[test]
fn nil_is_null_in_both_modes() {
    let s = vec![HostValue::Nil, HostValue::Bool(true), HostValue::Nil];
    for strict in [true, false] {
        let c = build("b".to_string(), &s, DataTypeTag::Boolean, strict).unwrap();
        assert!(c.values[0].is_none());
        assert!(matches!(c.values[1], Some(Scalar::Boolean(true))));
        assert!(c.values[2].is_none());
    }
}

#[test]
fn all_nil_gives_all_null() {
    let s = vec![HostValue::Nil, HostValue::Nil, HostValue::Nil];
    let c = build("n".to_string(), &s, DataTypeTag::UInt8, true).unwrap();
    assert_eq!(c.len(), 3);
    assert_eq!(c.null_count(), 3);
}

#[test]
fn empty_input_gives_empty_column() {
    let c = build("e".to_string(), &vec![], DataTypeTag::Int64, true).unwrap();
    assert_eq!(c.len(), 0);
    assert_eq!(c.null_count(), 0);
}

#[test]
fn out_of_range_integer_fails_conversion() {
    let s = vec![HostValue::Int(255), HostValue::Int(256)];
    let r = build("u".to_string(), &s, DataTypeTag::UInt8, true);
    assert_eq!(r.err(), Some(TypeConversionError { position: 1, expected: DataTypeTag::UInt8 }));
    let c = build("u".to_string(), &s, DataTypeTag::UInt8, false).unwrap();
    assert!(matches!(c.values[0], Some(Scalar::UInt8(255))));
    assert!(c.values[1].is_none());
    let s = vec![HostValue::Int(-129), HostValue::Int(-128)];
    let c = build("i".to_string(), &s, DataTypeTag::Int8, false).unwrap();
    assert!(c.values[0].is_none());
    assert!(matches!(c.values[1], Some(Scalar::Int8(-128))));
}

#[test]
fn lenient_never_fails_for_non_string_types() {
    let s = vec![
        HostValue::Other,
        HostValue::Str("a".to_string()),
        HostValue::Bool(false),
        HostValue::Int(7),
        HostValue::Float(1.5f64.to_bits()),
    ];
    let c = build("f".to_string(), &s, DataTypeTag::Float64, false).unwrap();
    let got: Vec<bool> = c.values.iter().map(|o| o.is_some()).collect();
    assert_eq!(got, vec![false, false, false, false, true]);
    assert!(matches!(c.values[4], Some(Scalar::Float64(b)) if b == 1.5f64.to_bits()));
}

#[test]
fn string_failure_is_fatal_in_both_modes() {
    let s = vec![HostValue::Str("a".to_string()), HostValue::Int(3)];
    for strict in [true, false] {
        let r = RbSeries::new_str("s".to_string(), &s, strict);
        assert!(matches!(
            r,
            Err(RbError::Conversion(TypeConversionError { position: 1, expected: DataTypeTag::Utf8 }))
        ));
    }
    let ok = vec![HostValue::Str("a".to_string()), HostValue::Nil];
    let c = RbSeries::new_str("s".to_string(), &ok, false).unwrap();
    assert_eq!(c.to_a(), ok);
}

#[test]
fn round_trip_reproduces_input() {
    let cases: Vec<(DataTypeTag, Vec<HostValue>)> = vec![
        (DataTypeTag::Int32, vec![HostValue::Int(1), HostValue::Nil, HostValue::Int(-4)]),
        (DataTypeTag::UInt64, vec![HostValue::Int(u64::MAX as i128), HostValue::Nil]),
        (DataTypeTag::Boolean, vec![HostValue::Bool(true), HostValue::Bool(false), HostValue::Nil]),
        (DataTypeTag::Float32, vec![HostValue::Float((0.5f32 as f64).to_bits())]),
        (DataTypeTag::Utf8, vec![HostValue::Nil, HostValue::Str("héllo".to_string())]),
    ];
    for (t, s) in cases {
        let c = build("r".to_string(), &s, t, true).unwrap();
        assert_eq!(materialize(&c), s);
    }
}

#[test]
fn materialize_keeps_length_and_null_count() {
    let c = build("x".to_string(), &mixed(), DataTypeTag::Int32, false).unwrap();
    let out = materialize(&c);
    assert_eq!(out.len(), c.len());
    let nils = out.iter().filter(|v| **v == HostValue::Nil).count();
    assert_eq!(nils, c.null_count());
    assert_eq!(out, vec![HostValue::Int(1), HostValue::Nil, HostValue::Nil, HostValue::Int(4)]);
}

#[test]
fn materialize_empty_of_every_type() {
    let tags = [
        DataTypeTag::Boolean,
        DataTypeTag::Int8,
        DataTypeTag::Int16,
        DataTypeTag::Int32,
        DataTypeTag::Int64,
        DataTypeTag::UInt8,
        DataTypeTag::UInt16,
        DataTypeTag::UInt32,
        DataTypeTag::UInt64,
        DataTypeTag::Float32,
        DataTypeTag::Float64,
        DataTypeTag::Utf8,
    ];
    for t in tags {
        let c = build("e".to_string(), &vec![], t, false).unwrap();
        assert!(materialize(&c).is_empty());
    }
}

#[test]
fn typed_constructors_set_dtype() {
    let s = vec![HostValue::Int(3), HostValue::Nil];
    assert_eq!(RbSeries::new_opt_u8("a".to_string(), &s, true).unwrap().dtype(), "u8");
    assert_eq!(RbSeries::new_opt_u16("a".to_string(), &s, true).unwrap().dtype(), "u16");
    assert_eq!(RbSeries::new_opt_u32("a".to_string(), &s, true).unwrap().dtype(), "u32");
    assert_eq!(RbSeries::new_opt_u64("a".to_string(), &s, true).unwrap().dtype(), "u64");
    assert_eq!(RbSeries::new_opt_i8("a".to_string(), &s, true).unwrap().dtype(), "i8");
    assert_eq!(RbSeries::new_opt_i16("a".to_string(), &s, true).unwrap().dtype(), "i16");
    assert_eq!(RbSeries::new_opt_i32("a".to_string(), &s, true).unwrap().dtype(), "i32");
    assert_eq!(RbSeries::new_opt_i64("a".to_string(), &s, true).unwrap().dtype(), "i64");
    let f = vec![HostValue::Float(2.0f64.to_bits())];
    assert_eq!(RbSeries::new_opt_f32("a".to_string(), &f, true).unwrap().dtype(), "f32");
    assert_eq!(RbSeries::new_opt_f64("a".to_string(), &f, true).unwrap().dtype(), "f64");
    let b = vec![HostValue::Bool(true)];
    assert_eq!(RbSeries::new_opt_bool("a".to_string(), &b, true).unwrap().dtype(), "bool");
    assert!(RbSeries::new_opt_bool("a".to_string(), &s, true).is_err());
}
