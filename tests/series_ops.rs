use rb_polars::column::IsSorted;
use rb_polars::compare::CmpOp;
use rb_polars::dtype::DataTypeTag;
use rb_polars::eager::concat_series;
use rb_polars::series::{RbError, RbSeries};
use rb_polars::value::{HostValue, Scalar};

fn i32s(name: &str, vals: &[Option<i128>]) -> RbSeries {
    let host: Vec<HostValue> =
        vals.iter().map(|v| v.map_or(HostValue::Nil, HostValue::Int)).collect();
    RbSeries::new_opt_i32(name.to_string(), &host, true).unwrap()
}

fn bools(name: &str, vals: &[Option<bool>]) -> RbSeries {
    let host: Vec<HostValue> =
        vals.iter().map(|v| v.map_or(HostValue::Nil, HostValue::Bool)).collect();
    RbSeries::new_opt_bool(name.to_string(), &host, true).unwrap()
}

fn strs(name: &str, vals: &[Option<&str>]) -> RbSeries {
    let host: Vec<HostValue> = vals
        .iter()
        .map(|v| v.map_or(HostValue::Nil, |s| HostValue::Str(s.to_string())))
        .collect();
    RbSeries::new_str(name.to_string(), &host, true).unwrap()
}

fn u32s(vals: &[Option<i128>]) -> RbSeries {
    let host: Vec<HostValue> =
        vals.iter().map(|v| v.map_or(HostValue::Nil, HostValue::Int)).collect();
    RbSeries::new_opt_u32("idx".to_string(), &host, true).unwrap()
}

fn host_ints(vals: &[Option<i128>]) -> Vec<HostValue> {
    vals.iter().map(|v| v.map_or(HostValue::Nil, HostValue::Int)).collect()
}

fn host_bools(vals: &[Option<bool>]) -> Vec<HostValue> {
    vals.iter().map(|v| v.map_or(HostValue::Nil, HostValue::Bool)).collect()
}

#[test]
fn getters_report_name_len_nulls() {
    let s = i32s("a", &[Some(1), None, Some(3)]);
    assert_eq!(s.name(), "a");
    assert_eq!(s.len(), 3);
    assert_eq!(s.null_count(), Ok(1));
    assert!(s.has_validity());
    assert!(!i32s("b", &[Some(1)]).has_validity());
    assert_eq!(s.dtype(), "i32");
    assert_eq!(s.inner_dtype(), None);
    assert_eq!(s.n_chunks(), 1);
    assert_eq!(s.chunk_lengths(), vec![3]);
    assert_eq!(s.get_idx(0), HostValue::Int(1));
    assert_eq!(s.get_idx(1), HostValue::Nil);
}

#[test]
fn rename_changes_only_the_name() {
    let mut s = i32s("a", &[Some(1), Some(2)]);
    s.rename("b".to_string());
    assert_eq!(s.name(), "b");
    assert_eq!(s.to_a(), host_ints(&[Some(1), Some(2)]));
}

#[test]
fn sorted_flags() {
    let s = i32s("a", &[Some(1), Some(2)]);
    assert!(!s.is_sorted_flag());
    let asc = s.set_sorted(false);
    assert!(asc.is_sorted_flag());
    assert!(!asc.is_sorted_reverse_flag());
    let desc = s.set_sorted(true);
    assert!(desc.is_sorted_reverse_flag());
    assert_eq!(desc.series.sorted, IsSorted::Descending);
    assert_eq!(desc.to_a(), s.to_a());
}

#[test]
fn append_adds_chunks_and_rechunk_merges_them() {
    let mut s = i32s("a", &[Some(1), Some(2)]);
    let t = i32s("b", &[None, Some(4), Some(5)]);
    s.append(&t).unwrap();
    assert_eq!(s.chunk_lengths(), vec![2, 3]);
    assert_eq!(s.to_a(), host_ints(&[Some(1), Some(2), None, Some(4), Some(5)]));
    let copy = s.rechunk(false).unwrap();
    assert_eq!(copy.chunk_lengths(), vec![5]);
    assert_eq!(s.n_chunks(), 2);
    assert!(s.rechunk(true).is_none());
    assert_eq!(s.chunk_lengths(), vec![5]);
    assert_eq!(s.to_a(), copy.to_a());
}

#[test]
fn extend_keeps_one_chunk_and_refuses_other_types() {
    let mut s = i32s("a", &[Some(1)]);
    s.extend(&i32s("b", &[Some(2), None])).unwrap();
    assert_eq!(s.chunk_lengths(), vec![3]);
    assert_eq!(s.to_a(), host_ints(&[Some(1), Some(2), None]));
    assert_eq!(s.extend(&bools("c", &[Some(true)])), Err(RbError::SchemaMismatch));
    assert_eq!(s.append(&bools("c", &[Some(true)])), Err(RbError::SchemaMismatch));
    assert_eq!(s.len(), 3);
}

#[test]
fn slice_handles_negative_and_overlong_ranges() {
    let s = i32s("a", &[Some(0), Some(1), Some(2), Some(3), Some(4)]);
    assert_eq!(s.slice(1, 2).to_a(), host_ints(&[Some(1), Some(2)]));
    assert_eq!(s.slice(-2, 10).to_a(), host_ints(&[Some(3), Some(4)]));
    assert_eq!(s.slice(-7, 3).to_a(), host_ints(&[Some(0)]));
    assert_eq!(s.slice(9, 3).len(), 0);
    assert_eq!(s.slice(1, 2).name(), "a");
}

#[test]
fn new_from_index_repeats_and_checks_bounds() {
    let s = i32s("a", &[Some(7), None]);
    assert_eq!(s.new_from_index(0, 3).unwrap().to_a(), host_ints(&[Some(7), Some(7), Some(7)]));
    assert_eq!(s.new_from_index(1, 2).unwrap().to_a(), host_ints(&[None, None]));
    assert_eq!(s.new_from_index(2, 1).err(), Some(RbError::OutOfBounds));
}

#[test]
fn filter_keeps_true_slots() {
    let s = i32s("a", &[Some(1), Some(2), Some(3), Some(4)]);
    let m = bools("m", &[Some(true), Some(false), None, Some(true)]);
    assert_eq!(s.filter(&m).unwrap().to_a(), host_ints(&[Some(1), Some(4)]));
    assert_eq!(s.filter(&s).err(), Some(RbError::InvalidOperation));
}

#[test]
fn take_gathers_and_checks_indices() {
    let s = strs("a", &[Some("x"), Some("y"), None]);
    let got = s.take_with_series(&u32s(&[Some(1), None, Some(0), Some(2)])).unwrap();
    assert_eq!(
        got.to_a(),
        vec![
            HostValue::Str("y".to_string()),
            HostValue::Nil,
            HostValue::Str("x".to_string()),
            HostValue::Nil
        ]
    );
    assert_eq!(s.take_with_series(&u32s(&[Some(3)])).err(), Some(RbError::OutOfBounds));
    let wrong = i32s("i", &[Some(0)]);
    assert_eq!(s.take_with_series(&wrong).err(), Some(RbError::SchemaMismatch));
}

#[test]
fn not_negates_booleans() {
    let b = bools("b", &[Some(true), None, Some(false)]);
    assert_eq!(b.not().unwrap().to_a(), host_bools(&[Some(false), None, Some(true)]));
    assert_eq!(i32s("a", &[Some(1)]).not().err(), Some(RbError::SchemaMismatch));
}

#[test]
fn comparisons_propagate_nulls() {
    let a = i32s("a", &[Some(1), Some(2), None, Some(5)]);
    let b = i32s("b", &[Some(2), Some(2), Some(1), Some(4)]);
    assert_eq!(a.eq(&b).unwrap().to_a(), host_bools(&[Some(false), Some(true), None, Some(false)]));
    assert_eq!(a.neq(&b).unwrap().to_a(), host_bools(&[Some(true), Some(false), None, Some(true)]));
    assert_eq!(a.gt(&b).unwrap().to_a(), host_bools(&[Some(false), Some(false), None, Some(true)]));
    assert_eq!(a.gt_eq(&b).unwrap().to_a(), host_bools(&[Some(false), Some(true), None, Some(true)]));
    assert_eq!(a.lt(&b).unwrap().to_a(), host_bools(&[Some(true), Some(false), None, Some(false)]));
    assert_eq!(a.lt_eq(&b).unwrap().to_a(), host_bools(&[Some(true), Some(true), None, Some(false)]));
    let r = a.eq(&b).unwrap();
    assert_eq!(r.name(), "a");
    assert_eq!(r.dtype(), "bool");
}

#[test]
fn comparison_errors() {
    let a = i32s("a", &[Some(1)]);
    assert_eq!(a.eq(&bools("b", &[Some(true)])).err(), Some(RbError::SchemaMismatch));
    assert_eq!(a.eq(&i32s("b", &[Some(1), Some(2)])).err(), Some(RbError::LengthMismatch));
    let s = strs("s", &[Some("a"), Some("b")]);
    let t = strs("t", &[Some("a"), Some("c")]);
    assert_eq!(s.eq(&t).unwrap().to_a(), host_bools(&[Some(true), Some(false)]));
    assert_eq!(s.gt(&t).unwrap().to_a(), host_bools(&[Some(false), Some(false)]));
    assert_eq!(s.lt(&t).unwrap().to_a(), host_bools(&[Some(false), Some(true)]));
}

#[test]
fn strings_order_by_characters() {
    let s = strs("s", &[Some("ab"), Some("b"), Some(""), Some("abc"), Some("é")]);
    let t = strs("t", &[Some("abc"), Some("abc"), Some("a"), Some("ab"), Some("z")]);
    assert_eq!(
        s.lt(&t).unwrap().to_a(),
        host_bools(&[Some(true), Some(false), Some(true), Some(false), Some(false)])
    );
    assert_eq!(
        s.gt_eq(&t).unwrap().to_a(),
        host_bools(&[Some(false), Some(true), Some(false), Some(true), Some(true)])
    );
}

fn f64s(name: &str, vals: &[f64]) -> RbSeries {
    let host: Vec<HostValue> = vals.iter().map(|v| HostValue::Float(v.to_bits())).collect();
    RbSeries::new_opt_f64(name.to_string(), &host, true).unwrap()
}

#[test]
fn floats_compare_as_ieee_numbers() {
    let a = f64s("a", &[1.5, -0.0, f64::NAN, -2.0, f64::INFINITY]);
    let b = f64s("b", &[2.5, 0.0, f64::NAN, -3.0, 1.0e300]);
    assert_eq!(
        a.compare(&b, CmpOp::Eq).unwrap().to_a(),
        host_bools(&[Some(false), Some(true), Some(false), Some(false), Some(false)])
    );
    assert_eq!(
        a.neq(&b).unwrap().to_a(),
        host_bools(&[Some(true), Some(false), Some(true), Some(true), Some(true)])
    );
    assert_eq!(
        a.lt(&b).unwrap().to_a(),
        host_bools(&[Some(true), Some(false), Some(false), Some(false), Some(false)])
    );
    assert_eq!(
        a.gt_eq(&b).unwrap().to_a(),
        host_bools(&[Some(false), Some(true), Some(false), Some(true), Some(true)])
    );
    assert_eq!(
        a.lt_eq(&b).unwrap().to_a(),
        host_bools(&[Some(true), Some(true), Some(false), Some(false), Some(false)])
    );
}

#[test]
fn bitwise_on_booleans_and_integers() {
    let a = bools("a", &[Some(true), Some(true), Some(false), None]);
    let b = bools("b", &[Some(true), Some(false), Some(false), Some(true)]);
    assert_eq!(a.bitand(&b).unwrap().to_a(), host_bools(&[Some(true), Some(false), Some(false), None]));
    assert_eq!(a.bitor(&b).unwrap().to_a(), host_bools(&[Some(true), Some(true), Some(false), None]));
    assert_eq!(a.bitxor(&b).unwrap().to_a(), host_bools(&[Some(false), Some(true), Some(false), None]));
    let x = i32s("x", &[Some(12), Some(-1)]);
    let y = i32s("y", &[Some(10), Some(5)]);
    assert_eq!(x.bitand(&y).unwrap().to_a(), host_ints(&[Some(8), Some(5)]));
    assert_eq!(x.bitor(&y).unwrap().to_a(), host_ints(&[Some(14), Some(-1)]));
    assert_eq!(x.bitxor(&y).unwrap().to_a(), host_ints(&[Some(6), Some(-6)]));
    let s = strs("s", &[Some("a")]);
    assert_eq!(s.bitand(&s).err(), Some(RbError::InvalidOperation));
    assert_eq!(x.bitand(&a).err(), Some(RbError::SchemaMismatch));
}

#[test]
fn series_equal_modes() {
    let a = i32s("a", &[Some(1), None]);
    let b = i32s("b", &[Some(1), None]);
    let host: Vec<HostValue> = host_ints(&[Some(1), None]);
    let c = RbSeries::new_opt_i64("c".to_string(), &host, true).unwrap();
    assert!(a.series_equal(&b, true, true));
    assert!(a.series_equal(&b, true, false));
    assert!(!a.series_equal(&b, false, false));
    assert!(!a.series_equal(&c, true, true));
    assert!(a.series_equal(&c, true, false));
    let d = i32s("d", &[Some(1), Some(2)]);
    assert!(!a.series_equal(&d, true, false));
    assert!(d.series_equal(&d.clone(), false, false));
}

#[test]
fn concat_series_joins_in_order() {
    let parts = vec![i32s("a", &[Some(1)]), i32s("b", &[None, Some(3)]), i32s("c", &[])];
    let s = concat_series(&parts).unwrap();
    assert_eq!(s.name(), "a");
    assert_eq!(s.to_a(), host_ints(&[Some(1), None, Some(3)]));
    assert_eq!(s.chunk_lengths(), vec![1, 2, 0]);
    let bad = vec![i32s("a", &[Some(1)]), bools("b", &[Some(true)])];
    assert_eq!(concat_series(&bad).err(), Some(RbError::SchemaMismatch));
}
