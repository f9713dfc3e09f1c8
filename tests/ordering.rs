use rb_polars::series::RbSeries;
use rb_polars::value::HostValue;

fn i32s(vals: &[Option<i128>]) -> RbSeries {
    let host: Vec<HostValue> =
        vals.iter().map(|v| v.map_or(HostValue::Nil, HostValue::Int)).collect();
    RbSeries::new_opt_i32("a".to_string(), &host, true).unwrap()
}

fn f64s(vals: &[Option<f64>]) -> RbSeries {
    let host: Vec<HostValue> =
        vals.iter().map(|v| v.map_or(HostValue::Nil, |f| HostValue::Float(f.to_bits()))).collect();
    RbSeries::new_opt_f64("f".to_string(), &host, true).unwrap()
}

fn strs(vals: &[Option<&str>]) -> RbSeries {
    let host: Vec<HostValue> = vals
        .iter()
        .map(|v| v.map_or(HostValue::Nil, |s| HostValue::Str(s.to_string())))
        .collect();
    RbSeries::new_str("s".to_string(), &host, true).unwrap()
}

fn host_ints(vals: &[Option<i128>]) -> Vec<HostValue> {
    vals.iter().map(|v| v.map_or(HostValue::Nil, HostValue::Int)).collect()
}

#[test]
fn arg_min_and_max_take_first_extreme() {
    let s = i32s(&[Some(3), None, Some(1), Some(5), Some(1), Some(5)]);
    assert_eq!(s.arg_min(), Some(2));
    assert_eq!(s.arg_max(), Some(3));
}

#[test]
fn arg_min_of_empty_or_all_null_is_none() {
    assert_eq!(i32s(&[]).arg_min(), None);
    assert_eq!(i32s(&[None, None]).arg_max(), None);
}

#[test]
fn arg_min_skips_nan_and_orders_strings() {
    let f = f64s(&[Some(f64::NAN), Some(2.0), Some(-1.0), None]);
    assert_eq!(f.arg_min(), Some(2));
    assert_eq!(f.arg_max(), Some(1));
    assert_eq!(f64s(&[Some(f64::NAN)]).arg_min(), None);
    let s = strs(&[Some("pear"), Some("apple"), Some("zoo"), Some("app")]);
    assert_eq!(s.arg_min(), Some(3));
    assert_eq!(s.arg_max(), Some(2));
}

#[test]
fn sort_ascending_puts_nulls_first() {
    let s = i32s(&[Some(3), None, Some(-1), Some(2), None]);
    let sorted = s.sort(false);
    assert_eq!(sorted.to_a(), host_ints(&[None, None, Some(-1), Some(2), Some(3)]));
    assert!(sorted.is_sorted_flag());
    assert_eq!(sorted.name(), "a");
}

#[test]
fn sort_descending() {
    let s = i32s(&[Some(3), None, Some(-1), Some(2)]);
    let sorted = s.sort(true);
    assert_eq!(sorted.to_a(), host_ints(&[None, Some(3), Some(2), Some(-1)]));
    assert!(sorted.is_sorted_reverse_flag());
}

#[test]
fn sort_floats_places_nan_as_largest() {
    let s = f64s(&[Some(1.0), Some(f64::NAN), None, Some(-3.5)]);
    let got: Vec<Option<f64>> = s
        .sort(false)
        .to_a()
        .into_iter()
        .map(|v| match v {
            HostValue::Float(b) => Some(f64::from_bits(b)),
            _ => None,
        })
        .collect();
    assert_eq!(got[0], None);
    assert_eq!(got[1], Some(-3.5));
    assert_eq!(got[2], Some(1.0));
    assert!(got[3].unwrap().is_nan());
}

#[test]
fn sort_strings() {
    let s = strs(&[Some("b"), Some("a"), Some("ab")]);
    let expect: Vec<HostValue> =
        ["a", "ab", "b"].iter().map(|x| HostValue::Str(x.to_string())).collect();
    assert_eq!(s.sort(false).to_a(), expect);
}

#[test]
fn cummax_forward_keeps_nulls() {
    let s = i32s(&[Some(1), None, Some(3), Some(2), Some(5)]);
    assert_eq!(s.cummax(false).to_a(), host_ints(&[Some(1), None, Some(3), Some(3), Some(5)]));
    assert_eq!(s.cummax(false).name(), "a");
}

#[test]
fn cummin_forward_and_reverse() {
    let s = i32s(&[Some(4), Some(2), None, Some(3), Some(1)]);
    assert_eq!(s.cummin(false).to_a(), host_ints(&[Some(4), Some(2), None, Some(2), Some(1)]));
    assert_eq!(s.cummin(true).to_a(), host_ints(&[Some(1), Some(1), None, Some(1), Some(1)]));
    assert_eq!(s.cummax(true).to_a(), host_ints(&[Some(4), Some(3), None, Some(3), Some(1)]));
}

#[test]
fn cummax_of_strings() {
    let s = strs(&[Some("b"), Some("a"), Some("c")]);
    let expect: Vec<HostValue> =
        ["b", "b", "c"].iter().map(|x| HostValue::Str(x.to_string())).collect();
    assert_eq!(s.cummax(false).to_a(), expect);
}
