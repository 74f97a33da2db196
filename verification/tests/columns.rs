use arrow_assoc::ArrowAssoc;
use arrow_assoc::{DataType, Field, TimeUnit};

#[test]
fn u32_values_and_nulls() {
    let mut b = <u32 as ArrowAssoc>::builder(4);
    assert!(b.rows().is_empty());
    assert!(<u32 as ArrowAssoc>::append(&mut b, 7).is_ok());
    assert!(<Option<u32> as ArrowAssoc>::append(&mut b, None).is_ok());
    assert!(<Option<u32> as ArrowAssoc>::append(&mut b, Some(u32::MAX)).is_ok());
    assert_eq!(b.rows(), vec![Some(7), None, Some(u32::MAX)]);
}

#[test]
fn u64_values_and_nulls() {
    let mut b = <Option<u64> as ArrowAssoc>::builder(2);
    <u64 as ArrowAssoc>::append(&mut b, u64::MAX).unwrap();
    <Option<u64> as ArrowAssoc>::append(&mut b, None).unwrap();
    assert_eq!(b.rows(), vec![Some(u64::MAX), None]);
}

#[test]
fn i32_and_i64_values() {
    let mut b = <i32 as ArrowAssoc>::builder(0);
    <i32 as ArrowAssoc>::append(&mut b, -3).unwrap();
    <Option<i32> as ArrowAssoc>::append(&mut b, Some(i32::MIN)).unwrap();
    assert_eq!(b.rows(), vec![Some(-3), Some(i32::MIN)]);

    let mut c = <i64 as ArrowAssoc>::builder(8);
    <Option<i64> as ArrowAssoc>::append(&mut c, None).unwrap();
    <i64 as ArrowAssoc>::append(&mut c, i64::MAX).unwrap();
    assert_eq!(c.rows(), vec![None, Some(i64::MAX)]);
}

#[test]
fn bool_values_and_nulls() {
    let mut b = <bool as ArrowAssoc>::builder(3);
    <bool as ArrowAssoc>::append(&mut b, true).unwrap();
    <Option<bool> as ArrowAssoc>::append(&mut b, None).unwrap();
    <Option<bool> as ArrowAssoc>::append(&mut b, Some(false)).unwrap();
    assert_eq!(b.rows(), vec![Some(true), None, Some(false)]);
}

#[test]
fn primitive_fields() {
    let f = <u32 as ArrowAssoc>::field("a");
    assert_eq!(f.name, "a");
    assert_eq!(f.data_type, DataType::UInt32);
    assert!(!f.nullable);
    let f = <Option<u32> as ArrowAssoc>::field("a");
    assert_eq!(f.data_type, DataType::UInt32);
    assert!(f.nullable);
    assert_eq!(<u64 as ArrowAssoc>::field("b").data_type, DataType::UInt64);
    assert_eq!(<i32 as ArrowAssoc>::field("c").data_type, DataType::Int32);
    assert_eq!(<i64 as ArrowAssoc>::field("d").data_type, DataType::Int64);
    assert_eq!(<bool as ArrowAssoc>::field("e").data_type, DataType::Boolean);
    assert!(<Option<bool> as ArrowAssoc>::field("e").nullable);
}

#[test]
fn vec_values_become_one_row_each() {
    let mut b = <Vec<i32> as ArrowAssoc>::builder(2);
    <Vec<i32> as ArrowAssoc>::append(&mut b, vec![1, 2, 3]).unwrap();
    <Vec<i32> as ArrowAssoc>::append(&mut b, vec![]).unwrap();
    <Option<Vec<i32>> as ArrowAssoc>::append(&mut b, None).unwrap();
    <Option<Vec<i32>> as ArrowAssoc>::append(&mut b, Some(vec![4])).unwrap();
    assert_eq!(b.rows(), vec![Some(1), Some(2), Some(3), None, Some(4)]);

    let mut c = <Option<Vec<i64>> as ArrowAssoc>::builder(2);
    <Option<Vec<i64>> as ArrowAssoc>::append(&mut c, Some(vec![-1, 5])).unwrap();
    <Vec<i64> as ArrowAssoc>::append(&mut c, vec![9]).unwrap();
    assert_eq!(c.rows(), vec![Some(-1), Some(5), Some(9)]);
}

#[test]
fn vec_fields_are_large_lists() {
    let f = <Vec<i32> as ArrowAssoc>::field("xs");
    assert_eq!(f.name, "xs");
    assert!(!f.nullable);
    match f.data_type {
        DataType::LargeList(item) => {
            assert_eq!(*item, Field { name: String::new(), data_type: DataType::Int32, nullable: false });
        },
        other => panic!("unexpected type {:?}", other),
    }
    let f = <Option<Vec<i64>> as ArrowAssoc>::field("ys");
    assert!(f.nullable);
    match f.data_type {
        DataType::LargeList(item) => {
            assert_eq!(item.name, "");
            assert_eq!(item.data_type, DataType::Int64);
            assert!(!item.nullable);
        },
        other => panic!("unexpected type {:?}", other),
    }
}

#[test]
fn strings_and_strs() {
    let mut b = <&str as ArrowAssoc>::builder(2);
    <&str as ArrowAssoc>::append(&mut b, "héllo").unwrap();
    <Option<&str> as ArrowAssoc>::append(&mut b, None).unwrap();
    <String as ArrowAssoc>::append(&mut b, String::from("")).unwrap();
    <Option<String> as ArrowAssoc>::append(&mut b, Some(String::from("x"))).unwrap();
    <Option<String> as ArrowAssoc>::append(&mut b, None).unwrap();
    <Option<&str> as ArrowAssoc>::append(&mut b, Some("y")).unwrap();
    assert_eq!(
        b.rows(),
        vec![
            Some(String::from("héllo")),
            None,
            Some(String::new()),
            Some(String::from("x")),
            None,
            Some(String::from("y")),
        ]
    );
    let f = <String as ArrowAssoc>::field("s");
    assert_eq!(f, Field { name: String::from("s"), data_type: DataType::Utf8, nullable: false });
    assert!(<Option<&str> as ArrowAssoc>::field("s").nullable);
    assert_eq!(<&str as ArrowAssoc>::field("s"), <String as ArrowAssoc>::field("s"));
}

#[test]
fn binary_values() {
    let mut b = <Vec<u8> as ArrowAssoc>::builder(3);
    <Vec<u8> as ArrowAssoc>::append(&mut b, vec![0, 255]).unwrap();
    <Option<Vec<u8>> as ArrowAssoc>::append(&mut b, None).unwrap();
    <Option<Vec<u8>> as ArrowAssoc>::append(&mut b, Some(vec![])).unwrap();
    assert_eq!(b.rows(), vec![Some(vec![0, 255]), None, Some(vec![])]);
    let f = <Option<Vec<u8>> as ArrowAssoc>::field("bin");
    assert_eq!(f, Field { name: String::from("bin"), data_type: DataType::LargeBinary, nullable: true });
}

#[test]
fn option_some_matches_plain_value() {
    let mut a = <i64 as ArrowAssoc>::builder(1);
    let mut b = <Option<i64> as ArrowAssoc>::builder(1);
    <i64 as ArrowAssoc>::append(&mut a, 42).unwrap();
    <Option<i64> as ArrowAssoc>::append(&mut b, Some(42)).unwrap();
    assert_eq!(a.rows(), b.rows());
    let plain = <i64 as ArrowAssoc>::field("n");
    let opt = <Option<i64> as ArrowAssoc>::field("n");
    assert_eq!(plain.name, opt.name);
    assert_eq!(plain.data_type, opt.data_type);
    assert!(!plain.nullable && opt.nullable);
}

#[test]
fn temporal_fields() {
    assert_eq!(
        <arrow_assoc::DateTime as ArrowAssoc>::field("t").data_type,
        DataType::Timestamp(TimeUnit::Nanosecond, None)
    );
    assert_eq!(
        <arrow_assoc::DateTimeWrapperMicro as ArrowAssoc>::field("t").data_type,
        DataType::Timestamp(TimeUnit::Microsecond, Some(String::from("UTC")))
    );
    assert_eq!(
        <Option<arrow_assoc::NaiveDateTimeWrapperMicro> as ArrowAssoc>::field("t"),
        Field {
            name: String::from("t"),
            data_type: DataType::Timestamp(TimeUnit::Microsecond, None),
            nullable: true,
        }
    );
    assert_eq!(<arrow_assoc::NaiveDate as ArrowAssoc>::field("d").data_type, DataType::Date32);
    assert_eq!(
        <arrow_assoc::NaiveDateTime as ArrowAssoc>::field("d").data_type,
        DataType::Timestamp(TimeUnit::Nanosecond, None)
    );
    assert_eq!(
        <arrow_assoc::NaiveTime as ArrowAssoc>::field("d").data_type,
        DataType::Time64(TimeUnit::Nanosecond)
    );
    assert_eq!(
        <Option<arrow_assoc::NaiveTimeWrapperMicro> as ArrowAssoc>::field("d").data_type,
        DataType::Time64(TimeUnit::Microsecond)
    );
}

#[test]
fn builders_reserve_the_rows_asked_for() {
    assert!(<u32 as ArrowAssoc>::builder(100).capacity() >= 100);
    assert!(<Option<i64> as ArrowAssoc>::builder(1000).capacity() >= 1000);
    assert!(<arrow_assoc::NaiveDate as ArrowAssoc>::builder(77).capacity() >= 77);
    assert!(<arrow_assoc::DateTimeWrapperMicro as ArrowAssoc>::builder(33).capacity() >= 33);
    let mut b = <i32 as ArrowAssoc>::builder(5);
    for k in 0..20 {
        <i32 as ArrowAssoc>::append(&mut b, k).unwrap();
    }
    assert!(b.capacity() >= 20);
}

#[test]
fn string_data_is_counted_in_bytes() {
    assert_eq!(arrow_assoc::column::utf8_byte_len("héllo"), 6);
    assert_eq!(arrow_assoc::column::utf8_byte_len("€𝄞"), 7);
    let mut b = <String as ArrowAssoc>::builder(2);
    assert_eq!(b.data_bytes(), 0);
    assert!(b.fits(Some("héllo")));
    <&str as ArrowAssoc>::append(&mut b, "héllo").unwrap();
    <Option<&str> as ArrowAssoc>::append(&mut b, None).unwrap();
    assert_eq!(b.data_bytes(), 6);
    assert!(b.fits(None));
}

#[test]
fn binary_data_is_counted_in_bytes() {
    let mut b = <Vec<u8> as ArrowAssoc>::builder(2);
    <Vec<u8> as ArrowAssoc>::append(&mut b, vec![1, 2, 3]).unwrap();
    <Option<Vec<u8>> as ArrowAssoc>::append(&mut b, None).unwrap();
    assert_eq!(b.data_bytes(), 3);
    assert!(b.fits(Some(&[4u8, 5][..])));
    assert!(b.fits(None));
}
