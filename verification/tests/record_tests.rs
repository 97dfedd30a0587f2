use tabled::builder::Builder;
use tabled::record::{CellText, Tabled};
use tabled::text::{dec_i128, dec_u128};

fn texts(cells: &[&str]) -> Vec<String> {
    cells.iter().map(|s| s.to_string()).collect()
}

#[test]
fn tuple_of_three_converts() {
    let value = ("World".to_string(), 21u8, true);
    assert_eq!(
        <(String, u8, bool)>::headers(),
        texts(&["String", "u8", "bool"])
    );
    assert_eq!(value.fields(), texts(&["World", "21", "true"]));
}

#[test]
fn scalar_records_have_one_column() {
    assert_eq!(u8::headers(), texts(&["u8"]));
    assert_eq!(3u8.fields(), texts(&["3"]));
    assert_eq!(bool::headers(), texts(&["bool"]));
    assert_eq!(false.fields(), texts(&["false"]));
    assert_eq!(char::headers(), texts(&["char"]));
    assert_eq!('x'.fields(), texts(&["x"]));
    assert_eq!(String::headers(), texts(&["String"]));
    assert_eq!("".to_string().fields(), texts(&[""]));
    assert_eq!(<&str>::headers(), texts(&["&str"]));
    assert_eq!("hi".fields(), texts(&["hi"]));
}

#[test]
fn reference_forwards_to_value() {
    let v = 250u16;
    assert_eq!(<&u16 as Tabled>::headers(), texts(&["u16"]));
    assert_eq!(<&u16 as Tabled>::fields(&(&v)), texts(&["250"]));
}

#[test]
fn array_record_uses_indices_as_headers() {
    let a = [10u32, 0u32, 7u32];
    assert_eq!(<[u32; 3]>::headers(), texts(&["0", "1", "2"]));
    assert_eq!(a.fields(), texts(&["10", "0", "7"]));
}

#[test]
fn decimal_text_of_unsigned() {
    assert_eq!(dec_u128(0), "0");
    assert_eq!(dec_u128(9), "9");
    assert_eq!(dec_u128(10), "10");
    assert_eq!(dec_u128(12345), "12345");
    assert_eq!(255u8.text(), "255");
    assert_eq!(
        u128::MAX.text(),
        "340282366920938463463374607431768211455"
    );
}

#[test]
fn decimal_text_of_signed() {
    assert_eq!(dec_i128(0), "0");
    assert_eq!(dec_i128(-1), "-1");
    assert_eq!(dec_i128(42), "42");
    assert_eq!((-128i8).text(), "-128");
    assert_eq!(i128::MIN.text(), "-170141183460469231731687303715884105728");
    assert_eq!((-9000isize).text(), "-9000");
    assert_eq!(77usize.text(), "77");
}

#[test]
fn tuple_of_six_concatenates_in_order() {
    let value = (1u8, 2u16, 3u32, 4u64, 5i8, "six");
    assert_eq!(
        <(u8, u16, u32, u64, i8, &str)>::headers(),
        texts(&["u8", "u16", "u32", "u64", "i8", "&str"])
    );
    assert_eq!(value.fields(), texts(&["1", "2", "3", "4", "5", "six"]));
}

#[test]
fn nested_tuple_record() {
    let value = ((1u8, 2u8), true);
    assert_eq!(
        <((u8, u8), bool)>::headers(),
        texts(&["u8", "u8", "bool"])
    );
    assert_eq!(value.fields(), texts(&["1", "2", "true"]));
}

#[test]
fn typed_records_feed_the_builder() {
    let data = [("Hello", 1u8, false), ("World", 21u8, true)];
    let mut b = Builder::new();
    b.set_header(<(&str, u8, bool)>::headers());
    for v in &data {
        b.push_record(v.fields());
    }
    let g = b.build();
    assert_eq!(
        g,
        vec![
            texts(&["&str", "u8", "bool"]),
            texts(&["Hello", "1", "false"]),
            texts(&["World", "21", "true"]),
        ]
    );
}
