use puzzle_formats::numeric::i32_to_string;
use puzzle_formats::numeric::parse_i32;
use puzzle_formats::serialization::StrOrInt;

#[test]
fn writing_integers() {
    assert_eq!(i32_to_string(0), "0");
    assert_eq!(i32_to_string(7), "7");
    assert_eq!(i32_to_string(42), "42");
    assert_eq!(i32_to_string(-13), "-13");
    assert_eq!(i32_to_string(2147483647), "2147483647");
    assert_eq!(i32_to_string(-2147483648), "-2147483648");
}

#[test]
fn reading_integers() {
    assert_eq!(parse_i32("0"), Some(0));
    assert_eq!(parse_i32("0042"), Some(42));
    assert_eq!(parse_i32("+17"), Some(17));
    assert_eq!(parse_i32("-13"), Some(-13));
    assert_eq!(parse_i32("2147483647"), Some(2147483647));
    assert_eq!(parse_i32("-2147483648"), Some(-2147483648));
    assert_eq!(parse_i32("2147483648"), None);
    assert_eq!(parse_i32("-2147483649"), None);
    assert_eq!(parse_i32("99999999999999999999"), None);
    assert_eq!(parse_i32(""), None);
    assert_eq!(parse_i32("+"), None);
    assert_eq!(parse_i32("-"), None);
    assert_eq!(parse_i32("12a"), None);
    assert_eq!(parse_i32("a12"), None);
    assert_eq!(parse_i32(" 12"), None);
}

#[test]
fn reading_back_written_integers() {
    for n in [0, 1, -1, 10, 99, -100, 2147483647, -2147483648] {
        assert_eq!(parse_i32(i32_to_string(n).as_str()), Some(n));
    }
}

#[test]
fn str_or_int_views() {
    let s = StrOrInt::Str("310".to_string());
    assert_eq!(s.as_str(), "310");
    assert_eq!(s.as_i32(), Some(310));

    let n = StrOrInt::Int(-7);
    assert_eq!(n.as_str(), "-7");
    assert_eq!(n.as_i32(), Some(-7));

    let bad = StrOrInt::Str("3x1".to_string());
    assert_eq!(bad.as_i32(), None);
}
