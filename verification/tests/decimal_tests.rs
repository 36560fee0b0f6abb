use pq_sys::decimal::{i64_to_string, parse_int, u64_to_string};

#[test]
fn formats_decimal() {
    assert_eq!(u64_to_string(0), "0");
    assert_eq!(u64_to_string(1234), "1234");
    assert_eq!(u64_to_string(u64::MAX), "18446744073709551615");
    assert_eq!(i64_to_string(-5), "-5");
    assert_eq!(i64_to_string(i64::MIN), "-9223372036854775808");
    assert_eq!(i64_to_string(i64::MAX), "9223372036854775807");
}

#[test]
fn parses_like_from_str() {
    let i16r = (i16::MIN as i128, i16::MAX as i128);
    let u16r = (0i128, u16::MAX as i128);
    for text in ["123", "+7", "-7", "-", "+", "", "32767", "32768", "-32768", "-32769", "0001", "12a", " 1", "1 ", "--1", "+-1"] {
        let want = text.parse::<i16>().ok().map(|v| v as i128);
        assert_eq!(parse_int(text.as_bytes(), i16r.0, i16r.1), want, "i16 {:?}", text);
        let want = text.parse::<u16>().ok().map(|v| v as i128);
        assert_eq!(parse_int(text.as_bytes(), u16r.0, u16r.1), want, "u16 {:?}", text);
    }
    assert_eq!(parse_int(b"18446744073709551615", 0, u64::MAX as i128), Some(u64::MAX as i128));
    assert_eq!(parse_int(b"18446744073709551616", 0, u64::MAX as i128), None);
    assert_eq!(parse_int(b"-9223372036854775808", i64::MIN as i128, i64::MAX as i128), Some(i64::MIN as i128));
    assert_eq!(parse_int(b"000000000000000000000000000042", i64::MIN as i128, i64::MAX as i128), Some(42));
}

#[test]
fn reads_back_what_was_written() {
    for v in [0i64, 1, -1, 42, -32768, 32767, i64::MIN, i64::MAX] {
        let s = i64_to_string(v);
        assert_eq!(parse_int(s.as_bytes(), i64::MIN as i128, i64::MAX as i128), Some(v as i128));
    }
}
