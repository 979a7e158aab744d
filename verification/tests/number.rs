use ffmpeg_cli::number::{decimal_string, parse_i16, parse_i32};

#[test]
fn decimal_notation_of_chosen_numbers() {
    assert_eq!("0", decimal_string(0));
    assert_eq!("7", decimal_string(7));
    assert_eq!("10", decimal_string(10));
    assert_eq!("1280", decimal_string(1280));
    assert_eq!("-1", decimal_string(-1));
    assert_eq!("-32768", decimal_string(-32768));
    assert_eq!("9223372036854775807", decimal_string(i64::MAX));
    assert_eq!("-9223372036854775808", decimal_string(i64::MIN));
}

#[test]
fn decimal_notation_agrees_with_the_standard_library() {
    let mut n: i64 = -70000;
    while n <= 70000 {
        assert_eq!(n.to_string(), decimal_string(n));
        n += 1;
    }
}

#[test]
fn numbers_are_read_with_an_optional_sign() {
    assert_eq!(Some(0), parse_i16("0"));
    assert_eq!(Some(0), parse_i16("-0"));
    assert_eq!(Some(0), parse_i16("+0"));
    assert_eq!(Some(24), parse_i16("24"));
    assert_eq!(Some(24), parse_i16("+24"));
    assert_eq!(Some(-24), parse_i16("-24"));
    assert_eq!(Some(7), parse_i16("0007"));
    assert_eq!(Some(0), parse_i16("000000000000000000000000000000"));
    assert_eq!(Some(32767), parse_i16("32767"));
    assert_eq!(Some(-32768), parse_i16("-32768"));
}

#[test]
fn what_is_no_number_is_not_read() {
    for text in [
        "", " ", "-", "+", "--1", "+-1", "1-", "1 ", " 1", "1.0", "1e3", "0x10", "12a", "a12",
        "１２", "٣", "32768", "-32769", "+32768", "99999999999999999999999999", "1_000",
        "-99999999999999999999999999a",
    ] {
        assert_eq!(None, parse_i16(text), "{:?}", text);
    }
}

#[test]
fn reading_agrees_with_the_standard_library() {
    for text in [
        "", "0", "-0", "+1", "-", "+", "12", "012", "32767", "32768", "-32768", "-32769", "65536",
        "2147483647", "2147483648", "-2147483648", "-2147483649", " 1", "1 ", "1,5", "٣",
    ] {
        assert_eq!(text.parse::<i16>().ok(), parse_i16(text), "{:?}", text);
        assert_eq!(text.parse::<i32>().ok(), parse_i32(text), "{:?}", text);
    }
}

#[test]
fn what_is_written_is_read_back() {
    let mut n: i32 = i16::MIN as i32;
    while n <= i16::MAX as i32 {
        assert_eq!(Some(n as i16), parse_i16(&decimal_string(n as i64)));
        n += 1;
    }
    for n in [i32::MIN, -1, 0, 1, 65536, i32::MAX] {
        assert_eq!(Some(n), parse_i32(&decimal_string(n as i64)));
    }
}
