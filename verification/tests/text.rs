use lifxi::http::text::{chars_of, cut, digit_of, find, push_decimal, read_u64, same, starts_with};

#[test]
fn text_cut_at_the_first_separator() {
    assert_eq!(cut("label:a:b", ':'), ("label", "a:b", true));
    assert_eq!(cut("label", ':'), ("label", "", false));
    assert_eq!(cut(":x", ':'), ("", "x", true));
    assert_eq!(cut("x:", ':'), ("x", "", true));
    assert_eq!(cut("", ':'), ("", "", false));
    assert_eq!(cut("Küche,Flur", ','), ("Küche", "Flur", true));
}

#[test]
fn text_find_counts_characters() {
    let v = chars_of("Küche,Flur,");
    assert_eq!(v.len(), 11);
    assert_eq!(find(&v, 0, ','), 5);
    assert_eq!(find(&v, 6, ','), 10);
    assert_eq!(find(&v, 11, ','), 11);
    assert_eq!(find(&v, 0, ';'), 11);
    assert!(starts_with(&v, "Kü"));
    assert!(starts_with(&v, ""));
    assert!(!starts_with(&v, "Ku"));
    assert!(!starts_with(&chars_of("hu"), "hue:"));
}

#[test]
fn text_same_compares_characters() {
    assert!(same("all", "all"));
    assert!(!same("all", "All"));
    assert!(!same("all", "all "));
    assert!(same("", ""));
}

#[test]
fn text_decimal_writing() {
    for (n, text) in [
        (0u64, "0"),
        (7, "7"),
        (10, "10"),
        (255, "255"),
        (9000, "9000"),
        (65535, "65535"),
        (u64::MAX, "18446744073709551615"),
    ] {
        let mut out = String::from("z=");
        push_decimal(&mut out, n);
        assert_eq!(out, format!("z={}", text));
    }
}

#[test]
fn text_decimal_reading() {
    assert_eq!(read_u64("0"), Some(0));
    assert_eq!(read_u64("+7"), Some(7));
    assert_eq!(read_u64("0042"), Some(42));
    assert_eq!(read_u64("18446744073709551615"), Some(u64::MAX));
    assert_eq!(read_u64("18446744073709551616"), None);
    assert_eq!(read_u64("99999999999999999999999"), None);
    assert_eq!(read_u64(""), None);
    assert_eq!(read_u64("+"), None);
    assert_eq!(read_u64("-1"), None);
    assert_eq!(read_u64("1 "), None);
    assert_eq!(read_u64("١٢"), None);
    for text in ["0", "+7", "0042", "", "+", "-1", "1 ", "12a", "99999999999999999999999"] {
        assert_eq!(read_u64(text), text.parse::<u64>().ok());
    }
    assert_eq!(digit_of('7'), Some(7));
    assert_eq!(digit_of('x'), None);
}
