use trade::text::{parse_bool, parse_u64, same_text, text_or};

#[test]
fn parse_u64_reads_plain_numbers() {
    assert_eq!(parse_u64("5000"), Some(5000));
    assert_eq!(parse_u64("0"), Some(0));
    assert_eq!(parse_u64("007"), Some(7));
    assert_eq!(parse_u64("+42"), Some(42));
    assert_eq!(parse_u64("18446744073709551615"), Some(u64::MAX));
}

#[test]
fn parse_u64_refuses_what_from_str_refuses() {
    assert_eq!(parse_u64(""), None);
    assert_eq!(parse_u64("+"), None);
    assert_eq!(parse_u64("-1"), None);
    assert_eq!(parse_u64("-0"), None);
    assert_eq!(parse_u64("++1"), None);
    assert_eq!(parse_u64(" 1"), None);
    assert_eq!(parse_u64("12a"), None);
    assert_eq!(parse_u64("1_000"), None);
    assert_eq!(parse_u64("٣"), None);
    assert_eq!(parse_u64("18446744073709551616"), None);
    assert_eq!(parse_u64("99999999999999999999999"), None);
}

#[test]
fn parse_u64_agrees_with_from_str() {
    let samples = [
        "", "0", "1", "+1", "-1", "+", "-", "10", "5000", "4294967296", "abc", "1.5", "1e3",
        "18446744073709551615", "18446744073709551616", "+18446744073709551615", "00000000000000000000000001",
        "184467440737095516150", " 5", "5 ", "+-5", "٥",
    ];
    for s in samples.iter() {
        assert_eq!(parse_u64(s), s.parse::<u64>().ok(), "input {:?}", s);
    }
}

#[test]
fn parse_bool_accepts_only_true_and_false() {
    assert_eq!(parse_bool("true"), Some(true));
    assert_eq!(parse_bool("false"), Some(false));
    for s in ["", "TRUE", "True", "1", "0", "yes", "tru", "truee", " true", "fals"].iter() {
        assert_eq!(parse_bool(s), None, "input {:?}", s);
        assert_eq!(parse_bool(s), s.parse::<bool>().ok());
    }
}

#[test]
fn same_text_compares_characters() {
    assert!(same_text("docker", "docker"));
    assert!(!same_text("docker", "Docker"));
    assert!(!same_text("docker", "docke"));
    assert!(same_text("", ""));
    assert!(same_text("é", "é"));
}

#[test]
fn text_or_falls_back_to_the_default() {
    assert_eq!(text_or(Some("abc"), "def"), "abc");
    assert_eq!(text_or(None, "def"), "def");
    assert_eq!(text_or(Some(""), "def"), "");
}
