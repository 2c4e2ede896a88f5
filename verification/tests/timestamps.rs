use ccconsensus::timestamp::{is_timestamp_text, FloatFault, Timestamp};

#[test]
fn grammar_accepts_what_a_float_parses() {
    let texts = vec![
        "0", "500.555", "5.", ".5", "+1", "-1", "1e5", "1E5", "1e+5", "1.5e-3", "inf", "+inf",
        "-infinity", "NaN", "nan", "INF", "Infinity", "007", "1000000000000000000000",
    ];
    for text in texts {
        assert!(text.parse::<f64>().is_ok(), "{}", text);
        assert!(is_timestamp_text(text.as_bytes()), "{}", text);
    }
}

#[test]
fn grammar_refuses_what_a_float_does_not_parse() {
    let texts = vec![
        "", ".", "+", "-", "e5", ".e1", "1e", "1e+", "1.2.3", " 1", "1 ", "1:2", "---", "in",
        "infinit", "nanx", "0x10", "1_000", "+-1", "1e5.5", "--1",
    ];
    for text in texts {
        assert!(text.parse::<f64>().is_err(), "{}", text);
        assert!(!is_timestamp_text(text.as_bytes()), "{}", text);
    }
}

#[test]
fn parse_keeps_the_text() {
    let timestamp = Timestamp::parse(b"500.555").unwrap();
    assert_eq!(timestamp.as_bytes(), b"500.555");
    assert_eq!(timestamp.clone().as_bytes(), b"500.555");
}

#[test]
fn parse_tells_empty_from_invalid() {
    assert_eq!(Timestamp::parse(b"").unwrap_err(), FloatFault::Empty);
    assert_eq!(Timestamp::parse(b"abc").unwrap_err(), FloatFault::Invalid);
}

#[test]
fn zero_is_written_as_one_digit() {
    assert_eq!(Timestamp::zero().as_bytes(), b"0");
}

#[test]
fn text_of_a_formatted_float_is_accepted() {
    let values: Vec<f64> = vec![0.0, 1.5, -2.25, 1e300, 1e-300, f64::MAX, f64::MIN_POSITIVE];
    for value in values {
        let text = format!("{}", value);
        let timestamp = Timestamp::parse(text.as_bytes()).unwrap();
        let back: f64 = std::str::from_utf8(timestamp.as_bytes()).unwrap().parse().unwrap();
        assert_eq!(back, value);
        assert!(!timestamp.as_bytes().contains(&b':'));
    }
}
