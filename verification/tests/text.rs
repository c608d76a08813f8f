use tempest::text::{chars_of, last_segment_trimmed, parse_u64, string_from_chars, u64_to_decimal};

#[test]
fn parses_like_std() {
    for s in ["0", "15", "+7", "1440", "18446744073709551615", "007"] {
        assert_eq!(parse_u64(s), s.parse::<u64>().ok());
    }
    for s in ["", "+", "-1", " 5", "5 ", "1.5", "abc", "18446744073709551616"] {
        assert_eq!(parse_u64(s), None);
    }
}

#[test]
fn renders_decimal() {
    assert_eq!(u64_to_decimal(0), "0");
    assert_eq!(u64_to_decimal(1440), "1440");
    assert_eq!(u64_to_decimal(u64::MAX), u64::MAX.to_string());
}

#[test]
fn last_segment_is_trimmed() {
    assert_eq!(last_segment_trimmed("Paris, Île-de-France,  France "), "France");
    assert_eq!(last_segment_trimmed("Tokyo"), "Tokyo");
    assert_eq!(last_segment_trimmed("Somewhere,"), "");
}

#[test]
fn chars_round_trip() {
    let cs = chars_of("héllo");
    assert_eq!(cs, vec!['h', 'é', 'l', 'l', 'o']);
    assert_eq!(string_from_chars(&cs), "héllo");
}
