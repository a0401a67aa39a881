use zone_update::ensure_quotes;
use zone_update::strip_quotes;

#[test]
fn test_strip_quotes() {
    assert_eq!("abc123".to_string(), strip_quotes("\"abc123\""));
    assert_eq!("abc123\"", strip_quotes("abc123\""));
    assert_eq!("\"abc123", strip_quotes("\"abc123"));
    assert_eq!("abc123", strip_quotes("abc123"));
}

#[test]
fn test_ensure_quotes_wraps() {
    assert_eq!("\"abc\"", ensure_quotes("abc"));
    assert_eq!("\"\"", ensure_quotes(""));
    assert_eq!("\"abc\"", ensure_quotes("\"abc\""));
}

#[test]
fn test_ensure_quotes_single_ended() {
    assert_eq!("\"abc\"", ensure_quotes("\"abc"));
    assert_eq!("\"abc\"", ensure_quotes("abc\""));
    assert_eq!("\"\"", ensure_quotes("\""));
}

#[test]
fn test_ensure_quotes_idempotent() {
    for s in ["", "a", "\"", "abc", "\"abc", "abc\"", "\"abc\"", "a\"b"] {
        let once = ensure_quotes(s);
        let twice = ensure_quotes(&once);
        assert_eq!(once, twice);
    }
}

#[test]
fn test_strip_ensure_round_trip() {
    for s in ["", "a", "abc", "a\"b", "a text reference"] {
        assert_eq!(s.to_string(), strip_quotes(&ensure_quotes(s)));
    }
}
