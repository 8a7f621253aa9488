use trader_exec::text::{chars_of, find_char, is_whitespace, same_text, trim, trim_end_matches};

#[test]
fn white_space_is_what_std_calls_white_space() {
    for code in 0..=0x10ffffu32 {
        if let Some(c) = char::from_u32(code) {
            assert_eq!(is_whitespace(c), c.is_whitespace(), "U+{:04X}", code);
        }
    }
}

#[test]
fn trim_drops_white_space_at_both_ends() {
    let samples = [
        "",
        " ",
        "rsi<30",
        "  rsi<30",
        "rsi<30  ",
        " \t rsi < 30 \r\n",
        "\u{a0}rsi\u{3000}",
        "\u{2003}\u{2028}a b\u{205f}",
        "   ",
        "a",
        " a",
        "a ",
        "é ",
    ];
    for s in samples {
        assert_eq!(trim(s), s.trim(), "{:?}", s);
    }
    assert_eq!(trim("  rsi  "), "rsi");
}

#[test]
fn trim_end_matches_drops_the_trailing_characters() {
    assert_eq!(trim_end_matches("http://ta-service:9100/", '/'), "http://ta-service:9100");
    assert_eq!(trim_end_matches("http://ta-service:9100///", '/'), "http://ta-service:9100");
    assert_eq!(trim_end_matches("http://ta-service:9100", '/'), "http://ta-service:9100");
    assert_eq!(trim_end_matches("///", '/'), "");
    assert_eq!(trim_end_matches("", '/'), "");
    assert_eq!(trim_end_matches("/a/b", '/'), "/a/b");
}

#[test]
fn chars_are_listed_in_order() {
    assert_eq!(chars_of("rsi<30"), vec!['r', 's', 'i', '<', '3', '0']);
    assert_eq!(chars_of(""), Vec::<char>::new());
    assert_eq!(chars_of("é越"), vec!['é', '越']);
}

#[test]
fn first_occurrence_is_found() {
    let chars = chars_of("a<b<c");
    assert_eq!(find_char(&chars, '<', 0), Some(1));
    assert_eq!(find_char(&chars, '<', 1), Some(1));
    assert_eq!(find_char(&chars, '<', 2), Some(3));
    assert_eq!(find_char(&chars, '<', 4), None);
    assert_eq!(find_char(&chars, '<', 5), None);
    assert_eq!(find_char(&chars, '>', 0), None);
}

#[test]
fn texts_are_compared_by_their_characters() {
    assert!(same_text("intent", "intent"));
    assert!(!same_text("intent", "Intent"));
    assert!(!same_text("intent", "intents"));
    assert!(same_text("", ""));
}
