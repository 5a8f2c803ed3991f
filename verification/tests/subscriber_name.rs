use unicode_segmentation::UnicodeSegmentation;
use zero2prod::domain::subscriber_name::{
    check_name, contains_forbidden_char, is_blank_str, is_forbidden_char, is_whitespace,
    MAX_NAME_GRAPHEMES,
};
use zero2prod::domain::SubscriberName;

#[test]
fn a_grapheme_256_is_valid() {
    let name = "ё".repeat(256).to_string();
    assert!(SubscriberName::parse(name).is_ok());
}

#[test]
fn a_grapheme_257_is_invalid() {
    let name = "ё".repeat(257).to_string();
    assert!(SubscriberName::parse(name).is_err());
}

#[test]
fn parse_with_whitespace_only_is_invalid() {
    let name = "   ".to_string();
    assert!(SubscriberName::parse(name).is_err());
}

#[test]
fn parse_with_empty_name_is_invalid() {
    let name = "".to_string();
    assert!(SubscriberName::parse(name.to_string()).is_err());
}

#[test]
fn parse_with_forbidden_chars_is_invalid() {
    for name in &['/', '(', ')', '"', '<', '>', '\\', '{', '}'] {
        let name = name.to_string();
        assert!(SubscriberName::parse(name).is_err());
    }
}

#[test]
fn parse_with_cool_name_is_valid() {
    let name = "Usrula K Le Guin".to_string();
    assert!(SubscriberName::parse(name).is_ok());
}

#[test]
fn parsed_name_is_returned_unchanged() {
    let name = "  Ursula K. Le Guin \n".to_string();
    let parsed = SubscriberName::parse(name.clone()).unwrap();
    assert_eq!(parsed.as_ref(), name);
}

#[test]
fn rejected_name_gets_the_fixed_message() {
    assert_eq!(SubscriberName::parse("a/b".to_string()).unwrap_err(), "Name is not valid");
    assert_eq!(SubscriberName::parse(" \t".to_string()).unwrap_err(), "Name is not valid");
    assert_eq!(SubscriberName::parse("a".repeat(257)).unwrap_err(), "Name is not valid");
}

#[test]
fn length_is_counted_in_grapheme_clusters_not_in_characters() {
    // 256 clusters of two code points each: 512 characters, 768 bytes.
    let name = "e\u{301}".repeat(256);
    assert_eq!(name.chars().count(), 512);
    assert_eq!(name.graphemes(true).count(), 256);
    assert!(SubscriberName::parse(name).is_ok());
    let name = "e\u{301}".repeat(257);
    assert!(SubscriberName::parse(name).is_err());
    // One flag is two code points and one cluster.
    let flags = "🇷🇺".repeat(256);
    assert!(SubscriberName::parse(flags).is_ok());
    let flags = "🇷🇺".repeat(257);
    assert!(SubscriberName::parse(flags).is_err());
}

#[test]
fn names_in_other_scripts_are_valid() {
    for name in ["अनीता देसाई", "村上 春樹", "Ольга Токарчук", "نجيب محفوظ", "José Saramago"] {
        assert!(SubscriberName::parse(name.to_string()).is_ok(), "{}", name);
    }
}

#[test]
fn a_reserved_character_anywhere_makes_a_name_invalid() {
    for c in ['/', '(', ')', '"', '<', '>', '\\', '{', '}'] {
        for name in [format!("{}Ursula", c), format!("Urs{}ula", c), format!("Ursula{}", c)] {
            assert!(contains_forbidden_char(&name), "{}", name);
            assert!(SubscriberName::parse(name.clone()).is_err(), "{}", name);
        }
    }
    for c in ['[', ']', '\'', '-', '.', ',', '|', '&', ' '] {
        assert!(!is_forbidden_char(c), "{}", c);
        assert!(!contains_forbidden_char(&format!("Urs{}ula", c)));
    }
}

#[test]
fn white_space_of_any_kind_makes_a_blank_name() {
    for name in ["\t", "\n\r", "\u{a0}", "\u{2003}\u{3000}", " \u{85}\u{1680}\u{2028}\u{2029}"] {
        assert!(is_blank_str(name), "{:?}", name);
        assert!(SubscriberName::parse(name.to_string()).is_err(), "{:?}", name);
    }
    for name in ["a", " a ", "\u{200b}", "\u{180e}", "_", "\u{feff}"] {
        assert!(!is_blank_str(name), "{:?}", name);
        assert!(SubscriberName::parse(name.to_string()).is_ok(), "{:?}", name);
    }
}

#[test]
fn white_space_is_what_the_standard_library_trims() {
    let mut c = '\0';
    loop {
        assert_eq!(is_whitespace(c), c.is_whitespace(), "{:?}", c);
        if c.is_whitespace() || c as u32 % 1021 == 0 {
            let text = format!("{}a{}", c, c);
            assert_eq!(text.trim() == "a", is_whitespace(c), "{:?}", c);
        }
        if c == char::MAX {
            break;
        }
        c = char::from_u32(if c as u32 == 0xd7ff { 0xe000 } else { c as u32 + 1 }).unwrap();
    }
}

#[test]
fn blank_agrees_with_trimming_to_nothing() {
    for text in ["", " ", " a", "a ", "\t\n", "\u{3000}x\u{3000}", "\u{2000}\u{200a}", "  /  "] {
        assert_eq!(is_blank_str(text), text.trim().is_empty(), "{:?}", text);
    }
}

#[test]
fn check_name_applies_each_condition_on_its_own() {
    assert_eq!(MAX_NAME_GRAPHEMES, 256);
    assert!(check_name("Ursula", 6));
    assert!(check_name("Ursula", 256));
    assert!(!check_name("Ursula", 257));
    assert!(!check_name("   ", 3));
    assert!(!check_name("", 0));
    assert!(!check_name("Urs{ula", 7));
    assert!(!check_name(" ( ", 300));
}

#[test]
fn a_name_of_256_characters_is_never_too_long() {
    assert!(SubscriberName::parse("a".repeat(256)).is_ok());
    assert!(SubscriberName::parse("\u{301}".repeat(256)).is_ok());
    assert!(SubscriberName::parse("\r\n".repeat(127) + "ab").is_ok());
    assert!(SubscriberName::parse("a".repeat(255) + "/").is_err());
    assert!(SubscriberName::parse(" ".repeat(256)).is_err());
}
