use handy_settings::options::LogLevel;
use handy_settings::text::char_is_whitespace;
use handy_settings::text::hyphenate;
use handy_settings::text::join3;
use handy_settings::text::text_eq;
use handy_settings::text::text_is_blank;
use handy_settings::text::text_of;

#[test]
fn whitespace_agrees_with_the_standard_library_on_every_character() {
    let mut code: u32 = 0;
    while code <= 0x10FFFF {
        if let Some(c) = char::from_u32(code) {
            assert_eq!(char_is_whitespace(c), c.is_whitespace(), "U+{:04X}", code);
        }
        code += 1;
    }
}

#[test]
fn blank_texts() {
    assert!(text_is_blank(""));
    assert!(text_is_blank("   "));
    assert!(text_is_blank(" \t\r\n"));
    assert!(text_is_blank("\u{3000}\u{2003}\u{a0}"));
}

#[test]
fn texts_that_are_not_blank() {
    assert!(!text_is_blank("f1"));
    assert!(!text_is_blank("  a  "));
    assert!(!text_is_blank("\u{200b}"));
    assert!(!text_is_blank("ctrl+space"));
}

#[test]
fn blank_agrees_with_trim() {
    for s in ["", " ", "x", " x", "x ", "\t\n", "é", " \u{2028} ", "\u{feff}"] {
        assert_eq!(text_is_blank(s), s.trim().is_empty(), "{:?}", s);
    }
}

#[test]
fn equality_of_texts() {
    assert!(text_eq("", ""));
    assert!(text_eq("cancel", "cancel"));
    assert!(text_eq("héllo wörld", "héllo wörld"));
    assert!(!text_eq("cancel", "Cancel"));
    assert!(!text_eq("cancel", "cancel "));
    assert!(!text_eq("min2", "min5"));
    assert!(!text_eq("", "a"));
}

#[test]
fn hyphens_for_underscores() {
    assert_eq!(hyphenate("en_US"), "en-US");
    assert_eq!(hyphenate("zh_Hant_TW"), "zh-Hant-TW");
    assert_eq!(hyphenate("fr"), "fr");
    assert_eq!(hyphenate(""), "");
    assert_eq!(hyphenate("__"), "--");
    assert_eq!(hyphenate("pt_BR-é"), "pt-BR-é");
}

#[test]
fn hyphenate_agrees_with_replace() {
    for s in ["en_US", "a_b_c", "_", "no underscores", "ünï_cödé"] {
        assert_eq!(hyphenate(s), s.replace('_', "-"));
    }
}

#[test]
fn joined_texts() {
    assert_eq!(join3("a", "b", "c"), "abc");
    assert_eq!(join3("", "", ""), "");
    assert_eq!(join3("resources/", "pop", "_stop.wav"), "resources/pop_stop.wav");
}

#[test]
fn owned_copy_of_a_text() {
    assert_eq!(text_of("escape"), String::from("escape"));
    assert_eq!(text_of(""), String::new());
}

#[test]
fn names_of_levels_are_read_in_any_case() {
    assert_eq!(LogLevel::from_name_in_any_case("DEBUG"), Some(LogLevel::Debug));
    assert_eq!(LogLevel::from_name_in_any_case("Trace"), Some(LogLevel::Trace));
    assert_eq!(LogLevel::from_name_in_any_case("iNfO"), Some(LogLevel::Info));
    assert_eq!(LogLevel::from_name_in_any_case("WARN"), Some(LogLevel::Warn));
    assert_eq!(LogLevel::from_name_in_any_case("Error"), Some(LogLevel::Error));
    assert_eq!(LogLevel::from_name_in_any_case("debug"), Some(LogLevel::Debug));
    assert_eq!(LogLevel::from_name_in_any_case("VERBOSE"), None);
    assert_eq!(LogLevel::from_name_in_any_case(""), None);
}

#[test]
fn names_of_levels_as_written() {
    assert_eq!(LogLevel::from_name("debug"), Some(LogLevel::Debug));
    assert_eq!(LogLevel::from_name("DEBUG"), None);
    assert_eq!(LogLevel::from_name("verbose"), None);
}
