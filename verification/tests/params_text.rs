use focloireacht_server::config::Config;
use focloireacht_server::error::ApiError;
use focloireacht_server::routes::params::{sanitize_limit, validate_key, validate_lang};
use focloireacht_server::text::{decode_amp, json_list, label_matches, trim};

fn config() -> Config {
    Config::from_vars(None, Some("/data/lex.sqlite".to_string()), None)
}

#[test]
fn urls_open_the_databases_read_only() {
    let c = config();
    assert_eq!(c.lex_db_url(), "sqlite:/data/lex.sqlite?mode=ro");
    assert_eq!(c.term_db_url(), "sqlite:./data/terminology.sqlite?mode=ro");
}

#[test]
fn unset_settings_take_their_defaults() {
    let c = config();
    assert_eq!(c.bind_addr, "127.0.0.1:5005");
    assert_eq!(c.lex_db_path, "/data/lex.sqlite");
    assert_eq!(c.term_db_path, "./data/terminology.sqlite");
    let d = Config::from_vars(Some("0.0.0.0:5005".to_string()), None, Some("t.db".to_string()));
    assert_eq!(d.bind_addr, "0.0.0.0:5005");
    assert_eq!(d.lex_db_path, "./data/lexicon.sqlite");
    assert_eq!(d.term_db_path, "t.db");
}

#[test]
fn keys_must_be_non_empty_and_at_most_128_bytes() {
    assert_eq!(validate_key(""), Err(ApiError::InvalidKey));
    assert_eq!(validate_key("madra"), Ok(()));
    assert_eq!(validate_key(&"a".repeat(128)), Ok(()));
    assert_eq!(validate_key(&"a".repeat(129)), Err(ApiError::InvalidKey));
    // 'á' takes two bytes in UTF-8
    assert_eq!(validate_key(&"á".repeat(64)), Ok(()));
    assert_eq!(validate_key(&"á".repeat(65)), Err(ApiError::InvalidKey));
}

#[test]
fn limits_default_to_5_and_range_from_1_to_50() {
    assert_eq!(sanitize_limit(None), Ok(5));
    assert_eq!(sanitize_limit(Some(1)), Ok(1));
    assert_eq!(sanitize_limit(Some(50)), Ok(50));
    assert_eq!(sanitize_limit(Some(0)), Err(ApiError::InvalidLimit));
    assert_eq!(sanitize_limit(Some(-3)), Err(ApiError::InvalidLimit));
    assert_eq!(sanitize_limit(Some(51)), Err(ApiError::InvalidLimit));
}

#[test]
fn only_irish_and_english_are_languages() {
    assert_eq!(validate_lang(&"ga".to_string()), Ok(()));
    assert_eq!(validate_lang(&"en".to_string()), Ok(()));
    assert_eq!(validate_lang(&"fr".to_string()), Err(ApiError::InvalidLang));
    assert_eq!(validate_lang(&"GA".to_string()), Err(ApiError::InvalidLang));
}

#[test]
fn errors_answer_400_or_500_with_their_text() {
    assert_eq!(ApiError::InvalidLimit.status(), 400);
    assert_eq!(ApiError::InvalidKey.status(), 400);
    assert_eq!(ApiError::InvalidLang.status(), 400);
    assert_eq!(ApiError::DbError.status(), 500);
    assert_eq!(ApiError::InvalidLimit.message(), "invalid limit");
    assert_eq!(ApiError::InvalidKey.message(), "invalid key");
    assert_eq!(ApiError::InvalidLang.message(), "invalid lang");
    assert_eq!(ApiError::DbError.message(), "db error");
}

#[test]
fn amp_entities_read_as_ampersands() {
    assert_eq!(decode_amp("Law &amp; Order"), "Law & Order");
    assert_eq!(decode_amp("Law & Order"), "Law & Order");
    assert_eq!(decode_amp("&amp;amp;"), "&amp;");
    assert_eq!(decode_amp("&am"), "&am");
    assert_eq!(decode_amp(""), "");
    // writing every '&' as '&amp;' changes nothing
    assert_eq!(decode_amp("a&amp;b&amp;amp;c"), "a&b&amp;c");
}

#[test]
fn trim_removes_unicode_white_space_at_both_ends() {
    assert_eq!(trim("  dlí \t\n"), "dlí");
    assert_eq!(trim("\u{3000}x y\u{2003}"), "x y");
    assert_eq!(trim("   "), "");
    assert_eq!(trim("a"), "a");
}

#[test]
fn labels_match_exactly_or_loosely() {
    let s = |x: &str| x.to_string();
    assert!(label_matches(&s("Dlí"), &s("Dlí")));
    assert!(label_matches(&s("  DLÍ "), &s("dlí")));
    assert!(label_matches(&s("Law"), &s(" law\t")));
    assert!(!label_matches(&s("Law"), &s("laws")));
}

#[test]
fn id_lists_are_written_as_json_arrays() {
    let ids = vec!["e1".to_string(), "b\"c".to_string(), "á".to_string()];
    assert_eq!(json_list(&ids), "[\"e1\",\"b\\\"c\",\"á\"]");
    assert_eq!(json_list(&Vec::new()), "[]");
}
