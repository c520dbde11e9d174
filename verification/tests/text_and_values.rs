use pump_trader::text::{parse_u64, str_contains_lit, str_eq_lit, trim};
use pump_trader::vars::{env_bool, env_string, env_truthy, env_u64, first_nonempty_account, ValueError};

#[test]
fn trim_removes_unicode_whitespace() {
    assert_eq!(trim("  abc \t\n"), "abc");
    assert_eq!(trim("\u{3000}x y\u{00a0}"), "x y");
    assert_eq!(trim("   "), "");
    assert_eq!(trim(""), "");
    assert_eq!(trim("a"), "a");
}

#[test]
fn parse_u64_follows_std() {
    assert_eq!(parse_u64("42"), Some(42));
    assert_eq!(parse_u64("+7"), Some(7));
    assert_eq!(parse_u64("007"), Some(7));
    assert_eq!(parse_u64("-7"), None);
    assert_eq!(parse_u64("+"), None);
    assert_eq!(parse_u64(""), None);
    assert_eq!(parse_u64("1_000"), None);
    assert_eq!(parse_u64(" 1"), None);
    assert_eq!(parse_u64("18446744073709551615"), Some(u64::MAX));
    assert_eq!(parse_u64("18446744073709551616"), None);
    assert_eq!(parse_u64("99999999999999999999x"), None);
    for s in ["0", "1", "123456789", "+18446744073709551615", "-0", "1e3"] {
        assert_eq!(parse_u64(s), s.parse::<u64>().ok(), "{}", s);
    }
}

#[test]
fn literal_and_substring_checks() {
    assert!(str_eq_lit("prod", "prod"));
    assert!(!str_eq_lit("Prod", "prod"));
    assert!(str_contains_lit("https://api.mainnet-beta.solana.com", "api.mainnet-beta.solana.com"));
    assert!(!str_contains_lit("https://my-rpc.example", "api.mainnet-beta.solana.com"));
    assert!(str_contains_lit("abc", ""));
    assert!(!str_contains_lit("", "a"));
}

#[test]
fn env_string_trims_and_drops_blank() {
    assert_eq!(env_string(None), None);
    assert_eq!(env_string(Some("   ")), None);
    assert_eq!(env_string(Some(" url ")), Some("url".to_string()));
}

#[test]
fn env_bool_words() {
    for v in ["1", "true", "TRUE", " yes ", "Y", "y"] {
        assert!(env_bool(Some(v), false), "{}", v);
    }
    for v in ["0", "false", "no", "on", "2"] {
        assert!(!env_bool(Some(v), true), "{}", v);
    }
    assert!(env_bool(None, true));
    assert!(!env_bool(None, false));
    assert!(env_bool(Some("  "), true));
}

#[test]
fn env_truthy_words() {
    for v in ["1", "true", "Yes", " ON "] {
        assert!(env_truthy(Some(v)), "{}", v);
    }
    for v in ["y", "", "off", "0"] {
        assert!(!env_truthy(Some(v)), "{}", v);
    }
    assert!(!env_truthy(None));
}

#[test]
fn env_u64_defaults_and_errors() {
    assert_eq!(env_u64(None, 300), Ok(300));
    assert_eq!(env_u64(Some(" "), 300), Ok(300));
    assert_eq!(env_u64(Some(" 450 "), 300), Ok(450));
    assert_eq!(env_u64(Some("4.5"), 300), Err(ValueError::NotU64));
}

#[test]
fn first_nonempty_account_skips_placeholders() {
    let list = vec!["".to_string(), "  ".to_string(), " Abc ".to_string(), "Def".to_string()];
    assert_eq!(first_nonempty_account(&list), Some("Abc".to_string()));
    let blanks = vec!["".to_string(), " ".to_string()];
    assert_eq!(first_nonempty_account(&blanks), None);
    assert_eq!(first_nonempty_account(&[]), None);
}
