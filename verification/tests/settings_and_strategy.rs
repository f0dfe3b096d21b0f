use risk_core::config::{
    count_or, dry_run_setting, env_count, env_flag, env_number, flag_from_normalized,
    max_open_positions_setting, number_or, parse_quote_asset, parse_u64, prefer,
    quote_asset_from_normalized, slippage_settings, trim, ConfigError, QuoteAsset,
    DEFAULT_DRY_RUN, DEFAULT_JITO_TIP_LAMPORTS, DEFAULT_MAX_OPEN_POSITIONS,
    DEFAULT_MAX_SLIPPAGE_BPS, DEFAULT_RPC_FAILOVER_P95_MS, DEFAULT_SLIPPAGE_BPS,
};
use risk_core::domain::Strategy;
use risk_core::strategy::momentum::{intent_buy, MomentumScalper};

#[test]
fn a_flag_says_yes_in_five_ways() {
    for text in ["1", "true", "yes", "y", "on", "TRUE", " Yes ", "\tOn\n", "Y"] {
        assert!(env_flag(Some(text), false), "{:?}", text);
    }
}

#[test]
fn a_flag_says_no_in_five_ways() {
    for text in ["0", "false", "no", "n", "off", "FALSE", " No ", "OFF", "N"] {
        assert!(!env_flag(Some(text), true), "{:?}", text);
    }
}

#[test]
fn a_flag_that_says_nothing_has_its_default() {
    for text in ["", "   ", "maybe", "2", "tru", "yess", "o n"] {
        assert!(env_flag(Some(text), true), "{:?}", text);
        assert!(!env_flag(Some(text), false), "{:?}", text);
    }
    assert!(env_flag(None, true));
    assert!(!env_flag(None, false));
}

#[test]
fn white_space_is_trimmed_as_the_standard_library_trims_it() {
    let spaces = [
        '\u{9}', '\u{a}', '\u{b}', '\u{c}', '\u{d}', ' ', '\u{85}', '\u{a0}', '\u{1680}',
        '\u{2000}', '\u{2001}', '\u{2002}', '\u{2003}', '\u{2004}', '\u{2005}', '\u{2006}',
        '\u{2007}', '\u{2008}', '\u{2009}', '\u{200a}', '\u{2028}', '\u{2029}', '\u{202f}',
        '\u{205f}', '\u{3000}',
    ];
    assert_eq!(spaces.len(), 25);
    for c in spaces {
        assert!(c.is_whitespace());
        assert_eq!(trim(&format!("{}x y{}{}", c, c, c)), "x y");
        assert_eq!(trim(&c.to_string()), "");
    }
    for code in 0u32..0x3100 {
        if let Some(c) = char::from_u32(code) {
            let text = format!("{}a{}", c, c);
            assert_eq!(trim(&text), text.trim(), "{:x}", code);
        }
    }
    for text in ["", " ", "a", " a", "a ", "  a b  ", "\t\n a\u{200b} \r", "é ", " \u{feff}x "] {
        assert_eq!(trim(text), text.trim(), "{:?}", text);
    }
}

#[test]
fn unset_means_dry_run() {
    assert!(DEFAULT_DRY_RUN);
    assert!(dry_run_setting(None));
    assert!(dry_run_setting(Some("")));
    assert!(dry_run_setting(Some("maybe")));
    assert!(dry_run_setting(Some("yes")));
    assert!(!dry_run_setting(Some("false")));
    assert!(!dry_run_setting(Some(" OFF ")));
}

#[test]
fn the_settings_where_nothing_says_otherwise() {
    assert_eq!(DEFAULT_MAX_OPEN_POSITIONS, 3);
    assert_eq!(DEFAULT_SLIPPAGE_BPS, 50);
    assert_eq!(DEFAULT_MAX_SLIPPAGE_BPS, 100);
    assert_eq!(DEFAULT_RPC_FAILOVER_P95_MS, 150);
    assert_eq!(DEFAULT_JITO_TIP_LAMPORTS, 5_000);
    assert_eq!(max_open_positions_setting(None), 3);
    assert_eq!(max_open_positions_setting(Some("x")), 3);
    assert_eq!(max_open_positions_setting(Some("7")), 7);
    assert_eq!(slippage_settings(None, None), (50, 100));
    assert_eq!(slippage_settings(Some("25"), Some("x")), (25, 100));
    assert_eq!(slippage_settings(Some(""), Some("300")), (50, 300));
}

#[test]
fn a_normalized_flag_is_read_exactly() {
    assert!(flag_from_normalized(&"true".to_string(), false));
    assert!(!flag_from_normalized(&"TRUE".to_string(), false));
    assert!(!flag_from_normalized(&" true".to_string(), false));
    assert!(!flag_from_normalized(&"off".to_string(), true));
    assert!(flag_from_normalized(&"Off".to_string(), true));
}

#[test]
fn the_quote_asset_is_read_in_any_case() {
    assert_eq!(parse_quote_asset(Some("SOL")).unwrap(), QuoteAsset::SOL);
    assert_eq!(parse_quote_asset(Some("sol")).unwrap(), QuoteAsset::SOL);
    assert_eq!(parse_quote_asset(Some("usdc")).unwrap(), QuoteAsset::USDC);
    assert_eq!(parse_quote_asset(Some("UsDc")).unwrap(), QuoteAsset::USDC);
}

#[test]
fn the_quote_asset_is_usdc_where_none_is_named() {
    assert_eq!(parse_quote_asset(None).unwrap(), QuoteAsset::USDC);
}

#[test]
fn an_unknown_quote_asset_is_refused_by_its_name_in_upper_case() {
    match parse_quote_asset(Some("btc")) {
        Err(ConfigError::InvalidQuoteAsset { value }) => assert_eq!(value, "BTC"),
        other => panic!("expected a refusal, got {:?}", other),
    }
    match parse_quote_asset(Some(" sol")) {
        Err(ConfigError::InvalidQuoteAsset { value }) => assert_eq!(value, " SOL"),
        other => panic!("expected a refusal, got {:?}", other),
    }
    assert!(parse_quote_asset(Some("")).is_err());
    assert!(quote_asset_from_normalized("sol".to_string()).is_err());
    assert_eq!(quote_asset_from_normalized("SOL".to_string()).unwrap(), QuoteAsset::SOL);
}

#[test]
fn a_refused_quote_asset_in_words() {
    let error = parse_quote_asset(Some("eth")).unwrap_err();
    assert_eq!(error.message(), "invalid QUOTE_ASSET/SIE_QUOTE_ASSET: ETH");
}

#[test]
fn the_current_name_of_a_setting_wins_over_the_older_one() {
    let a = Some("a".to_string());
    let b = Some("b".to_string());
    assert_eq!(prefer(a.clone(), b.clone()), a);
    assert_eq!(prefer(None, b.clone()), b);
    assert_eq!(prefer(a.clone(), None), a);
    assert_eq!(prefer(None, None), None);
}

#[test]
fn a_number_is_read_in_decimal_or_has_its_default() {
    assert_eq!(env_number(Some("150"), 7), 150);
    assert_eq!(env_number(Some("0"), 7), 0);
    assert_eq!(env_number(Some("+5"), 7), 5);
    assert_eq!(env_number(Some("18446744073709551615"), 7), u64::MAX);
    assert_eq!(env_number(Some("18446744073709551616"), 7), 7);
    assert_eq!(env_number(Some(""), 7), 7);
    assert_eq!(env_number(Some(" 5"), 7), 7);
    assert_eq!(env_number(Some("-1"), 7), 7);
    assert_eq!(env_number(Some("1.5"), 7), 7);
    assert_eq!(env_number(Some("five"), 7), 7);
    assert_eq!(env_number(None, 7), 7);
}

#[test]
fn numbers_are_read_as_the_standard_library_reads_them() {
    let texts = [
        "", "+", "-", "0", "00", "007", "+0", "+42", "++42", "-42", "+-42", "42+", "4 2", " 42",
        "42 ", "4_2", "0x10", "1e3", "1.0", "٤٢", "４２", "18446744073709551615",
        "18446744073709551616", "+18446744073709551615", "99999999999999999999",
        "000000000000000000000000000001", "184467440737095516150", "a", "9a", "a9",
    ];
    for text in texts {
        assert_eq!(parse_u64(text), text.parse::<u64>().ok(), "{:?}", text);
    }
    for number in [0u64, 1, 9, 10, 99, 100, 12345, u64::MAX / 10, u64::MAX - 1, u64::MAX] {
        assert_eq!(parse_u64(&number.to_string()), Some(number));
    }
}

#[test]
fn a_count_is_read_like_a_number() {
    assert_eq!(env_count(Some("3"), 9), 3);
    assert_eq!(env_count(Some("x"), 9), 9);
    assert_eq!(env_count(None, 9), 9);
    assert_eq!(count_or(Some(4), 9), 4);
    assert_eq!(count_or(None, 9), 9);
    assert_eq!(number_or(Some(4), 9), 4);
    assert_eq!(number_or(None, 9), 9);
}

#[test]
fn a_scalper_starts_with_the_usual_parameters() {
    let scalper = MomentumScalper::new("USDC".to_string(), 5_000_000, vec!["A".to_string()]);
    assert_eq!(scalper.quote_mint, "USDC");
    assert_eq!(scalper.size_usdc, 5_000_000);
    assert_eq!(scalper.watchlist_base_mints, vec!["A".to_string()]);
    assert_eq!(scalper.params.rsi_period, 14);
    assert_eq!(scalper.params.rsi_breakout, 60_000_000);
    assert_eq!(scalper.params.min_volume_usdc_1m, 50_000_000_000);
}

#[test]
fn a_scalper_without_market_data_proposes_nothing() {
    let scalper = MomentumScalper::new("USDC".to_string(), 5_000_000, vec![]);
    assert!(scalper.evaluate().unwrap().is_empty());
}

#[test]
fn an_intent_to_buy_is_tagged_with_its_strategy() {
    let intent = intent_buy("BASE".to_string(), "QUOTE".to_string(), 5_000_000);
    assert_eq!(intent.strategy, Strategy::MomentumScalping);
    assert_eq!(intent.base_mint, "BASE");
    assert_eq!(intent.quote_mint, "QUOTE");
    assert_eq!(intent.size_usdc, 5_000_000);
    assert!(intent.notes.is_empty());
}
