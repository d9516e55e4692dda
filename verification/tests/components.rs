//! Component-level tests: validation, configuration defaults, artifact
//! selection and hashing, the ledger mode switch, and the small string
//! utilities.

use arcos::artifacts::{artifact_categories, artifact_reference, latest_json_name};
use arcos::config::Config;
use arcos::ledger::{append_if_paper, PaperLedger};
use arcos::message::{validate_message, SignalMessage};
use arcos::strutil::{contains, is_blank, starts_with, str_lex_le};

fn message(ticker: &str, probability: i64) -> SignalMessage {
    SignalMessage {
        message_id: "m1".to_string(),
        ticker: ticker.to_string(),
        signal: "BUY_CANDIDATE".to_string(),
        probability,
        win_rate: 70,
        uncertainty: 0,
        sample_size: 50,
        rationale: "r".to_string(),
        signature: "sig".to_string(),
        tags: Vec::new(),
    }
}

#[test]
fn valid_message_passes_validation() {
    assert!(validate_message(&message("ACME", 72)).is_ok());
    assert!(validate_message(&message("ACME", 0)).is_ok());
    assert!(validate_message(&message("ACME", 100)).is_ok());
}

#[test]
fn out_of_range_probability_is_rejected() {
    assert_eq!(
        validate_message(&message("ACME", 150)),
        Err("Probability out of bounds".to_string())
    );
    assert_eq!(
        validate_message(&message("ACME", -1)),
        Err("Probability out of bounds".to_string())
    );
}

#[test]
fn blank_ticker_is_rejected() {
    assert_eq!(validate_message(&message("", 72)), Err("Ticker missing".to_string()));
    assert_eq!(validate_message(&message("  \t\n", 72)), Err("Ticker missing".to_string()));
}

#[test]
fn unicode_whitespace_ticker_is_rejected() {
    assert_eq!(
        validate_message(&message("\u{A0}\u{2003}\u{3000}", 72)),
        Err("Ticker missing".to_string())
    );
}

#[test]
fn configuration_defaults_apply() {
    let config = Config::resolve(None, None, None, None, None, None, None, None, None);
    assert_eq!(config.workspace_root, "workspace");
    assert_eq!(config.min_sample_size, 30);
    assert_eq!(config.min_win_rate, 65);
    assert_eq!(config.max_position_cap, 10);
    assert_eq!(config.max_gross_exposure, 100);
    assert_eq!(config.execution_mode, "advisory");
    assert!(!config.alerts_configured());
    assert!(!config.is_paper_mode());
}

#[test]
fn configuration_overrides_apply() {
    let config = Config::resolve(
        Some("u".to_string()),
        Some("p".to_string()),
        Some("r".to_string()),
        Some("data".to_string()),
        Some(10),
        Some(55),
        Some(20),
        Some(150),
        Some("paper".to_string()),
    );
    assert_eq!(config.workspace_root, "data");
    assert_eq!(config.min_sample_size, 10);
    assert!(config.alerts_configured());
    assert!(config.is_paper_mode());
}

#[test]
fn artifact_hash_is_the_sha256_digest() {
    let empty = artifact_reference("a.json".to_string(), b"");
    assert_eq!(empty.path, "a.json");
    assert_eq!(
        empty.hash,
        "e3b0c44298fc1c149afbf4c8996fb92427ae41e4649b934ca495991b7852b855"
    );
    let abc = artifact_reference("b.json".to_string(), b"abc");
    assert_eq!(
        abc.hash,
        "ba7816bf8f01cfea414140de5dae2223b00361a396177a9cb410ff61f20015ad"
    );
}

#[test]
fn artifact_categories_are_fixed() {
    assert_eq!(
        artifact_categories(),
        vec![
            "raw".to_string(),
            "features".to_string(),
            "signals".to_string(),
            "news".to_string(),
            "calibration".to_string(),
        ]
    );
}

#[test]
fn latest_json_name_selects_lexicographic_max() {
    let names = vec![
        "2024-01-02.json".to_string(),
        "2024-01-10.json".to_string(),
        "2024-01-03.json".to_string(),
        "notes.txt".to_string(),
    ];
    assert_eq!(latest_json_name(&names), Some("2024-01-10.json".to_string()));
}

#[test]
fn latest_json_name_ignores_non_json() {
    assert_eq!(latest_json_name(&Vec::new()), None);
    assert_eq!(latest_json_name(&vec!["a.txt".to_string()]), None);
    assert_eq!(latest_json_name(&vec![".json".to_string()]), None);
}

#[test]
fn advisory_mode_leaves_ledger_untouched() {
    let config = Config::resolve(None, None, None, None, None, None, None, None, None);
    let mut ledger = PaperLedger::empty();
    append_if_paper(&config, &message("ACME", 72), &mut ledger);
    assert!(ledger.trades.is_empty());
}

#[test]
fn paper_mode_appends_exactly_one_entry() {
    let config = Config::resolve(
        None,
        None,
        None,
        None,
        None,
        None,
        None,
        None,
        Some("paper".to_string()),
    );
    let mut ledger = PaperLedger::empty();
    append_if_paper(&config, &message("ACME", 72), &mut ledger);
    assert_eq!(ledger.trades.len(), 1);
    assert_eq!(ledger.trades[0].ticker, "ACME");
    assert_eq!(ledger.trades[0].signal, "BUY_CANDIDATE");
    assert_eq!(ledger.trades[0].probability, 72);
    assert_eq!(ledger.trades[0].timestamp, "m1");
    append_if_paper(&config, &message("WIDGET", 80), &mut ledger);
    assert_eq!(ledger.trades.len(), 2);
    assert_eq!(ledger.trades[1].ticker, "WIDGET");
}

#[test]
fn string_utilities_behave() {
    assert!(is_blank(""));
    assert!(is_blank(" \t\r\n"));
    assert!(!is_blank(" a "));
    assert!(starts_with("URGENT_DROP", "URGENT"));
    assert!(!starts_with("DROP_URGENT", "URGENT"));
    assert!(contains("VERY_URGENT_DROP", "URGENT"));
    assert!(!contains("CALM", "URGENT"));
    assert!(str_lex_le("a.json", "b.json"));
    assert!(!str_lex_le("b.json", "a.json"));
    assert!(str_lex_le("abc", "abcd"));
}
