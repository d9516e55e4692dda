//! Exact-output tests for the composed documents, the formatted
//! failure reasons, the alert texts and the number rendering.

use sha2::Digest;

use arcos::alert::compose_alert;
use arcos::audit::{compose_briefing, compose_recommendation, plan_audit};
use arcos::config::Config;
use arcos::gates::{apply_risk_engine, apply_validity_gate, PortfolioSnapshot, Position};
use arcos::ledger::{append_if_paper, render_ledger, PaperLedger};
use arcos::message::SignalMessage;
use arcos::numfmt::{render_fixed2, render_fixed2_i64, render_u64};

fn default_config() -> Config {
    Config::resolve(None, None, None, None, None, None, None, None, None)
}

fn paper_config() -> Config {
    Config::resolve(None, None, None, None, None, None, None, None, Some("paper".to_string()))
}

fn message(ticker: &str, signal: &str, probability: i64, rationale: &str) -> SignalMessage {
    SignalMessage {
        message_id: "m1".to_string(),
        ticker: ticker.to_string(),
        signal: signal.to_string(),
        probability,
        win_rate: 70,
        uncertainty: 0,
        sample_size: 50,
        rationale: rationale.to_string(),
        signature: "sig".to_string(),
        tags: Vec::new(),
    }
}

#[test]
fn number_rendering_is_exact() {
    assert_eq!(render_u64(0), "0");
    assert_eq!(render_u64(30), "30");
    assert_eq!(render_u64(1234567890), "1234567890");
    assert_eq!(render_fixed2(0), "0.00");
    assert_eq!(render_fixed2(5), "0.05");
    assert_eq!(render_fixed2(72), "0.72");
    assert_eq!(render_fixed2(100), "1.00");
    assert_eq!(render_fixed2(1234), "12.34");
    assert_eq!(render_fixed2_i64(-5), "-0.05");
    assert_eq!(render_fixed2_i64(-150), "-1.50");
}

#[test]
fn validity_failure_text_is_exact() {
    let config = default_config();
    let mut msg = message("ACME", "BUY_CANDIDATE", 72, "r");
    msg.sample_size = 10;
    msg.win_rate = 50;
    let failures = apply_validity_gate(&msg, &config);
    assert_eq!(
        failures,
        vec![
            "Sample size below minimum (10 < 30)".to_string(),
            "Win rate below minimum (0.50 < 0.65)".to_string(),
        ]
    );
}

#[test]
fn zero_win_rate_means_not_supplied() {
    let config = default_config();
    let mut msg = message("ACME", "BUY_CANDIDATE", 72, "r");
    msg.win_rate = 0;
    assert!(apply_validity_gate(&msg, &config).is_empty());
}

#[test]
fn risk_failure_texts_are_exact() {
    let config = default_config();
    let snapshot = PortfolioSnapshot {
        gross: 150,
        positions: vec![
            Position { weight: 15 },
            Position { weight: 5 },
            Position { weight: 11 },
        ],
    };
    let failures = apply_risk_engine(&config, &snapshot);
    assert_eq!(
        failures,
        vec![
            "Gross exposure 1.50 exceeds cap 1.00".to_string(),
            "Position weight 0.15 exceeds cap 0.10".to_string(),
            "Position weight 0.11 exceeds cap 0.10".to_string(),
        ]
    );
}

#[test]
fn risk_gate_passes_within_caps() {
    let config = default_config();
    let snapshot = PortfolioSnapshot {
        gross: 100,
        positions: vec![Position { weight: 10 }],
    };
    assert!(apply_risk_engine(&config, &snapshot).is_empty());
}

#[test]
fn recommendation_document_is_exact() {
    let config = default_config();
    let msg = message("ACME", "BUY_CANDIDATE", 72, "r");
    let text = compose_recommendation(&msg, &config, &Vec::new(), &Vec::new(), &Vec::new());
    let expected = "{\n  \"type\": \"OfficialRecommendation\",\n  \"message_id\": \"m1\",\n  \"ticker\": \"ACME\",\n  \"signal\": \"BUY_CANDIDATE\",\n  \"probability\": 0.72,\n  \"status\": \"accepted\",\n  \"execution_mode\": \"advisory\",\n  \"validity_failures\": [],\n  \"risk_failures\": [],\n  \"rationale\": \"r\",\n  \"artifacts\": []\n}";
    assert_eq!(text, expected);
}

#[test]
fn rejected_recommendation_lists_failures() {
    let config = default_config();
    let msg = message("ACME", "BUY_CANDIDATE", 72, "r");
    let vf = vec!["Sample size below minimum (10 < 30)".to_string()];
    let text = compose_recommendation(&msg, &config, &vf, &Vec::new(), &Vec::new());
    assert!(text.contains("  \"status\": \"rejected\",\n"));
    assert!(text.contains(
        "  \"validity_failures\": [\n    \"Sample size below minimum (10 < 30)\"\n  ],\n"
    ));
}

#[test]
fn json_strings_are_escaped() {
    let config = default_config();
    let msg = message("ACME", "BUY_CANDIDATE", 72, "line\nwith \"quotes\" and \\slash\tend");
    let text = compose_recommendation(&msg, &config, &Vec::new(), &Vec::new(), &Vec::new());
    assert!(text.contains(
        "\"rationale\": \"line\\nwith \\\"quotes\\\" and \\\\slash\\tend\""
    ));
}

#[test]
fn manifest_embeds_hash_of_recommendation_text() {
    let config = default_config();
    let msg = message("ACME", "BUY_CANDIDATE", 72, "r");
    let plan = plan_audit(&config, &msg, &Vec::new(), &Vec::new(), &Vec::new(), "2026-10-12");
    let mut hasher = sha2::Sha256::new();
    hasher.update(plan.recommendation_text.as_bytes());
    let expected_hash = format!("{:x}", hasher.finalize());
    let expected = format!(
        "{{\n  \"type\": \"AuditManifest\",\n  \"message_id\": \"m1\",\n  \"artifacts\": [],\n  \"output_hash\": \"{}\",\n  \"config\": {{\n    \"min_sample_size\": 30,\n    \"min_win_rate\": 0.65,\n    \"max_position_cap\": 0.10,\n    \"max_gross_exposure\": 1.00,\n    \"execution_mode\": \"advisory\"\n  }}\n}}",
        expected_hash
    );
    assert_eq!(plan.manifest_text, expected);
}

#[test]
fn artifact_references_render_as_pairs() {
    let config = default_config();
    let msg = message("ACME", "BUY_CANDIDATE", 72, "r");
    let artifacts = vec![
        arcos::artifacts::ArtifactRef {
            path: "workspace/raw/2024-01-10.json".to_string(),
            hash: "aa".to_string(),
        },
        arcos::artifacts::ArtifactRef {
            path: "workspace/news/2024-01-09.json".to_string(),
            hash: "bb".to_string(),
        },
    ];
    let text = compose_recommendation(&msg, &config, &Vec::new(), &Vec::new(), &artifacts);
    assert!(text.contains(
        "  \"artifacts\": [\n    [\"workspace/raw/2024-01-10.json\", \"aa\"],\n    [\"workspace/news/2024-01-09.json\", \"bb\"]\n  ]\n}"
    ));
}

#[test]
fn negative_win_rate_skips_the_win_rate_rule() {
    let config = default_config();
    let mut msg = message("ACME", "BUY_CANDIDATE", 72, "r");
    msg.win_rate = -10;
    assert!(apply_validity_gate(&msg, &config).is_empty());
}

#[test]
fn audit_paths_are_deterministic() {
    let config = default_config();
    let msg = message("ACME", "BUY_CANDIDATE", 72, "r");
    let plan_a = plan_audit(&config, &msg, &Vec::new(), &Vec::new(), &Vec::new(), "2026-10-12");
    let plan_b = plan_audit(&config, &msg, &Vec::new(), &Vec::new(), &Vec::new(), "2026-10-12");
    assert_eq!(
        plan_a.recommendation_path,
        "workspace/official/reports/recommendation_ACME_m1.json"
    );
    assert_eq!(plan_a.recommendation_path, plan_b.recommendation_path);
    assert_eq!(plan_a.manifest_path, "workspace/official/manifests/manifest_m1.json");
    assert_eq!(plan_a.manifest_path, plan_b.manifest_path);
    assert_eq!(plan_a.recommendation_text, plan_b.recommendation_text);
    assert_eq!(plan_a.reports_dir, "workspace/official/reports");
    assert_eq!(plan_a.manifests_dir, "workspace/official/manifests");
}

#[test]
fn briefing_document_is_exact() {
    let msg = SignalMessage {
        message_id: "m9".to_string(),
        ticker: "MARKET_BRIEF".to_string(),
        signal: "INFO".to_string(),
        probability: 90,
        win_rate: 0,
        uncertainty: 0,
        sample_size: 50,
        rationale: "Calm day.".to_string(),
        signature: "sig".to_string(),
        tags: Vec::new(),
    };
    assert_eq!(
        compose_briefing("2026-10-12", &msg),
        "# ARCOS Daily Briefing (2026-10-12)\n\nCalm day.\n\nAudit Reference: m9\n"
    );
}

#[test]
fn alert_subjects_follow_the_three_templates() {
    let standard = compose_alert(&message("ACME", "BUY_CANDIDATE", 72, "r"));
    assert_eq!(standard.subject, "\u{1F680} ARCOS Signal: ACME (72%)");
    let info = compose_alert(&message("MARKET_BRIEF", "INFO", 90, "r"));
    assert_eq!(info.subject, "\u{1F3DB}\u{FE0F} ARCOS Briefing: Market Summary");
    let urgent = compose_alert(&message("ACME", "URGENT_DROP", 95, "r"));
    assert_eq!(urgent.subject, "\u{1F6A8} URGENT: ACME Moving Fast!");
}

#[test]
fn alert_body_is_exact() {
    let alert = compose_alert(&message("ACME", "BUY_CANDIDATE", 72, "because"));
    assert_eq!(
        alert.body,
        "Ticker: ACME\nSignal: BUY_CANDIDATE\nConfidence: 72.00%\n\nREPORT:\nbecause"
    );
}

#[test]
fn ledger_document_is_exact() {
    let config = paper_config();
    let msg = message("ACME", "BUY_CANDIDATE", 72, "r");
    let mut ledger = PaperLedger::empty();
    append_if_paper(&config, &msg, &mut ledger);
    let expected = "{\n  \"type\": \"PaperLedger\",\n  \"trades\": [\n    {\n      \"ticker\": \"ACME\",\n      \"signal\": \"BUY_CANDIDATE\",\n      \"probability\": 0.72,\n      \"timestamp\": \"m1\"\n    }\n  ]\n}";
    assert_eq!(render_ledger(&ledger), expected);
}

#[test]
fn empty_ledger_renders_empty_trades() {
    let ledger = PaperLedger::empty();
    assert_eq!(render_ledger(&ledger), "{\n  \"type\": \"PaperLedger\",\n  \"trades\": []\n}");
}
