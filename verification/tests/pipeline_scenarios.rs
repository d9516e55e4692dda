//! End-to-end scenarios over the per-message pipeline sequence and the
//! queue-driver state machine.

use arcos::config::Config;
use arcos::gates::{PortfolioSnapshot, Position};
use arcos::message::SignalMessage;
use arcos::pipeline::{process_message, Driver, DriverAction};

fn default_config_with_creds() -> Config {
    Config::resolve(
        Some("ops@example.com".to_string()),
        Some("secret".to_string()),
        Some("human@example.com".to_string()),
        None,
        None,
        None,
        None,
        None,
        None,
    )
}

fn message(
    message_id: &str,
    ticker: &str,
    signal: &str,
    probability: i64,
    win_rate: i64,
    sample_size: u32,
    rationale: &str,
) -> SignalMessage {
    SignalMessage {
        message_id: message_id.to_string(),
        ticker: ticker.to_string(),
        signal: signal.to_string(),
        probability,
        win_rate,
        uncertainty: 0,
        sample_size,
        rationale: rationale.to_string(),
        signature: "sig".to_string(),
        tags: Vec::new(),
    }
}

fn empty_snapshot() -> PortfolioSnapshot {
    PortfolioSnapshot { gross: 0, positions: Vec::new() }
}

#[test]
fn accepted_buy_candidate_dispatches_alert() {
    let config = default_config_with_creds();
    let msg = message("m1", "ACME", "BUY_CANDIDATE", 72, 70, 50, "r");
    let outcome = process_message(&config, &msg, &empty_snapshot(), &Vec::new(), "2026-10-12");
    assert!(outcome.validity_failures.is_empty());
    assert!(outcome.risk_failures.is_empty());
    assert!(outcome.plan.accepted);
    assert_eq!(outcome.plan.status, "accepted");
    assert!(outcome.alert.is_some());
}

#[test]
fn small_sample_rejected_but_still_dispatches() {
    let config = default_config_with_creds();
    let msg = message("m1", "ACME", "BUY_CANDIDATE", 72, 70, 10, "r");
    let outcome = process_message(&config, &msg, &empty_snapshot(), &Vec::new(), "2026-10-12");
    assert_eq!(
        outcome.validity_failures,
        vec!["Sample size below minimum (10 < 30)".to_string()]
    );
    assert!(!outcome.plan.accepted);
    assert_eq!(outcome.plan.status, "rejected");
    assert!(outcome.alert.is_some());
}

#[test]
fn urgent_drop_dispatches_despite_failing_risk_gate() {
    let config = default_config_with_creds();
    let msg = message("m2", "ACME", "URGENT_DROP", 95, 0, 50, "r");
    let snapshot = PortfolioSnapshot {
        gross: 250,
        positions: vec![Position { weight: 50 }],
    };
    let outcome = process_message(&config, &msg, &snapshot, &Vec::new(), "2026-10-12");
    assert!(!outcome.risk_failures.is_empty());
    assert!(!outcome.plan.accepted);
    assert_eq!(outcome.plan.status, "rejected");
    assert!(outcome.alert.is_some());
}

#[test]
fn missing_credentials_suppress_dispatch() {
    let config = Config::resolve(None, None, None, None, None, None, None, None, None);
    let msg = message("m1", "ACME", "BUY_CANDIDATE", 72, 70, 50, "r");
    let outcome = process_message(&config, &msg, &empty_snapshot(), &Vec::new(), "2026-10-12");
    assert!(outcome.plan.accepted);
    assert!(outcome.alert.is_none());
}

#[test]
fn low_probability_suppresses_dispatch() {
    let config = default_config_with_creds();
    let msg = message("m1", "ACME", "BUY_CANDIDATE", 60, 70, 50, "r");
    let outcome = process_message(&config, &msg, &empty_snapshot(), &Vec::new(), "2026-10-12");
    assert!(outcome.alert.is_none());
}

#[test]
fn status_covers_all_four_gate_combinations() {
    let config = default_config_with_creds();
    // validity pass/fail via the sample size, risk pass/fail via gross.
    let cases = [
        (50u32, 0i64, "accepted"),
        (10u32, 0i64, "rejected"),
        (50u32, 250i64, "rejected"),
        (10u32, 250i64, "rejected"),
    ];
    for (sample_size, gross, expected) in cases {
        let msg = message("m1", "ACME", "BUY_CANDIDATE", 72, 70, sample_size, "r");
        let snapshot = PortfolioSnapshot { gross, positions: Vec::new() };
        let outcome = process_message(&config, &msg, &snapshot, &Vec::new(), "2026-10-12");
        assert_eq!(outcome.plan.status, expected);
        assert_eq!(
            outcome.plan.accepted,
            outcome.validity_failures.is_empty() && outcome.risk_failures.is_empty()
        );
    }
}

#[test]
fn market_brief_produces_briefing() {
    let config = default_config_with_creds();
    let msg = message("m9", "MARKET_BRIEF", "INFO", 90, 0, 50, "Calm day.");
    let outcome = process_message(&config, &msg, &empty_snapshot(), &Vec::new(), "2026-10-12");
    let briefing = outcome.plan.briefing.expect("market brief should plan a briefing");
    assert_eq!(
        briefing.path,
        "workspace/official/reports/daily_briefing_2026-10-12.md"
    );
    assert_eq!(
        briefing.text,
        "# ARCOS Daily Briefing (2026-10-12)\n\nCalm day.\n\nAudit Reference: m9\n"
    );
}

#[test]
fn ordinary_message_plans_no_briefing() {
    let config = default_config_with_creds();
    let msg = message("m1", "ACME", "INFO", 90, 0, 50, "r");
    let outcome = process_message(&config, &msg, &empty_snapshot(), &Vec::new(), "2026-10-12");
    assert!(outcome.plan.briefing.is_none());
}

#[test]
fn three_pop_failures_reconnect_without_losing_messages() {
    let mut driver = Driver::new();
    for _ in 0..3 {
        let action = driver.on_pop_result(false);
        assert!(matches!(action, DriverAction::SleepAndReconnect));
    }
    assert_eq!(driver.reconnects, 3);
    assert_eq!(driver.messages_processed, 0);
    let action = driver.on_pop_result(true);
    assert!(matches!(action, DriverAction::ProcessMessage));
    assert_eq!(driver.messages_processed, 1);
    assert_eq!(driver.reconnects, 3);
}
