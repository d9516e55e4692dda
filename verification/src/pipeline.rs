//! The pipeline driver's decision logic: the per-message
//! decode, gate, audit, alert computation, and the queue state machine
//! (process on a successful pop, sleep-and-reconnect on a failed one).
//! The caller owns the queue, the filesystem and the mail transport;
//! everything decided here is exact.

use vstd::prelude::*;
use crate::alert::AlertEmail;
use crate::alert::compose_alert;
use crate::alert::should_dispatch;
use crate::alert::spec_should_dispatch;
use crate::artifacts::ArtifactRef;
use crate::audit::AuditPlan;
use crate::audit::plan_audit;
use crate::audit::spec_briefing_path;
use crate::audit::spec_briefing_text;
use crate::audit::spec_is_market_brief;
use crate::audit::spec_manifest_json;
use crate::audit::spec_manifest_path;
use crate::audit::spec_recommendation_json;
use crate::audit::spec_recommendation_path;
use crate::audit::spec_status;
use crate::artifacts::sha256_hex_of;
use crate::config::Config;
use crate::config::spec_alerts_configured;
use crate::gates::PortfolioSnapshot;
use crate::gates::apply_risk_engine;
use crate::gates::apply_validity_gate;
use crate::gates::spec_risk_failures;
use crate::gates::spec_validity_failures;
use crate::message::SignalMessage;
use crate::message::spec_valid_message;
use vstd::utf8::encode_utf8;

verus! {

/// The dispatch decision for one message: the signal kind, the
/// probability and the configured credentials alone. Neither the
/// portfolio snapshot nor either gating result enters this function,
/// so dispatch is independent of the decision status: a rejected
/// recommendation can still alert a human.
pub open spec fn spec_dispatch_decision(config: &Config, msg: &SignalMessage) -> bool {
    spec_should_dispatch(msg.signal@, msg.probability as int) && spec_alerts_configured(config)
}

/// Everything the pipeline decides for one validated message: the two
/// gate results, the audit plan, and the alert to dispatch (if any).
pub struct MessageOutcome {
    pub validity_failures: Vec<String>,
    pub risk_failures: Vec<String>,
    pub plan: AuditPlan,
    pub alert: Option<AlertEmail>,
}

/// Runs the gating, audit and alert sequence for one validated message
/// against the given portfolio snapshot, artifact references and
/// calendar date. The alert decision depends only on the signal kind,
/// the probability and the configured credentials, never on a gating
/// result, so a rejected recommendation can still dispatch.
pub fn process_message(
    config: &Config,
    msg: &SignalMessage,
    snapshot: &PortfolioSnapshot,
    artifacts: &Vec<ArtifactRef>,
    today: &str,
) -> (r: MessageOutcome)
    requires
        spec_valid_message(msg),
    ensures
        r.validity_failures.deep_view() == spec_validity_failures(
            msg.sample_size as int,
            msg.win_rate as int,
            config.min_sample_size as int,
            config.min_win_rate as int,
        ),
        r.risk_failures.deep_view() == spec_risk_failures(
            snapshot.gross as int,
            snapshot.positions.deep_view(),
            config.max_gross_exposure as int,
            config.max_position_cap as int,
        ),
        r.plan.accepted <==> r.validity_failures.deep_view().len() == 0
            && r.risk_failures.deep_view().len() == 0,
        r.plan.status@ == spec_status(
            r.validity_failures.deep_view(),
            r.risk_failures.deep_view(),
        ),
        r.plan.recommendation_path@ == spec_recommendation_path(
            config.workspace_root@,
            msg.ticker@,
            msg.message_id@,
        ),
        r.plan.recommendation_text@ == spec_recommendation_json(
            msg,
            config,
            r.validity_failures.deep_view(),
            r.risk_failures.deep_view(),
            artifacts.deep_view(),
        ),
        r.plan.manifest_path@ == spec_manifest_path(config.workspace_root@, msg.message_id@),
        r.plan.manifest_text@ == spec_manifest_json(
            msg,
            config,
            artifacts.deep_view(),
            sha256_hex_of(encode_utf8(r.plan.recommendation_text@)),
        ),
        r.plan.briefing is Some <==> spec_is_market_brief(msg),
        r.plan.briefing is Some ==> r.plan.briefing->0.path@ == spec_briefing_path(
            config.workspace_root@,
            today@,
        ) && r.plan.briefing->0.text@ == spec_briefing_text(
            today@,
            msg.rationale@,
            msg.message_id@,
        ),
        r.alert is Some <==> spec_dispatch_decision(config, msg),
        r.alert is Some ==> r.alert->0.subject@ == crate::alert::spec_alert_subject(
            msg.ticker@,
            msg.signal@,
            msg.probability as int,
        ) && r.alert->0.body@ == crate::alert::spec_alert_body(
            msg.ticker@,
            msg.signal@,
            msg.probability as int,
            msg.rationale@,
        ),
{
    let validity_failures = apply_validity_gate(msg, config);
    let risk_failures = apply_risk_engine(config, snapshot);
    let plan = plan_audit(config, msg, &validity_failures, &risk_failures, artifacts, today);
    let alert = if should_dispatch(msg) && config.alerts_configured() {
        Some(compose_alert(msg))
    } else {
        None
    };
    MessageOutcome { validity_failures, risk_failures, plan, alert }
}

/// What the driver does next after one queue pop.
pub enum DriverAction {
    /// A payload arrived: run the per-message sequence once.
    ProcessMessage,
    /// The pop failed: sleep a fixed backoff, re-establish the queue
    /// connection, and listen again. The process never terminates on a
    /// transient queue error.
    SleepAndReconnect,
}

/// The long-lived driver state: counters over the consume loop. The
/// driver is always back in its listening state between pops.
pub struct Driver {
    /// Messages handed to processing, one per successful pop.
    pub messages_processed: u64,
    /// Reconnect rounds performed, one per failed pop.
    pub reconnects: u64,
}

impl Driver {
    /// A fresh driver that has consumed nothing.
    pub fn new() -> (r: Driver)
        ensures
            r.messages_processed == 0,
            r.reconnects == 0,
    {
        Driver { messages_processed: 0, reconnects: 0 }
    }

    /// Advances the state machine by one queue pop. A successful pop
    /// is processed exactly once; a failed pop triggers exactly one
    /// sleep-and-reconnect round and consumes no message. Counters
    /// saturate at their maximum.
    pub fn on_pop_result(&mut self, popped: bool) -> (a: DriverAction)
        ensures
            popped ==> a is ProcessMessage,
            !popped ==> a is SleepAndReconnect,
            popped ==> final(self).messages_processed == (if old(self).messages_processed
                < u64::MAX {
                old(self).messages_processed + 1
            } else {
                old(self).messages_processed as int
            }) && final(self).reconnects == old(self).reconnects,
            !popped ==> final(self).reconnects == (if old(self).reconnects < u64::MAX {
                old(self).reconnects + 1
            } else {
                old(self).reconnects as int
            }) && final(self).messages_processed == old(self).messages_processed,
    {
        if popped {
            if self.messages_processed < u64::MAX {
                self.messages_processed = self.messages_processed + 1;
            }
            DriverAction::ProcessMessage
        } else {
            if self.reconnects < u64::MAX {
                self.reconnects = self.reconnects + 1;
            }
            DriverAction::SleepAndReconnect
        }
    }
}

} // verus!
