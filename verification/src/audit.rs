//! The audit writer: composes the Official Recommendation Record, the
//! Audit Manifest (hash-linked to the recommendation text and to the
//! active gate configuration), the optional daily briefing, and the
//! deterministic output paths. The caller persists the composed texts;
//! everything composed here is exact.

use vstd::prelude::*;
use vstd::string::StrSliceExecFns;
use vstd::string::StringExecFns;
use vstd::utf8::encode_utf8;
use crate::artifacts::ArtifactRef;
use crate::artifacts::ArtifactRefV;
use crate::artifacts::sha256_hex;
use crate::artifacts::sha256_hex_of;
use crate::config::Config;
use crate::json::array_block;
use crate::json::json_string;
use crate::json::json_string_items;
use crate::json::render_array_block;
use crate::json::render_json_string;
use crate::json::render_string_array;
use crate::message::SignalMessage;
use crate::numfmt::dec_str;
use crate::numfmt::fixed2_str_i64;
use crate::numfmt::render_u64;
use crate::numfmt::render_fixed2_i64;
use crate::strutil::str_eq;

verus! {

/// The decision status: `accepted` iff both gate results are empty.
/// This is the single source of truth for acceptance.
pub open spec fn spec_status(vf: Seq<Seq<char>>, rf: Seq<Seq<char>>) -> Seq<char> {
    if vf.len() == 0 && rf.len() == 0 {
        "accepted"@
    } else {
        "rejected"@
    }
}

/// The status reads `accepted` exactly when both gate lists are empty,
/// and `rejected` otherwise; the two readings never coincide.
pub proof fn lemma_status_accepted_iff(vf: Seq<Seq<char>>, rf: Seq<Seq<char>>)
    ensures
        spec_status(vf, rf) == "accepted"@ <==> vf.len() == 0 && rf.len() == 0,
        spec_status(vf, rf) == "rejected"@ <==> !(vf.len() == 0 && rf.len() == 0),
{
    reveal_strlit("accepted");
    reveal_strlit("rejected");
    assert("accepted"@[0] == 'a' && "rejected"@[0] == 'r');
}

fn render_status(accepted: bool) -> (r: String)
    ensures
        accepted ==> r@ == "accepted"@,
        !accepted ==> r@ == "rejected"@,
{
    if accepted {
        String::from_str("accepted")
    } else {
        String::from_str("rejected")
    }
}

/// The directory that holds recommendation records and briefings.
pub open spec fn spec_reports_dir(root: Seq<char>) -> Seq<char> {
    root + "/official/reports"@
}

/// The directory that holds audit manifests.
pub open spec fn spec_manifests_dir(root: Seq<char>) -> Seq<char> {
    root + "/official/manifests"@
}

/// The recommendation record's path, keyed by ticker and message id.
pub open spec fn spec_recommendation_path(root: Seq<char>, ticker: Seq<char>, mid: Seq<char>) -> Seq<
    char,
> {
    root + "/official/reports/recommendation_"@ + ticker + "_"@ + mid + ".json"@
}

/// The audit manifest's path, keyed by message id.
pub open spec fn spec_manifest_path(root: Seq<char>, mid: Seq<char>) -> Seq<char> {
    root + "/official/manifests/manifest_"@ + mid + ".json"@
}

/// The daily briefing's path, keyed by calendar date.
pub open spec fn spec_briefing_path(root: Seq<char>, date: Seq<char>) -> Seq<char> {
    root + "/official/reports/daily_briefing_"@ + date + ".md"@
}

/// Re-processing a message writes to a path that depends only on the
/// ticker and the message id, so the earlier record is overwritten,
/// never duplicated.
pub proof fn lemma_recommendation_path_keyed(
    m1: &SignalMessage,
    m2: &SignalMessage,
    root: Seq<char>,
)
    requires
        m1.ticker@ == m2.ticker@,
        m1.message_id@ == m2.message_id@,
    ensures
        spec_recommendation_path(root, m1.ticker@, m1.message_id@) == spec_recommendation_path(
            root,
            m2.ticker@,
            m2.message_id@,
        ),
        spec_manifest_path(root, m1.message_id@) == spec_manifest_path(root, m2.message_id@),
{
}

/// One artifact reference rendered as a two-element JSON array.
pub open spec fn artifact_item(a: ArtifactRefV) -> Seq<char> {
    "["@ + json_string(a.path) + ", "@ + json_string(a.hash) + "]"@
}

/// All artifact references, each rendered as its array item.
pub open spec fn artifact_items(arts: Seq<ArtifactRefV>) -> Seq<Seq<char>> {
    arts.map_values(|a: ArtifactRefV| artifact_item(a))
}

fn render_artifact_item(a: &ArtifactRef) -> (r: String)
    ensures
        r@ == artifact_item(a@),
{
    let mut acc = String::from_str("[");
    acc.append(render_json_string(a.path.as_str()).as_str());
    acc.append(", ");
    acc.append(render_json_string(a.hash.as_str()).as_str());
    acc.append("]");
    proof {
        assert(acc@ =~= artifact_item(a@));
    }
    acc
}

fn render_artifacts_array(arts: &Vec<ArtifactRef>) -> (r: String)
    ensures
        r@ == array_block(artifact_items(arts.deep_view())),
{
    let ghost dv = arts.deep_view();
    let mut rendered: Vec<String> = Vec::new();
    let mut i: usize = 0;
    while i < arts.len()
        invariant
            dv == arts.deep_view(),
            dv.len() == arts.len(),
            i <= arts.len(),
            rendered.deep_view() =~= artifact_items(dv).take(i as int),
        decreases arts.len() - i,
    {
        let item = render_artifact_item(&arts[i]);
        let ghost prev = rendered.deep_view();
        let ghost item_view = item@;
        proof {
            assert(dv[i as int] == arts@[i as int]@);
        }
        rendered.push(item);
        proof {
            assert forall|j: int| 0 <= j < prev.len() implies rendered.deep_view()[j] == prev[j] by {
                assert(rendered@[j] == rendered@.drop_last()[j]);
            }
            assert(rendered.deep_view() =~= prev.push(item_view));
            assert(rendered.deep_view() =~= artifact_items(dv).take(i + 1 as int));
        }
        i += 1;
    }
    proof {
        assert(rendered.deep_view() =~= artifact_items(dv));
    }
    render_array_block(&rendered)
}

/// The full text of the Official Recommendation Record.
pub open spec fn spec_recommendation_json(
    msg: &SignalMessage,
    config: &Config,
    vf: Seq<Seq<char>>,
    rf: Seq<Seq<char>>,
    arts: Seq<ArtifactRefV>,
) -> Seq<char> {
    "{\n  \"type\": \"OfficialRecommendation\",\n  \"message_id\": "@ + json_string(msg.message_id@)
        + ",\n  \"ticker\": "@ + json_string(msg.ticker@) + ",\n  \"signal\": "@ + json_string(
        msg.signal@,
    ) + ",\n  \"probability\": "@ + fixed2_str_i64(msg.probability as int) + ",\n  \"status\": "@
        + json_string(spec_status(vf, rf)) + ",\n  \"execution_mode\": "@ + json_string(
        config.execution_mode@,
    ) + ",\n  \"validity_failures\": "@ + array_block(json_string_items(vf))
        + ",\n  \"risk_failures\": "@ + array_block(json_string_items(rf))
        + ",\n  \"rationale\": "@ + json_string(msg.rationale@) + ",\n  \"artifacts\": "@
        + array_block(artifact_items(arts)) + "\n}"@
}

/// Composes the Official Recommendation Record.
pub fn compose_recommendation(
    msg: &SignalMessage,
    config: &Config,
    validity_failures: &Vec<String>,
    risk_failures: &Vec<String>,
    artifacts: &Vec<ArtifactRef>,
) -> (r: String)
    ensures
        r@ == spec_recommendation_json(
            msg,
            config,
            validity_failures.deep_view(),
            risk_failures.deep_view(),
            artifacts.deep_view(),
        ),
{
    let ghost vf = validity_failures.deep_view();
    let ghost rf = risk_failures.deep_view();
    let accepted = validity_failures.len() == 0 && risk_failures.len() == 0;
    proof {
        assert(vf.len() == validity_failures@.len());
        assert(rf.len() == risk_failures@.len());
    }
    let status = render_status(accepted);
    let mut acc = String::from_str(
        "{\n  \"type\": \"OfficialRecommendation\",\n  \"message_id\": ",
    );
    acc.append(render_json_string(msg.message_id.as_str()).as_str());
    acc.append(",\n  \"ticker\": ");
    acc.append(render_json_string(msg.ticker.as_str()).as_str());
    acc.append(",\n  \"signal\": ");
    acc.append(render_json_string(msg.signal.as_str()).as_str());
    acc.append(",\n  \"probability\": ");
    acc.append(render_fixed2_i64(msg.probability).as_str());
    acc.append(",\n  \"status\": ");
    acc.append(render_json_string(status.as_str()).as_str());
    acc.append(",\n  \"execution_mode\": ");
    acc.append(render_json_string(config.execution_mode.as_str()).as_str());
    acc.append(",\n  \"validity_failures\": ");
    acc.append(render_string_array(validity_failures).as_str());
    acc.append(",\n  \"risk_failures\": ");
    acc.append(render_string_array(risk_failures).as_str());
    acc.append(",\n  \"rationale\": ");
    acc.append(render_json_string(msg.rationale.as_str()).as_str());
    acc.append(",\n  \"artifacts\": ");
    acc.append(render_artifacts_array(artifacts).as_str());
    acc.append("\n}");
    proof {
        assert(status@ == spec_status(vf, rf));
        assert(acc@ =~= spec_recommendation_json(msg, config, vf, rf, artifacts.deep_view()));
    }
    acc
}

/// The full text of the Audit Manifest: the artifact references, the
/// digest of the recommendation text, and a snapshot of the active
/// gate configuration.
pub open spec fn spec_manifest_json(
    msg: &SignalMessage,
    config: &Config,
    arts: Seq<ArtifactRefV>,
    output_hash: Seq<char>,
) -> Seq<char> {
    "{\n  \"type\": \"AuditManifest\",\n  \"message_id\": "@ + json_string(msg.message_id@)
        + ",\n  \"artifacts\": "@ + array_block(artifact_items(arts)) + ",\n  \"output_hash\": "@
        + json_string(output_hash) + ",\n  \"config\": {\n    \"min_sample_size\": "@ + dec_str(
        config.min_sample_size as int,
    ) + ",\n    \"min_win_rate\": "@ + fixed2_str_i64(config.min_win_rate as int)
        + ",\n    \"max_position_cap\": "@ + fixed2_str_i64(config.max_position_cap as int)
        + ",\n    \"max_gross_exposure\": "@ + fixed2_str_i64(config.max_gross_exposure as int)
        + ",\n    \"execution_mode\": "@ + json_string(config.execution_mode@) + "\n  }\n}"@
}

/// Composes the Audit Manifest for a recommendation whose composed
/// text hashes to `output_hash`.
pub fn compose_manifest(
    msg: &SignalMessage,
    config: &Config,
    artifacts: &Vec<ArtifactRef>,
    output_hash: &str,
) -> (r: String)
    ensures
        r@ == spec_manifest_json(msg, config, artifacts.deep_view(), output_hash@),
{
    let mut acc = String::from_str("{\n  \"type\": \"AuditManifest\",\n  \"message_id\": ");
    acc.append(render_json_string(msg.message_id.as_str()).as_str());
    acc.append(",\n  \"artifacts\": ");
    acc.append(render_artifacts_array(artifacts).as_str());
    acc.append(",\n  \"output_hash\": ");
    acc.append(render_json_string(output_hash).as_str());
    acc.append(",\n  \"config\": {\n    \"min_sample_size\": ");
    acc.append(render_u64(config.min_sample_size as u64).as_str());
    acc.append(",\n    \"min_win_rate\": ");
    acc.append(render_fixed2_i64(config.min_win_rate).as_str());
    acc.append(",\n    \"max_position_cap\": ");
    acc.append(render_fixed2_i64(config.max_position_cap).as_str());
    acc.append(",\n    \"max_gross_exposure\": ");
    acc.append(render_fixed2_i64(config.max_gross_exposure).as_str());
    acc.append(",\n    \"execution_mode\": ");
    acc.append(render_json_string(config.execution_mode.as_str()).as_str());
    acc.append("\n  }\n}");
    proof {
        assert(acc@ =~= spec_manifest_json(msg, config, artifacts.deep_view(), output_hash@));
    }
    acc
}

/// The special broadcast message that produces a daily briefing.
pub open spec fn spec_is_market_brief(msg: &SignalMessage) -> bool {
    msg.signal@ == "INFO"@ && msg.ticker@ == "MARKET_BRIEF"@
}

/// The text of the daily briefing document.
pub open spec fn spec_briefing_text(date: Seq<char>, rationale: Seq<char>, mid: Seq<char>) -> Seq<
    char,
> {
    "# ARCOS Daily Briefing ("@ + date + ")\n\n"@ + rationale + "\n\nAudit Reference: "@ + mid
        + "\n"@
}

/// Composes the daily briefing document for the given calendar date.
pub fn compose_briefing(date: &str, msg: &SignalMessage) -> (r: String)
    ensures
        r@ == spec_briefing_text(date@, msg.rationale@, msg.message_id@),
{
    let mut acc = String::from_str("# ARCOS Daily Briefing (");
    acc.append(date);
    acc.append(")\n\n");
    acc.append(msg.rationale.as_str());
    acc.append("\n\nAudit Reference: ");
    acc.append(msg.message_id.as_str());
    acc.append("\n");
    proof {
        assert(acc@ =~= spec_briefing_text(date@, msg.rationale@, msg.message_id@));
    }
    acc
}

/// Relies on chrono's `Utc::now`, formatted as `%Y-%m-%d`, for the
/// current calendar date; the result depends on the clock, so nothing
/// is assumed of it.
#[verifier::external_body]
pub fn today() -> (r: String) {
    chrono::Utc::now().format("%Y-%m-%d").to_string()
}

/// A daily briefing document: its path and its full text.
pub struct BriefingDoc {
    pub path: String,
    pub text: String,
}

/// Everything the audit writer decides for one message: the decision
/// status, the output paths, and the exact texts to persist. The
/// caller writes `recommendation_text` to `recommendation_path`,
/// `manifest_text` to `manifest_path`, and the briefing when present,
/// creating the two directories first.
pub struct AuditPlan {
    pub accepted: bool,
    pub status: String,
    pub reports_dir: String,
    pub manifests_dir: String,
    pub recommendation_path: String,
    pub recommendation_text: String,
    pub manifest_path: String,
    pub manifest_text: String,
    pub briefing: Option<BriefingDoc>,
}

fn join_path(root: &str, tail: &str) -> (r: String)
    ensures
        r@ == root@ + tail@,
{
    let mut acc = String::from_str(root);
    acc.append(tail);
    acc
}

/// Composes the complete audit output for one gated message, dated
/// `today` (the caller supplies the current calendar date).
pub fn plan_audit(
    config: &Config,
    msg: &SignalMessage,
    validity_failures: &Vec<String>,
    risk_failures: &Vec<String>,
    artifacts: &Vec<ArtifactRef>,
    today: &str,
) -> (r: AuditPlan)
    ensures
        r.accepted <==> validity_failures.deep_view().len() == 0 && risk_failures.deep_view().len()
            == 0,
        r.status@ == spec_status(validity_failures.deep_view(), risk_failures.deep_view()),
        r.reports_dir@ == spec_reports_dir(config.workspace_root@),
        r.manifests_dir@ == spec_manifests_dir(config.workspace_root@),
        r.recommendation_path@ == spec_recommendation_path(
            config.workspace_root@,
            msg.ticker@,
            msg.message_id@,
        ),
        r.recommendation_text@ == spec_recommendation_json(
            msg,
            config,
            validity_failures.deep_view(),
            risk_failures.deep_view(),
            artifacts.deep_view(),
        ),
        r.manifest_path@ == spec_manifest_path(config.workspace_root@, msg.message_id@),
        r.manifest_text@ == spec_manifest_json(
            msg,
            config,
            artifacts.deep_view(),
            sha256_hex_of(
                encode_utf8(
                    spec_recommendation_json(
                        msg,
                        config,
                        validity_failures.deep_view(),
                        risk_failures.deep_view(),
                        artifacts.deep_view(),
                    ),
                ),
            ),
        ),
        r.briefing is Some <==> spec_is_market_brief(msg),
        r.briefing is Some ==> r.briefing->0.path@ == spec_briefing_path(
            config.workspace_root@,
            today@,
        ) && r.briefing->0.text@ == spec_briefing_text(today@, msg.rationale@, msg.message_id@),
{
    let ghost vf = validity_failures.deep_view();
    let ghost rf = risk_failures.deep_view();
    let accepted = validity_failures.len() == 0 && risk_failures.len() == 0;
    proof {
        assert(vf.len() == validity_failures@.len());
        assert(rf.len() == risk_failures@.len());
    }
    let status = render_status(accepted);
    let recommendation_text = compose_recommendation(
        msg,
        config,
        validity_failures,
        risk_failures,
        artifacts,
    );
    let output_hash = sha256_hex(recommendation_text.as_str().as_bytes());
    let manifest_text = compose_manifest(msg, config, artifacts, output_hash.as_str());

    let reports_dir = join_path(config.workspace_root.as_str(), "/official/reports");
    let manifests_dir = join_path(config.workspace_root.as_str(), "/official/manifests");

    let mut recommendation_path = join_path(
        config.workspace_root.as_str(),
        "/official/reports/recommendation_",
    );
    recommendation_path.append(msg.ticker.as_str());
    recommendation_path.append("_");
    recommendation_path.append(msg.message_id.as_str());
    recommendation_path.append(".json");

    let mut manifest_path = join_path(config.workspace_root.as_str(), "/official/manifests/manifest_");
    manifest_path.append(msg.message_id.as_str());
    manifest_path.append(".json");

    let is_brief = str_eq(msg.signal.as_str(), "INFO") && str_eq(
        msg.ticker.as_str(),
        "MARKET_BRIEF",
    );
    let briefing = if is_brief {
        let mut briefing_path = join_path(
            config.workspace_root.as_str(),
            "/official/reports/daily_briefing_",
        );
        briefing_path.append(today);
        briefing_path.append(".md");
        let text = compose_briefing(today, msg);
        proof {
            assert(briefing_path@ =~= spec_briefing_path(config.workspace_root@, today@));
        }
        Some(BriefingDoc { path: briefing_path, text })
    } else {
        None
    };

    proof {
        assert(recommendation_path@ =~= spec_recommendation_path(
            config.workspace_root@,
            msg.ticker@,
            msg.message_id@,
        ));
        assert(manifest_path@ =~= spec_manifest_path(config.workspace_root@, msg.message_id@));
    }

    AuditPlan {
        accepted,
        status,
        reports_dir,
        manifests_dir,
        recommendation_path,
        recommendation_text,
        manifest_path,
        manifest_text,
        briefing,
    }
}

} // verus!
