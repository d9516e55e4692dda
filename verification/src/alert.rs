//! The alert dispatcher's decision and formatting. The decision looks
//! only at the signal kind and the probability, never at a gating
//! result, so a rejected recommendation can still alert a human. The
//! transport itself is an external collaborator.

use vstd::prelude::*;
use vstd::string::StringExecFns;
use crate::message::SignalMessage;
use crate::message::spec_valid_message;
use crate::numfmt::dec_str;
use crate::numfmt::fixed2_str_i64;
use crate::numfmt::render_u64;
use crate::numfmt::render_fixed2_i64;
use crate::strutil::spec_starts_with;
use crate::strutil::spec_contains;
use crate::strutil::starts_with;
use crate::strutil::contains;
use crate::strutil::str_eq;

verus! {

/// Dispatch is owed exactly when the signal is `BUY_CANDIDATE`, is
/// exactly `INFO`, or begins with `URGENT`, and the probability
/// (in hundredths) exceeds 0.60.
pub open spec fn spec_should_dispatch(signal: Seq<char>, probability: int) -> bool {
    (signal == "BUY_CANDIDATE"@ || signal == "INFO"@ || spec_starts_with(signal, "URGENT"@))
        && probability > 60
}

/// Decides alert dispatch for a message, from the signal kind and the
/// probability alone.
pub fn should_dispatch(msg: &SignalMessage) -> (r: bool)
    ensures
        r == spec_should_dispatch(msg.signal@, msg.probability as int),
{
    (str_eq(msg.signal.as_str(), "BUY_CANDIDATE") || str_eq(msg.signal.as_str(), "INFO")
        || starts_with(msg.signal.as_str(), "URGENT")) && msg.probability > 60
}

/// The subject line: one of three mutually exclusive templates, each
/// opening with its emoji marker - market-brief briefing, urgent, or
/// standard signal with the probability as a whole percentage.
pub open spec fn spec_alert_subject(ticker: Seq<char>, signal: Seq<char>, probability: int) -> Seq<
    char,
> {
    if signal == "INFO"@ {
        "\u{1F3DB}\u{FE0F} ARCOS Briefing: Market Summary"@
    } else if spec_contains(signal, "URGENT"@) {
        "\u{1F6A8} URGENT: "@ + ticker + " Moving Fast!"@
    } else {
        "\u{1F680} ARCOS Signal: "@ + ticker + " ("@ + dec_str(probability) + "%)"@
    }
}

/// The plain-text body: ticker, signal, the probability as a
/// percentage with two decimal places, and the rationale.
pub open spec fn spec_alert_body(
    ticker: Seq<char>,
    signal: Seq<char>,
    probability: int,
    rationale: Seq<char>,
) -> Seq<char> {
    "Ticker: "@ + ticker + "\nSignal: "@ + signal + "\nConfidence: "@ + fixed2_str_i64(
        probability * 100,
    ) + "%\n\nREPORT:\n"@ + rationale
}

/// A formatted alert, ready for the outbound transport.
pub struct AlertEmail {
    pub subject: String,
    pub body: String,
}

/// Formats the alert email for a validated message.
pub fn compose_alert(msg: &SignalMessage) -> (r: AlertEmail)
    requires
        spec_valid_message(msg),
    ensures
        r.subject@ == spec_alert_subject(msg.ticker@, msg.signal@, msg.probability as int),
        r.body@ == spec_alert_body(
            msg.ticker@,
            msg.signal@,
            msg.probability as int,
            msg.rationale@,
        ),
{
    let subject = if str_eq(msg.signal.as_str(), "INFO") {
        String::from_str("\u{1F3DB}\u{FE0F} ARCOS Briefing: Market Summary")
    } else if contains(msg.signal.as_str(), "URGENT") {
        let mut acc = String::from_str("\u{1F6A8} URGENT: ");
        acc.append(msg.ticker.as_str());
        acc.append(" Moving Fast!");
        proof {
            assert(acc@ =~= spec_alert_subject(msg.ticker@, msg.signal@, msg.probability as int));
        }
        acc
    } else {
        let mut acc = String::from_str("\u{1F680} ARCOS Signal: ");
        acc.append(msg.ticker.as_str());
        acc.append(" (");
        acc.append(render_u64(msg.probability as u64).as_str());
        acc.append("%)");
        proof {
            assert(acc@ =~= spec_alert_subject(msg.ticker@, msg.signal@, msg.probability as int));
        }
        acc
    };
    let mut body = String::from_str("Ticker: ");
    body.append(msg.ticker.as_str());
    body.append("\nSignal: ");
    body.append(msg.signal.as_str());
    body.append("\nConfidence: ");
    body.append(render_fixed2_i64(msg.probability * 100).as_str());
    body.append("%\n\nREPORT:\n");
    body.append(msg.rationale.as_str());
    proof {
        assert(body@ =~= spec_alert_body(
            msg.ticker@,
            msg.signal@,
            msg.probability as int,
            msg.rationale@,
        ));
    }
    AlertEmail { subject, body }
}

} // verus!
