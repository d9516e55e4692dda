//! The decoded signal message and the validation that every message
//! must pass before any gate runs. Probabilities and win rates are
//! fixed-point values in hundredths (`72` stands for `0.72`).

use vstd::prelude::*;
use vstd::string::StringExecFns;
use crate::strutil::spec_is_blank;
use crate::strutil::is_blank;

verus! {

pub struct SignalMessage {
    /// Opaque idempotency and audit key.
    pub message_id: String,
    pub ticker: String,
    /// Signal kind: `"BUY_CANDIDATE"`, `"INFO"`, values prefixed
    /// `"URGENT"`, and an open-ended remainder.
    pub signal: String,
    /// Probability in hundredths; valid messages satisfy `0 ..= 100`.
    pub probability: i64,
    /// Win rate in hundredths; `0` means "not supplied".
    pub win_rate: i64,
    /// Carried through from the wire format; unused by gating.
    pub uncertainty: i64,
    pub sample_size: u32,
    pub rationale: String,
    /// Opaque provenance string; not verified by the pipeline.
    pub signature: String,
    pub tags: Vec<String>,
}

/// A message is valid when its ticker is not blank and its probability
/// lies in the unit interval.
pub open spec fn spec_valid_message(m: &SignalMessage) -> bool {
    !spec_is_blank(m.ticker@) && 0 <= m.probability <= 100
}

/// Checks a decoded message before any gate runs. Returns the exact
/// failure reason for the first violated rule: a blank ticker, then an
/// out-of-range probability.
pub fn validate_message(msg: &SignalMessage) -> (r: Result<(), String>)
    ensures
        r is Ok <==> spec_valid_message(msg),
        spec_is_blank(msg.ticker@) ==> r is Err && r->Err_0@ == "Ticker missing"@,
        !spec_is_blank(msg.ticker@) && !(0 <= msg.probability <= 100) ==> r is Err
            && r->Err_0@ == "Probability out of bounds"@,
{
    if is_blank(msg.ticker.as_str()) {
        Err(String::from_str("Ticker missing"))
    } else if msg.probability < 0 || msg.probability > 100 {
        Err(String::from_str("Probability out of bounds"))
    } else {
        Ok(())
    }
}

} // verus!
