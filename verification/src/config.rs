//! The immutable pipeline configuration, constructed once at startup
//! from optional externally-supplied values and fixed defaults.
//! Threshold quantities are fixed-point values in hundredths
//! (`65` stands for a minimum win rate of `0.65`).

use vstd::prelude::*;
use vstd::string::StringExecFns;

verus! {

pub const DEFAULT_MIN_SAMPLE_SIZE: u32 = 30;

/// Default minimum win rate, in hundredths (0.65).
pub const DEFAULT_MIN_WIN_RATE: i64 = 65;

/// Default per-position weight cap, in hundredths (0.10).
pub const DEFAULT_MAX_POSITION_CAP: i64 = 10;

/// Default gross exposure cap, in hundredths (1.00).
pub const DEFAULT_MAX_GROSS_EXPOSURE: i64 = 100;

#[derive(Clone)]
pub struct Config {
    pub smtp_user: String,
    pub smtp_pass: String,
    pub alert_recipient: String,
    pub workspace_root: String,
    pub min_sample_size: u32,
    /// Minimum win rate, in hundredths.
    pub min_win_rate: i64,
    /// Per-position weight cap, in hundredths.
    pub max_position_cap: i64,
    /// Gross exposure cap, in hundredths.
    pub max_gross_exposure: i64,
    /// Execution mode: `"advisory"` or `"paper"`.
    pub execution_mode: String,
}

/// The configuration runs in paper-trading mode.
pub open spec fn spec_is_paper_mode(c: &Config) -> bool {
    c.execution_mode@ == "paper"@
}

/// Transport credentials and a recipient are all present, so alert
/// dispatch is enabled.
pub open spec fn spec_alerts_configured(c: &Config) -> bool {
    c.smtp_user@.len() > 0 && c.smtp_pass@.len() > 0 && c.alert_recipient@.len() > 0
}

impl Config {
    /// Builds the configuration from externally-supplied optional
    /// values, substituting the documented default wherever a value is
    /// absent. Credential fields default to empty, which disables
    /// alert dispatch.
    pub fn resolve(
        smtp_user: Option<String>,
        smtp_pass: Option<String>,
        alert_recipient: Option<String>,
        workspace_root: Option<String>,
        min_sample_size: Option<u32>,
        min_win_rate: Option<i64>,
        max_position_cap: Option<i64>,
        max_gross_exposure: Option<i64>,
        execution_mode: Option<String>,
    ) -> (r: Config)
        ensures
            r.smtp_user@ == (if smtp_user is Some {
                smtp_user->0@
            } else {
                Seq::<char>::empty()
            }),
            r.smtp_pass@ == (if smtp_pass is Some {
                smtp_pass->0@
            } else {
                Seq::<char>::empty()
            }),
            r.alert_recipient@ == (if alert_recipient is Some {
                alert_recipient->0@
            } else {
                Seq::<char>::empty()
            }),
            r.workspace_root@ == (if workspace_root is Some {
                workspace_root->0@
            } else {
                "workspace"@
            }),
            r.min_sample_size == (if min_sample_size is Some {
                min_sample_size->0
            } else {
                DEFAULT_MIN_SAMPLE_SIZE
            }),
            r.min_win_rate == (if min_win_rate is Some {
                min_win_rate->0
            } else {
                DEFAULT_MIN_WIN_RATE
            }),
            r.max_position_cap == (if max_position_cap is Some {
                max_position_cap->0
            } else {
                DEFAULT_MAX_POSITION_CAP
            }),
            r.max_gross_exposure == (if max_gross_exposure is Some {
                max_gross_exposure->0
            } else {
                DEFAULT_MAX_GROSS_EXPOSURE
            }),
            r.execution_mode@ == (if execution_mode is Some {
                execution_mode->0@
            } else {
                "advisory"@
            }),
    {
        Config {
            smtp_user: match smtp_user {
                Some(s) => s,
                None => String::new(),
            },
            smtp_pass: match smtp_pass {
                Some(s) => s,
                None => String::new(),
            },
            alert_recipient: match alert_recipient {
                Some(s) => s,
                None => String::new(),
            },
            workspace_root: match workspace_root {
                Some(s) => s,
                None => String::from_str("workspace"),
            },
            min_sample_size: match min_sample_size {
                Some(v) => v,
                None => DEFAULT_MIN_SAMPLE_SIZE,
            },
            min_win_rate: match min_win_rate {
                Some(v) => v,
                None => DEFAULT_MIN_WIN_RATE,
            },
            max_position_cap: match max_position_cap {
                Some(v) => v,
                None => DEFAULT_MAX_POSITION_CAP,
            },
            max_gross_exposure: match max_gross_exposure {
                Some(v) => v,
                None => DEFAULT_MAX_GROSS_EXPOSURE,
            },
            execution_mode: match execution_mode {
                Some(s) => s,
                None => String::from_str("advisory"),
            },
        }
    }

    /// Decides whether the pipeline runs in paper-trading mode.
    pub fn is_paper_mode(&self) -> (r: bool)
        ensures
            r == spec_is_paper_mode(self),
    {
        let paper = String::from_str("paper");
        self.execution_mode.eq(&paper)
    }

    /// Decides whether alert dispatch is enabled.
    pub fn alerts_configured(&self) -> (r: bool)
        ensures
            r == spec_alerts_configured(self),
    {
        !self.smtp_user.as_str().is_empty() && !self.smtp_pass.as_str().is_empty()
            && !self.alert_recipient.as_str().is_empty()
    }
}

} // verus!
