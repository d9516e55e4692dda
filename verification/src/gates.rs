//! The two independent gating policies: the statistical Validity Gate
//! on the message itself, and the portfolio Risk Gate on the current
//! portfolio snapshot. Each produces a list of human-readable failure
//! reasons; the empty list is the canonical "pass" value.

use vstd::prelude::*;
use vstd::string::StringExecFns;
use crate::config::Config;
use crate::message::SignalMessage;
use crate::numfmt::dec_str;
use crate::numfmt::fixed2_str_i64;
use crate::numfmt::render_u64;
use crate::numfmt::render_fixed2_i64;

verus! {

/// The failure reason reported when the sample size is below the
/// configured minimum.
pub open spec fn sample_size_failure(ss: int, min: int) -> Seq<char> {
    "Sample size below minimum ("@ + dec_str(ss) + " < "@ + dec_str(min) + ")"@
}

/// The failure reason reported when a supplied win rate is below the
/// configured minimum.
pub open spec fn win_rate_failure(wr: int, min: int) -> Seq<char> {
    "Win rate below minimum ("@ + fixed2_str_i64(wr) + " < "@ + fixed2_str_i64(min) + ")"@
}

/// The Validity Gate's failure list: a sample-size failure when the
/// sample is too small, then a win-rate failure when a win rate was
/// supplied (non-zero) and is below the minimum. A win rate of exactly
/// zero means "not supplied" and skips the second rule.
pub open spec fn spec_validity_failures(ss: int, wr: int, min_ss: int, min_wr: int) -> Seq<
    Seq<char>,
> {
    (if ss < min_ss {
        seq![sample_size_failure(ss, min_ss)]
    } else {
        Seq::empty()
    }) + (if wr > 0 && wr < min_wr {
        seq![win_rate_failure(wr, min_wr)]
    } else {
        Seq::empty()
    })
}

/// Evaluates the Validity Gate for `msg` under `config`.
pub fn apply_validity_gate(msg: &SignalMessage, config: &Config) -> (r: Vec<String>)
    ensures
        r.deep_view() == spec_validity_failures(
            msg.sample_size as int,
            msg.win_rate as int,
            config.min_sample_size as int,
            config.min_win_rate as int,
        ),
        r.len() == 0 <==> msg.sample_size >= config.min_sample_size && !(0 < msg.win_rate
            < config.min_win_rate),
{
    let mut failures: Vec<String> = Vec::new();
    if msg.sample_size < config.min_sample_size {
        let mut text = String::from_str("Sample size below minimum (");
        text.append(render_u64(msg.sample_size as u64).as_str());
        text.append(" < ");
        text.append(render_u64(config.min_sample_size as u64).as_str());
        text.append(")");
        proof {
            assert(text@ =~= sample_size_failure(
                msg.sample_size as int,
                config.min_sample_size as int,
            ));
        }
        failures.push(text);
    }
    if msg.win_rate > 0 && msg.win_rate < config.min_win_rate {
        let mut text = String::from_str("Win rate below minimum (");
        text.append(render_fixed2_i64(msg.win_rate).as_str());
        text.append(" < ");
        text.append(render_fixed2_i64(config.min_win_rate).as_str());
        text.append(")");
        proof {
            assert(text@ =~= win_rate_failure(msg.win_rate as int, config.min_win_rate as int));
        }
        failures.push(text);
    }
    proof {
        let ghost expected = spec_validity_failures(
            msg.sample_size as int,
            msg.win_rate as int,
            config.min_sample_size as int,
            config.min_win_rate as int,
        );
        assert(failures.deep_view() =~= expected);
        assert(failures@.len() == failures.deep_view().len());
        if msg.sample_size >= config.min_sample_size && !(0 < msg.win_rate
            < config.min_win_rate) {
            assert(expected.len() == 0);
        } else {
            assert(expected.len() > 0);
        }
    }
    failures
}

/// A message that meets the sample-size minimum and whose win rate is
/// absent or meets the win-rate minimum passes the Validity Gate.
pub proof fn lemma_validity_gate_pass(ss: int, wr: int, min_ss: int, min_wr: int)
    requires
        ss >= min_ss,
        wr == 0 || wr >= min_wr,
    ensures
        spec_validity_failures(ss, wr, min_ss, min_wr) == Seq::<Seq<char>>::empty(),
{
    assert(spec_validity_failures(ss, wr, min_ss, min_wr) =~= Seq::<Seq<char>>::empty());
}

/// One position of the portfolio snapshot; the weight is a fixed-point
/// value in hundredths. Absent weights decode as zero.
pub struct Position {
    pub weight: i64,
}

impl DeepView for Position {
    type V = int;

    open spec fn deep_view(&self) -> int {
        self.weight as int
    }
}

/// The portfolio-state snapshot read fresh per message; gross exposure
/// is a fixed-point value in hundredths. An absent exposure decodes as
/// zero.
pub struct PortfolioSnapshot {
    pub gross: i64,
    pub positions: Vec<Position>,
}

/// The failure reason reported when gross exposure exceeds its cap.
pub open spec fn gross_failure(gross: int, max: int) -> Seq<char> {
    "Gross exposure "@ + fixed2_str_i64(gross) + " exceeds cap "@ + fixed2_str_i64(max)
}

/// The failure reason reported for one position whose weight exceeds
/// the per-position cap.
pub open spec fn position_failure(weight: int, cap: int) -> Seq<char> {
    "Position weight "@ + fixed2_str_i64(weight) + " exceeds cap "@ + fixed2_str_i64(cap)
}

/// The per-position failures among the first `i` weights, one per
/// offending position, in position order.
pub open spec fn position_failures(ws: Seq<int>, cap: int, i: int) -> Seq<Seq<char>>
    decreases i,
{
    if i <= 0 {
        Seq::empty()
    } else {
        position_failures(ws, cap, i - 1) + (if ws[i - 1] > cap {
            seq![position_failure(ws[i - 1], cap)]
        } else {
            Seq::empty()
        })
    }
}

/// The Risk Gate's failure list: a gross-exposure failure when the
/// snapshot's gross exposure exceeds its cap, then one failure per
/// position whose weight exceeds the per-position cap.
pub open spec fn spec_risk_failures(gross: int, ws: Seq<int>, max_gross: int, cap: int) -> Seq<
    Seq<char>,
> {
    (if gross > max_gross {
        seq![gross_failure(gross, max_gross)]
    } else {
        Seq::empty()
    }) + position_failures(ws, cap, ws.len() as int)
}

proof fn lemma_position_failures_empty(ws: Seq<int>, cap: int, i: int)
    requires
        i <= ws.len(),
    ensures
        position_failures(ws, cap, i).len() == 0 <==> forall|j: int| 0 <= j < i ==> ws[j] <= cap,
    decreases i,
{
    if i > 0 {
        lemma_position_failures_empty(ws, cap, i - 1);
    }
}

/// Evaluates the Risk Gate for the portfolio snapshot under `config`.
/// The inbound message plays no part: risk is a portfolio property.
pub fn apply_risk_engine(config: &Config, snapshot: &PortfolioSnapshot) -> (r: Vec<String>)
    ensures
        r.deep_view() == spec_risk_failures(
            snapshot.gross as int,
            snapshot.positions.deep_view(),
            config.max_gross_exposure as int,
            config.max_position_cap as int,
        ),
        r.len() == 0 <==> snapshot.gross <= config.max_gross_exposure && (forall|j: int|
            0 <= j < snapshot.positions.len() ==> snapshot.positions.deep_view()[j]
                <= config.max_position_cap),
{
    let ghost ws = snapshot.positions.deep_view();
    let mut failures: Vec<String> = Vec::new();
    if snapshot.gross > config.max_gross_exposure {
        let mut text = String::from_str("Gross exposure ");
        text.append(render_fixed2_i64(snapshot.gross).as_str());
        text.append(" exceeds cap ");
        text.append(render_fixed2_i64(config.max_gross_exposure).as_str());
        proof {
            assert(text@ =~= gross_failure(
                snapshot.gross as int,
                config.max_gross_exposure as int,
            ));
        }
        failures.push(text);
    }
    let ghost gross_part = if snapshot.gross > config.max_gross_exposure {
        seq![gross_failure(snapshot.gross as int, config.max_gross_exposure as int)]
    } else {
        Seq::<Seq<char>>::empty()
    };
    proof {
        assert(failures.deep_view() =~= gross_part);
    }
    let mut i: usize = 0;
    while i < snapshot.positions.len()
        invariant
            ws == snapshot.positions.deep_view(),
            ws.len() == snapshot.positions.len(),
            i <= snapshot.positions.len(),
            failures.deep_view() =~= gross_part + position_failures(
                ws,
                config.max_position_cap as int,
                i as int,
            ),
        decreases snapshot.positions.len() - i,
    {
        if snapshot.positions[i].weight > config.max_position_cap {
            let mut text = String::from_str("Position weight ");
            text.append(render_fixed2_i64(snapshot.positions[i].weight).as_str());
            text.append(" exceeds cap ");
            text.append(render_fixed2_i64(config.max_position_cap).as_str());
            let ghost prev = failures.deep_view();
            let ghost text_view = text@;
            proof {
                assert(ws[i as int] == snapshot.positions@[i as int].deep_view());
                assert(text_view =~= position_failure(ws[i as int], config.max_position_cap as int));
            }
            failures.push(text);
            proof {
                assert forall|j: int| 0 <= j < prev.len() implies failures.deep_view()[j] == prev[j]
                by {
                    assert(failures@[j] == failures@.drop_last()[j]);
                }
                assert(failures.deep_view() =~= prev.push(text_view));
            }
        }
        proof {
            assert(ws[i as int] == snapshot.positions@[i as int].deep_view());
            assert(failures.deep_view() =~= gross_part + position_failures(
                ws,
                config.max_position_cap as int,
                i + 1 as int,
            ));
        }
        i += 1;
    }
    proof {
        assert(failures.deep_view() =~= spec_risk_failures(
            snapshot.gross as int,
            ws,
            config.max_gross_exposure as int,
            config.max_position_cap as int,
        ));
        lemma_position_failures_empty(ws, config.max_position_cap as int, ws.len() as int);
        assert(failures.len() == failures.deep_view().len());
    }
    failures
}

/// A snapshot whose gross exposure is within its cap and whose every
/// position weight is within the per-position cap passes the Risk Gate.
pub proof fn lemma_risk_gate_pass(gross: int, ws: Seq<int>, max_gross: int, cap: int)
    requires
        gross <= max_gross,
        forall|j: int| 0 <= j < ws.len() ==> ws[j] <= cap,
    ensures
        spec_risk_failures(gross, ws, max_gross, cap) == Seq::<Seq<char>>::empty(),
{
    lemma_position_failures_empty(ws, cap, ws.len() as int);
    assert(spec_risk_failures(gross, ws, max_gross, cap) =~= Seq::<Seq<char>>::empty());
}

} // verus!
