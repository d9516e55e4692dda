//! The paper-trading ledger: an append-only list of simulated trades,
//! appended to only in paper execution mode, and rendered whole for
//! the read-modify-write persistence cycle.

use vstd::prelude::*;
use vstd::string::StringExecFns;
use crate::config::Config;
use crate::config::spec_is_paper_mode;
use crate::json::array_block;
use crate::json::json_string;
use crate::json::render_array_block;
use crate::json::render_json_string;
use crate::message::SignalMessage;
use crate::numfmt::fixed2_str_i64;
use crate::numfmt::render_fixed2_i64;

verus! {

/// One simulated trade. The message id serves as a surrogate
/// timestamp; the probability is a fixed-point value in hundredths.
pub struct TradeEntry {
    pub ticker: String,
    pub signal: String,
    pub probability: i64,
    pub timestamp: String,
}

/// The mathematical value of a [`TradeEntry`].
pub struct TradeEntryV {
    pub ticker: Seq<char>,
    pub signal: Seq<char>,
    pub probability: int,
    pub timestamp: Seq<char>,
}

impl View for TradeEntry {
    type V = TradeEntryV;

    open spec fn view(&self) -> TradeEntryV {
        TradeEntryV {
            ticker: self.ticker@,
            signal: self.signal@,
            probability: self.probability as int,
            timestamp: self.timestamp@,
        }
    }
}

impl DeepView for TradeEntry {
    type V = TradeEntryV;

    open spec fn deep_view(&self) -> TradeEntryV {
        self.view()
    }
}

/// The persisted ledger value.
pub struct PaperLedger {
    pub trades: Vec<TradeEntry>,
}

/// The trade entry recorded for a message.
pub open spec fn spec_trade_of(msg: &SignalMessage) -> TradeEntryV {
    TradeEntryV {
        ticker: msg.ticker@,
        signal: msg.signal@,
        probability: msg.probability as int,
        timestamp: msg.message_id@,
    }
}

impl PaperLedger {
    /// The empty ledger, also synthesized when the persisted ledger is
    /// absent or unparseable.
    pub fn empty() -> (r: PaperLedger)
        ensures
            r.trades.deep_view() == Seq::<TradeEntryV>::empty(),
    {
        let r = PaperLedger { trades: Vec::new() };
        proof {
            assert(r.trades.deep_view() =~= Seq::<TradeEntryV>::empty());
        }
        r
    }
}

/// Appends the message's trade to the ledger when the execution mode
/// is `paper`; in any other mode the ledger is left untouched.
pub fn append_if_paper(config: &Config, msg: &SignalMessage, ledger: &mut PaperLedger)
    ensures
        spec_is_paper_mode(config) ==> final(ledger).trades.deep_view() == old(
            ledger,
        ).trades.deep_view().push(spec_trade_of(msg)),
        !spec_is_paper_mode(config) ==> *final(ledger) == *old(ledger),
{
    if !config.is_paper_mode() {
        return ;
    }
    let ghost prev = ledger.trades.deep_view();
    let entry = TradeEntry {
        ticker: msg.ticker.clone(),
        signal: msg.signal.clone(),
        probability: msg.probability,
        timestamp: msg.message_id.clone(),
    };
    let ghost entry_view = entry.deep_view();
    proof {
        assert(entry_view == spec_trade_of(msg));
    }
    ledger.trades.push(entry);
    proof {
        assert forall|j: int| 0 <= j < prev.len() implies ledger.trades.deep_view()[j] == prev[j]
        by {
            assert(ledger.trades@[j] == ledger.trades@.drop_last()[j]);
        }
        assert(ledger.trades.deep_view() =~= prev.push(entry_view));
    }
}

/// One trade rendered as a pretty-printed JSON object.
pub open spec fn trade_item(t: TradeEntryV) -> Seq<char> {
    "{\n      \"ticker\": "@ + json_string(t.ticker) + ",\n      \"signal\": "@ + json_string(
        t.signal,
    ) + ",\n      \"probability\": "@ + fixed2_str_i64(t.probability)
        + ",\n      \"timestamp\": "@ + json_string(t.timestamp) + "\n    }"@
}

/// All trades, each rendered as its array item.
pub open spec fn trade_items(ts: Seq<TradeEntryV>) -> Seq<Seq<char>> {
    ts.map_values(|t: TradeEntryV| trade_item(t))
}

/// The full text of the persisted ledger document.
pub open spec fn spec_ledger_json(ts: Seq<TradeEntryV>) -> Seq<char> {
    "{\n  \"type\": \"PaperLedger\",\n  \"trades\": "@ + array_block(trade_items(ts)) + "\n}"@
}

fn render_trade_item(t: &TradeEntry) -> (r: String)
    ensures
        r@ == trade_item(t@),
{
    let mut acc = String::from_str("{\n      \"ticker\": ");
    acc.append(render_json_string(t.ticker.as_str()).as_str());
    acc.append(",\n      \"signal\": ");
    acc.append(render_json_string(t.signal.as_str()).as_str());
    acc.append(",\n      \"probability\": ");
    acc.append(render_fixed2_i64(t.probability).as_str());
    acc.append(",\n      \"timestamp\": ");
    acc.append(render_json_string(t.timestamp.as_str()).as_str());
    acc.append("\n    }");
    proof {
        assert(acc@ =~= trade_item(t@));
    }
    acc
}

/// Renders the whole ledger for persistence.
pub fn render_ledger(ledger: &PaperLedger) -> (r: String)
    ensures
        r@ == spec_ledger_json(ledger.trades.deep_view()),
{
    let ghost dv = ledger.trades.deep_view();
    let mut rendered: Vec<String> = Vec::new();
    let mut i: usize = 0;
    while i < ledger.trades.len()
        invariant
            dv == ledger.trades.deep_view(),
            dv.len() == ledger.trades.len(),
            i <= ledger.trades.len(),
            rendered.deep_view() =~= trade_items(dv).take(i as int),
        decreases ledger.trades.len() - i,
    {
        let item = render_trade_item(&ledger.trades[i]);
        let ghost prev = rendered.deep_view();
        let ghost item_view = item@;
        proof {
            assert(dv[i as int] == ledger.trades@[i as int]@);
        }
        rendered.push(item);
        proof {
            assert forall|j: int| 0 <= j < prev.len() implies rendered.deep_view()[j] == prev[j] by {
                assert(rendered@[j] == rendered@.drop_last()[j]);
            }
            assert(rendered.deep_view() =~= prev.push(item_view));
            assert(rendered.deep_view() =~= trade_items(dv).take(i + 1 as int));
        }
        i += 1;
    }
    proof {
        assert(rendered.deep_view() =~= trade_items(dv));
    }
    let mut acc = String::from_str("{\n  \"type\": \"PaperLedger\",\n  \"trades\": ");
    acc.append(render_array_block(&rendered).as_str());
    acc.append("\n}");
    proof {
        assert(acc@ =~= spec_ledger_json(dv));
    }
    acc
}

} // verus!
