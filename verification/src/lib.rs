//! ARCOS: a trading-signal gating pipeline.
//!
//! The library consumes decoded signal messages, applies a statistical
//! validity gate and a portfolio risk gate, composes the audit artifacts
//! (recommendation record, audit manifest, optional daily briefing),
//! maintains the paper-trading ledger, and decides alert dispatch.
//! Real quantities (probabilities, win rates, exposures, weights) are
//! carried as fixed-point integers in hundredths.

pub mod alert;
pub mod artifacts;
pub mod audit;
pub mod config;
pub mod gates;
pub mod json;
pub mod ledger;
pub mod message;
pub mod numfmt;
pub mod pipeline;
pub mod strutil;
