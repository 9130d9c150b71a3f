//! Username availability probing: site classification, logo derivation and a
//! bounded-parallel run that hands out batches of probes and collects results.
pub mod cliargs;
pub mod engine;
pub mod events;
pub mod logo;
pub mod report;
pub mod site;
pub mod templates;
