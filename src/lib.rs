//! Provisioning and radio testing of serial-attached boards: the line-oriented
//! ping/RSSI protocol engine, with the planning around flashing and reporting.

pub mod chip;
pub mod numeric;
pub mod reframer;
pub mod expect;
pub mod link;
pub mod command;
pub mod search;
pub mod rssi;
pub mod sampler;
pub mod session;
pub mod text;
pub mod flashing;
pub mod registry;
pub mod cli;
pub mod report;
