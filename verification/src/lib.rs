//! Waveform model for Value Change Dump traces: parsing, radix formatting,
//! time-indexed queries and view navigation.

pub mod bits;
pub mod command_mode;
pub mod hex;
pub mod keys;
pub mod radix;
pub mod text;
pub mod value;
pub mod vcd;
pub mod waveform;
pub mod config;
pub mod layout;
pub mod marker;
pub mod state;
pub mod navigation;
pub mod input;
pub mod commands;
pub mod ui;
pub mod fuzzy_finder;
pub mod cli;
