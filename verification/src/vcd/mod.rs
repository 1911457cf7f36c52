//! Reading a Value Change Dump.

pub mod grammar;
pub mod id_map;
pub mod parser;
