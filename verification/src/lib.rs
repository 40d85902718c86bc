//! Schema DDL conversion between SQL dialects through a small intermediate representation.

pub mod text;
pub mod ir;
pub mod v2;
pub mod emit;
pub mod sqlmodel;
pub mod sqlguard;
pub mod parse;
pub mod names;
pub mod diff;
pub mod alter;
pub mod roundtrip;
pub mod typelaws;
pub mod emit_v2;
pub mod emit_postgres;
pub mod cli;
pub mod tui_logic;
pub mod tui_state;
