use vstd::prelude::*;

pub mod actions;
pub mod checker;
pub mod checkers;
pub mod ranking;
pub mod report;
pub mod config;
pub mod scorer;
pub mod text;
pub mod tui;

verus! {
}
