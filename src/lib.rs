//! Back/forward navigation history with branch pruning.
mod history;
pub mod laws;

pub use history::{History, HistoryModel};
