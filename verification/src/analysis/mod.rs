//! Analysis triggered by component completions.

pub mod analysis_trigger_handler;
