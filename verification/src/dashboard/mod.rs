//! Dashboard queries: read-only views that the dashboard reader assembles.

pub mod error;
pub mod compare_cycles;
pub mod get_component_detail;
pub mod get_dashboard_overview;
