//! Cycle handlers: the cycle lifecycle, its components, and its decision
//! documents.

pub mod model;
pub mod archive_cycle;
pub mod complete_cycle;
pub mod start_component;
pub mod navigate_component;
pub mod update_component_output;
pub mod regenerate_document;
pub mod generate_document;
pub mod update_document_from_edit;
pub mod branch_with_document;
pub mod branch_cycle;
pub mod create_cycle;
pub mod get_component;
pub mod get_cycle;
pub mod get_cycle_tree;
pub mod get_proact_tree_view;
