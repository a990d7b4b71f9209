//! Decision, repair, and pre-merge check logic of the estate control plane.

pub mod text;
pub mod ci;
pub mod digest;
pub mod paths;
pub mod decisions;
pub mod export_repair;
pub mod weight_index;
pub mod state_files;
pub mod suggest;
pub mod coverage;
pub mod apply_gate;
pub mod doctor;
pub mod strict;
pub mod enrich;
pub mod audit;
pub mod plan_review;
pub mod help;
pub mod help_pages;
pub mod feed;
pub mod convey;
pub mod formats;
