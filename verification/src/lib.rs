//! Staged command orchestration for an interactive bare-metal provisioning
//! pipeline: ordered stages of opaque shell steps, a fail-fast sequencer,
//! storage-device selection, and the recipe builders that template each
//! stage's commands on the operator's choices.
//!
//! The library holds the sequencing logic and the recipes; spawning the
//! subordinate shell, prompting the operator and reading directories are left
//! to the thin binary built around it.

pub mod catalog;
pub mod chroot;
pub mod pipeline;
pub mod sequencer;
pub mod step;
pub mod text;
pub mod zfs;
