//! In-memory registry and lifecycle tracker for installed mods.
//!
//! The crate models a catalog of mod records with versioned metadata,
//! a registry mapping mod ids to records, a registry of captured
//! process output, a per-download lifecycle state machine, and a
//! set-once application handle slot.

use vstd::prelude::*;

pub mod assoc;
pub mod catalog;
pub mod handle;
pub mod metadata;
pub mod lifecycle;
pub mod registry;
pub mod render;
pub mod terminal;

verus! {

/// Lowest metadata schema version this core accepts.
pub const MIN_METADATA_VERSION: u32 = 1;

/// Metadata schema version this core writes.
pub const CURRENT_METADATA_VERSION: u32 = 1;

} // verus!
