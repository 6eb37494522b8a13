//! Core of a tray-resident desktop shell: the placement engine for a
//! cursor-anchored overlay window, the overlay lifecycle state machine,
//! and the decision logic of the backend process supervisor.
//!
//! Window creation, subprocess spawning and JSON decoding are performed by
//! the host binary; this crate owns every decision those actions depend on.

pub mod commands;
pub mod lifecycle;
pub mod placement;
pub mod supervisor;
pub mod text;
