//! Core of a single-instance scratchpad popup helper for a tiling window
//! manager.
//!
//! Two subsystems are verified here. The instance controller
//! ([`controller`]) owns the process-wide "is the UI created yet" and
//! "which command handler is armed" state and routes every externally
//! requested command to the one long-lived instance. The window resolution
//! pipeline ([`resolve`]) maps a window node, as reported by the
//! compositor, to a display label and an icon source through a chain of
//! fallback heuristics over a desktop-entry index.
//!
//! Everything that talks to the outside world — the compositor socket, the
//! `/proc` filesystem, the widget toolkit — lives outside this crate and
//! hands these modules plain values.

pub mod action;
pub mod controller;
pub mod desktop;
pub mod node;
pub mod resolve;
pub mod strings;
