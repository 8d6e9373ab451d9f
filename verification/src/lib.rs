//! A bootstrap sequencer for a plugin-based application shell.
//!
//! At startup the host application registers a fixed list of capability
//! plugins onto its application handle: logging (only when the debug flag
//! is set), then filesystem, dialog, shell and OS paths, in that order.
//! Registration is fail-fast: the first attach failure aborts the rest of
//! the sequence and is reported with the name of the plugin that failed.
//!
//! The [`plugin`] module defines the plugins and their fixed attach order;
//! the [`sequencer`] module drives the sequence and states its guarantees.

pub mod plugin;
pub mod sequencer;
