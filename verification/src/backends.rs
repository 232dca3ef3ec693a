//! Per-backend display staging logic.
//!
//! Each backend keeps an in-memory model of the outputs it manages; edits are
//! staged there and flushed by the platform layer. The [`overlap`] module
//! holds the geometric validation shared by all backends.

/// Shared geometric overlap detection for display topology validation.
pub mod overlap;

/// Waking inactive outputs and restoring them afterwards.
pub mod wake;

/// Linux display management backends.
pub mod linux;

/// Stub backend for platforms without display support.
pub mod unsupported;

/// Windows display management backends (CCD + GDI).
pub mod windows;
