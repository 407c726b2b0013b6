//! Bootstrap logic for a desktop application shell.
//!
//! The shell itself is a thin layer over a host GUI framework: it registers a
//! fixed set of plugins (a logging plugin in debug builds only, then the
//! filesystem, dialog and process plugins) and hands control to the host's
//! blocking run loop.  Everything this crate can decide — which plugin to
//! register next, what to do when a registration fails, how the process must
//! end when the run loop cannot start — is modelled here as a small state
//! machine with verified contracts; an unverified driver performs the actual
//! framework calls and reports their outcomes back as events.

pub mod machine;
pub mod plan;
pub mod trace;
