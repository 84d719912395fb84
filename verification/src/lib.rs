//! The presentation and synchronisation core of a single-queue renderer: it
//! decides which adapter, swapchain configuration and frame slot to use, and
//! in which order device objects are made, used and destroyed. The device
//! itself is driven by the caller, who performs each command that the core
//! hands out and reports what came of it.

pub mod error;
pub mod format;
pub mod surface;
pub mod device;
pub mod pass;
pub mod command;
pub mod sync;
pub mod swapchain;
pub mod recorder;
pub mod frame;
pub mod hal_state;
pub mod laws;
