//! Acquisition of a GPU rendering context that is bound to no window.
//!
//! The platform work (enumerating devices, opening a display, querying
//! configurations, creating and activating a context, loading the graphics
//! functions) is done by a driver outside this crate. This crate holds every
//! decision of the sequence: which device and configuration are chosen, which
//! API profile is asked for and when the fallback is tried, in which order the
//! steps run, which failure is reported, and when a handle may be handed out.

pub mod error;
pub mod device;
pub mod config;
pub mod profile;
pub mod acquisition;
pub mod handle;
pub mod laws;
