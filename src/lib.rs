//! The core of an EGL implementation: displays owned by a registry behind
//! handles that are never reused, the entry points that create, initialize
//! and terminate them, and the severity-filtered routing of diagnostic
//! messages to a registered callback.

pub mod display;
pub mod egl;
pub mod egl_khr_debug;
pub mod gles;
