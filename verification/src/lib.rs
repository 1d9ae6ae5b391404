//! A last chance to clean up when the operating system ends the application.
//!
//! The library decides; it does no native work. [`service`] owns the state of
//! the hook, [`lifecycle`] is the state machine behind it, [`bridge`] lists
//! the native steps that install the observer, [`carrier`] turns application
//! handles into tokens that can cross the native boundary, and [`callback`]
//! is what happens when the platform calls: the cleanup is run once and,
//! however it ends, control goes back to the platform.

pub mod bridge;
pub mod callback;
pub mod carrier;
pub mod lifecycle;
pub mod service;
