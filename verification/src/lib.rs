//! Smooth volume fades for the default playback device.
//!
//! A fade never jumps: it moves the level in small equal steps with a short
//! pause after each. The library holds
//!
//! - the levels and amounts that fades work with ([`volume`]),
//! - the single-slot record of the level before the last mute, from which an
//!   unmute finds its way back ([`cache`]),
//! - the decisions of each fade, as a machine that asks its driver for one
//!   action at a time and never touches a device itself ([`fade`]),
//! - a bench with an ideal device, on which whole fades are run and what
//!   they come to is proved ([`bench`]).

pub mod volume;
pub mod cache;
pub mod fade;
pub mod bench;
