//! Verified core of a crypto price "sonifier": a tool that replays a month of
//! daily closing prices as an animated chart, a tone per day, and a reacting
//! mascot image.
//!
//! The library holds everything that decides or computes: collapsing raw
//! timestamped samples into one price per calendar day, the playback cursor
//! and its tick gating, the round-robin choice of reaction images, the
//! fixed-point entrance animation, the tone pitch rule, and the page router.
//! Window management, HTTP, audio output and image decoding live outside, and
//! hand the library plain values.

pub mod animation;
pub mod chart;
pub mod daily;
pub mod images;
pub mod router;
pub mod sequencer;
pub mod tone;
