//! Source supervision and frame delivery for a video restreamer.
//!
//! A restreamer takes video from capture devices and from remote streams and
//! serves it to many viewers at once. This crate holds the rules of that
//! service, each with its contract:
//!
//! - [`config`]: the configuration and what makes it valid;
//! - [`sources`]: the pipelines of a source, the supervision of its
//!   lifecycle (live, standby, stopped), its probe and its executions;
//! - [`rtsp`]: mount paths, launch lines, and the delivery of frames to a
//!   client session, which starts on a keyframe;
//! - [`fallback`]: the placeholder frame;
//! - [`startup`]: what is decided once, when the process starts;
//! - [`config_wizard`]: what the interactive wizard reads and writes;
//! - [`text`] and [`scan`]: numerals, character classes and searches.
//!
//! Nothing here touches a device, the network or the clock: the caller
//! carries out what these functions decide and reports back what happened.

pub mod config;
pub mod config_wizard;
pub mod fallback;
pub mod rtsp;
pub mod scan;
pub mod sources;
pub mod startup;
pub mod text;
