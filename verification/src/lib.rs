//! uify: the integer-valued core of a latency-first motion-tracking engine.
//!
//! The verified library holds the parts of the engine whose behaviour is
//! decided by integer arithmetic and ownership: host-monotonic timestamps,
//! the bookkeeping every streaming tracker shares, the synthetic camera and
//! mock inference used by offline pipelines, and the single-producer /
//! single-consumer bridge between the vision and the audio thread.
//! Geometry, filters and transports (which compute on floating point or
//! talk to the network) are built on top of it in the application crate.

use vstd::prelude::*;

pub mod camera;
pub mod inference;
pub mod manifolds;
pub mod pipeline;
pub mod plugin;
pub mod ringbuf;
pub mod sample;
pub mod tracker;
