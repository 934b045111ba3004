//! A verified playback engine for a local media player.
//!
//! The engine demultiplexes container packets, feeds per-stream decode
//! pipelines through bounded queues, keeps decoded frames synchronized to
//! wall-clock time, and exposes a player state machine that broadcasts
//! play/pause commands to every pipeline.  The decoding, threading and
//! presentation collaborators live outside this crate; the engine's
//! decisions — routing, queueing, pacing, state transitions — are verified
//! here over plain values.

pub mod clock;
pub mod dispatcher;
pub mod display;
pub mod media;
pub mod pipeline;
pub mod player;
pub mod yuv;

use vstd::prelude::*;

verus! {

} // verus!
