//! Plain-value media types shared by the engine: packets, control
//! commands, stream descriptors and the engine's error type.

use vstd::prelude::*;

verus! {

/// A control command delivered to a decode pipeline's worker.
///
/// Commands are delivered to a pipeline in send order and are never
/// reordered relative to each other.
#[derive(Clone, Copy, Debug, PartialEq, Eq, Structural)]
pub enum ControlCommand {
    /// Resume processing queued packets.
    Play,
    /// Halt packet processing; queued packets remain queued.
    Pause,
}

/// One compressed access unit of an elementary stream, tagged with the
/// stream it belongs to and an optional presentation timestamp in that
/// stream's time base.  A packet is created by the demultiplexer, moved
/// into exactly one pipeline's queue, and consumed by that pipeline's
/// decode worker.
pub struct Packet {
    /// The container stream this packet belongs to.
    pub stream_index: usize,
    /// The presentation timestamp, in ticks of the stream's time base,
    /// when the decoder could assign one.
    pub pts: Option<i64>,
    /// The compressed payload.
    pub data: Vec<u8>,
}

/// The mathematical model of a [`Packet`].
pub ghost struct PacketModel {
    pub stream_index: usize,
    pub pts: Option<i64>,
    pub data: Seq<u8>,
}

impl View for Packet {
    type V = PacketModel;

    open spec fn view(&self) -> PacketModel {
        PacketModel { stream_index: self.stream_index, pts: self.pts, data: self.data@ }
    }
}

/// What the engine needs to know about one elementary stream: its index
/// in the container and its time base, a rational number of seconds per
/// tick.  Codec parameters stay with the decoding collaborator.
#[derive(Clone, Copy, Debug, PartialEq, Eq, Structural)]
pub struct StreamDesc {
    pub stream_index: usize,
    pub time_base_num: u32,
    pub time_base_den: u32,
}

/// Construction errors of the engine.  In-stream decode failures are not
/// errors of the engine: a malformed packet is skipped by the worker and
/// playback continues.
#[derive(Clone, Copy, Debug, PartialEq, Eq, Structural)]
pub enum EngineError {
    /// A stream descriptor carried a time base with a zero denominator,
    /// so no clock can be built for it.
    InvalidTimeBase,
    /// Two pipelines were requested for the same container stream.
    DuplicateStream,
}

} // verus!
