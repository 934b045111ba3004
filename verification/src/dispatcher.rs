//! The demultiplexer's routing table: which decode pipeline, if any, a
//! container packet belongs to.
//!
//! The container reader itself is a collaborator of the engine; it hands
//! each packet it reads to the player, which consults this table and
//! submits the packet to the matching pipeline, honouring that pipeline's
//! backpressure.  Packets of streams without a pipeline are discarded
//! without error.

use vstd::prelude::*;

verus! {

/// Where a packet belongs.
#[derive(Clone, Copy, Debug, PartialEq, Eq, Structural)]
pub enum Route {
    /// The packet belongs to the video stream's pipeline.
    ToVideo,
    /// The packet belongs to the audio stream's pipeline.
    ToAudio,
    /// No pipeline is registered for the packet's stream; drop it.
    Discard,
}

/// The routing table: the container stream index served by the video
/// pipeline, and the one served by the audio pipeline when audio is
/// present.
pub struct Dispatcher {
    video_stream: usize,
    audio_stream: Option<usize>,
}

impl Dispatcher {
    /// The stream index routed to the video pipeline.
    pub closed spec fn video_stream(&self) -> usize {
        self.video_stream
    }

    /// The stream index routed to the audio pipeline, if audio is played.
    pub closed spec fn audio_stream(&self) -> Option<usize> {
        self.audio_stream
    }

    /// A routing table is well formed when its two entries are distinct,
    /// so every packet has at most one destination.
    pub open spec fn wf(&self) -> bool {
        self.audio_stream() matches Some(a) ==> a != self.video_stream()
    }

    /// Where a packet with the given stream index belongs.
    pub open spec fn spec_route(&self, stream_index: usize) -> Route {
        if stream_index == self.video_stream() {
            Route::ToVideo
        } else {
            match self.audio_stream() {
                Some(a) => if stream_index == a {
                    Route::ToAudio
                } else {
                    Route::Discard
                },
                None => Route::Discard,
            }
        }
    }

    /// Builds the routing table for a container's streams of interest.
    pub fn new(video_stream: usize, audio_stream: Option<usize>) -> (d: Dispatcher)
        requires
            audio_stream matches Some(a) ==> a != video_stream,
        ensures
            d.wf(),
            d.video_stream() == video_stream,
            d.audio_stream() == audio_stream,
    {
        Dispatcher { video_stream, audio_stream }
    }

    /// Looks up the pipeline registered for a stream index.
    pub fn route(&self, stream_index: usize) -> (r: Route)
        ensures
            r == self.spec_route(stream_index),
    {
        if stream_index == self.video_stream {
            Route::ToVideo
        } else {
            match self.audio_stream {
                Some(a) => if stream_index == a {
                    Route::ToAudio
                } else {
                    Route::Discard
                },
                None => Route::Discard,
            }
        }
    }
}

} // verus!
