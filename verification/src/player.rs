//! The player: the public orchestrator and state machine.
//!
//! A player owns the routing table and one decode pipeline per stream of
//! interest (video always, audio when present).  It exposes the control
//! surface — start, toggle between playing and paused, end of stream,
//! shutdown — and broadcasts every control command to all pipelines
//! before the operation returns, so that no pipeline can be told to play
//! while another is told to pause.

use vstd::prelude::*;

use crate::dispatcher::{Dispatcher, Route};
use crate::media::{ControlCommand, EngineError, Packet, PacketModel, StreamDesc};
use crate::pipeline::{DecodePipeline, PipelineView, WorkerAction, WorkerSource};

verus! {

/// The player's state machine.  `Initializing` is the transient state
/// while `start` wires the pipelines; a constructed player is observed in
/// one of the other three states.
#[derive(Clone, Copy, Debug, PartialEq, Eq, Structural)]
pub enum PlayerState {
    /// Construction in progress; not observable through a started player.
    Initializing,
    /// Pipelines consume packets and deliver frames.
    Playing,
    /// Pipelines hold their queued packets and deliver nothing.
    Paused,
    /// Playback ended: the streams ran out, or the player shut down.
    Stopped,
}

/// What became of a packet handed to the player.
#[derive(Clone, Copy, Debug, PartialEq, Eq, Structural)]
pub enum DispatchOutcome {
    /// The packet was accepted into its pipeline's queue.
    Delivered,
    /// No pipeline is registered for the packet's stream.
    Discarded,
    /// The destination pipeline's packet channel is closed.
    Closed,
}

/// The mathematical model of a [`Player`].
pub ghost struct PlayerView {
    /// The player's state machine.
    pub state: PlayerState,
    /// The routing table.
    pub dispatcher: Dispatcher,
    /// The video pipeline.
    pub video: PipelineView,
    /// The audio pipeline, when the container has audio.
    pub audio: Option<PipelineView>,
}

impl PlayerView {
    /// The player's invariant.  Beyond each pipeline's own invariant, it
    /// pins the properties the control surface maintains: both pipelines
    /// share one playback epoch, both have received exactly the same
    /// control commands in the same order, and the player's state agrees
    /// with the last command broadcast.
    pub open spec fn wf(self) -> bool {
        &&& self.video.wf()
        &&& self.dispatcher.wf()
        &&& (self.audio is Some <==> self.dispatcher.audio_stream() is Some)
        &&& (self.audio matches Some(a) ==> {
            &&& a.wf()
            &&& a.clock.epoch_nanos() == self.video.clock.epoch_nanos()
            &&& a.received_controls() == self.video.received_controls()
            &&& a.controls_closed == self.video.controls_closed
        })
        &&& (self.state is Playing || self.state is Paused ==> !self.video.controls_closed)
        &&& (self.state is Playing ==> self.video.received_controls().len() == 0
            || self.video.received_controls().last() is Play)
        &&& (self.state is Paused ==> self.video.received_controls().len() > 0
            && self.video.received_controls().last() is Pause)
    }

    /// The command a toggle broadcasts from this state.
    pub open spec fn toggle_command(self) -> ControlCommand {
        if self.state is Playing {
            ControlCommand::Pause
        } else {
            ControlCommand::Play
        }
    }

    /// The player after `toggle_pause_playing`, and the new playing state
    /// reported to the state-changed callback: `Playing` and `Paused`
    /// swap, the corresponding command is appended to every pipeline's
    /// inbox, and in any other state nothing happens and no callback is
    /// owed.
    pub open spec fn after_toggle(self) -> (PlayerView, Option<bool>) {
        match self.state {
            PlayerState::Playing => (
                PlayerView {
                    state: PlayerState::Paused,
                    video: self.video.after_send_control(ControlCommand::Pause),
                    audio: match self.audio {
                        Some(a) => Some(a.after_send_control(ControlCommand::Pause)),
                        None => None,
                    },
                    ..self
                },
                Some(false),
            ),
            PlayerState::Paused => (
                PlayerView {
                    state: PlayerState::Playing,
                    video: self.video.after_send_control(ControlCommand::Play),
                    audio: match self.audio {
                        Some(a) => Some(a.after_send_control(ControlCommand::Play)),
                        None => None,
                    },
                    ..self
                },
                Some(true),
            ),
            _ => (self, None),
        }
    }

    /// Whether the pipeline a packet routes to can take it right now.
    /// Submitting to a full open queue must wait: that is the engine's
    /// backpressure on the container reader.
    pub open spec fn can_accept(self, stream_index: usize) -> bool {
        match self.dispatcher.spec_route(stream_index) {
            Route::ToVideo => self.video.queue.len() < self.video.capacity
                || self.video.packets_closed,
            Route::ToAudio => self.audio matches Some(a) ==> a.queue.len() < a.capacity
                || a.packets_closed,
            Route::Discard => true,
        }
    }

    /// The player after a packet is dispatched, and the outcome.
    pub open spec fn after_dispatch(self, p: PacketModel) -> (PlayerView, DispatchOutcome) {
        match self.dispatcher.spec_route(p.stream_index) {
            Route::ToVideo => if self.video.packets_closed {
                (self, DispatchOutcome::Closed)
            } else {
                (
                    PlayerView { video: self.video.after_submit(p), ..self },
                    DispatchOutcome::Delivered,
                )
            },
            Route::ToAudio => match self.audio {
                Some(a) => if a.packets_closed {
                    (self, DispatchOutcome::Closed)
                } else {
                    (
                        PlayerView { audio: Some(a.after_submit(p)), ..self },
                        DispatchOutcome::Delivered,
                    )
                },
                None => (self, DispatchOutcome::Discarded),
            },
            Route::Discard => (self, DispatchOutcome::Discarded),
        }
    }

    /// The player after the container is exhausted: every pipeline's
    /// packet channel closes, and each drains its remaining queue.
    pub open spec fn after_end_of_stream(self) -> PlayerView {
        PlayerView {
            video: self.video.after_close_packets(),
            audio: match self.audio {
                Some(a) => Some(a.after_close_packets()),
                None => None,
            },
            ..self
        }
    }

    /// The player after shutdown: every pipeline's control channel
    /// closes — the signal each worker exits on — and the player stops.
    pub open spec fn after_shutdown(self) -> PlayerView {
        PlayerView {
            state: PlayerState::Stopped,
            video: self.video.after_close_controls(),
            audio: match self.audio {
                Some(a) => Some(a.after_close_controls()),
                None => None,
            },
            ..self
        }
    }

    /// Whether every pipeline's worker has exited.
    pub open spec fn all_pipelines_stopped(self) -> bool {
        &&& self.video.phase is Stopped
        &&& (self.audio matches Some(a) ==> a.phase is Stopped)
    }

    /// The player after it observes its pipelines: once all workers have
    /// exited, playback has implicitly stopped.
    pub open spec fn after_refresh(self) -> PlayerView {
        if self.all_pipelines_stopped() {
            PlayerView { state: PlayerState::Stopped, ..self }
        } else {
            self
        }
    }
}

/// The public orchestrator: routing table, video pipeline, and audio
/// pipeline when the container has audio.
pub struct Player {
    state: PlayerState,
    dispatcher: Dispatcher,
    video: DecodePipeline,
    audio: Option<DecodePipeline>,
}

impl View for Player {
    type V = PlayerView;

    closed spec fn view(&self) -> PlayerView {
        PlayerView {
            state: self.state,
            dispatcher: self.dispatcher,
            video: self.video@,
            audio: match self.audio {
                Some(a) => Some(a@),
                None => None,
            },
        }
    }
}

impl Player {
    /// The player's invariant; see [`PlayerView::wf`].
    pub open spec fn wf(&self) -> bool {
        self@.wf()
    }

    /// Constructs the player: one decode pipeline per stream of interest,
    /// every pipeline's clock sharing the same playback epoch, and the
    /// routing table over their stream indices.  The returned player is
    /// `Playing`; the caller begins dispatch and drives the workers.
    ///
    /// Fails with `InvalidTimeBase` when a descriptor's time base
    /// denominator is zero, and with `DuplicateStream` when the audio
    /// descriptor names the video stream; otherwise construction
    /// succeeds.
    pub fn start(video: StreamDesc, audio: Option<StreamDesc>, queue_capacity: usize, epoch_nanos: u64) -> (r:
        Result<Player, EngineError>)
        requires
            queue_capacity >= 1,
        ensures
            r is Ok <==> video.time_base_den != 0 && (audio matches Some(a) ==> a.time_base_den
                != 0 && a.stream_index != video.stream_index),
            r matches Err(e) ==> (e is InvalidTimeBase <==> (video.time_base_den == 0 || (
            audio matches Some(a) && a.time_base_den == 0))),
            r matches Err(e) ==> (e is DuplicateStream <==> (video.time_base_den != 0 && !(
            audio matches Some(a) && a.time_base_den == 0) && (audio matches Some(a)
                && a.stream_index == video.stream_index))),
            r matches Ok(p) ==> {
                &&& p.wf()
                &&& p@.state is Playing
                &&& p@.video.is_fresh(video, epoch_nanos, queue_capacity as int)
                &&& p@.dispatcher.video_stream() == video.stream_index
                &&& (match audio {
                    Some(a) => p@.audio matches Some(ap) && ap.is_fresh(
                        a,
                        epoch_nanos,
                        queue_capacity as int,
                    ) && p@.dispatcher.audio_stream() == Some(a.stream_index),
                    None => p@.audio is None && p@.dispatcher.audio_stream() is None,
                })
            },
    {
        let video_pipeline = match DecodePipeline::start(video, epoch_nanos, queue_capacity) {
            Ok(p) => p,
            Err(e) => {
                return Err(e);
            },
        };
        match audio {
            Some(audio_desc) => {
                let audio_pipeline = match DecodePipeline::start(
                    audio_desc,
                    epoch_nanos,
                    queue_capacity,
                ) {
                    Ok(p) => p,
                    Err(e) => {
                        return Err(e);
                    },
                };
                if audio_desc.stream_index == video.stream_index {
                    return Err(EngineError::DuplicateStream);
                }
                let dispatcher = Dispatcher::new(
                    video.stream_index,
                    Some(audio_desc.stream_index),
                );
                let player = Player {
                    state: PlayerState::Playing,
                    dispatcher,
                    video: video_pipeline,
                    audio: Some(audio_pipeline),
                };
                proof {
                    assert(player@.audio->0.received_controls()
                        =~= player@.video.received_controls());
                }
                Ok(player)
            },
            None => {
                let dispatcher = Dispatcher::new(video.stream_index, None);
                let player = Player {
                    state: PlayerState::Playing,
                    dispatcher,
                    video: video_pipeline,
                    audio: None,
                };
                Ok(player)
            },
        }
    }

    /// Flips between `Playing` and `Paused`, broadcasting the matching
    /// command to every pipeline before returning — all pipelines receive
    /// the same command, so none can be left playing while another
    /// pauses.  Returns the new playing state, to be reported to the
    /// state-changed callback; after playback has stopped there is
    /// nothing to toggle and no callback is owed.
    pub fn toggle_pause_playing(&mut self) -> (r: Option<bool>)
        requires
            old(self).wf(),
        ensures
            final(self).wf(),
            final(self)@ == old(self)@.after_toggle().0,
            r == old(self)@.after_toggle().1,
    {
        match self.state {
            PlayerState::Playing => {
                self.state = PlayerState::Paused;
                self.broadcast(ControlCommand::Pause);
                proof {
                    let prev = old(self)@;
                    let cmd = ControlCommand::Pause;
                    assert(final(self)@.video.received_controls()
                        =~= prev.video.received_controls().push(cmd));
                    if prev.audio is Some {
                        assert(final(self)@.audio->0.received_controls()
                            =~= prev.audio->0.received_controls().push(cmd));
                    }
                    assert(final(self)@ =~~= prev.after_toggle().0);
                }
                Some(false)
            },
            PlayerState::Paused => {
                self.state = PlayerState::Playing;
                self.broadcast(ControlCommand::Play);
                proof {
                    let prev = old(self)@;
                    let cmd = ControlCommand::Play;
                    assert(final(self)@.video.received_controls()
                        =~= prev.video.received_controls().push(cmd));
                    if prev.audio is Some {
                        assert(final(self)@.audio->0.received_controls()
                            =~= prev.audio->0.received_controls().push(cmd));
                    }
                    assert(final(self)@ =~~= prev.after_toggle().0);
                }
                Some(true)
            },
            _ => None,
        }
    }

    /// Appends one command to every pipeline's control inbox.  Requires
    /// the control channels open, which the player guarantees while it is
    /// `Playing` or `Paused`.
    fn broadcast(&mut self, c: ControlCommand)
        requires
            old(self)@.video.wf(),
            old(self)@.audio matches Some(a) ==> a.wf(),
            !old(self)@.video.controls_closed,
            old(self)@.audio matches Some(a) ==> !a.controls_closed,
        ensures
            final(self)@.video == old(self)@.video.after_send_control(c),
            final(self)@.audio == match old(self)@.audio {
                Some(a) => Some(a.after_send_control(c)),
                None => None::<PipelineView>,
            },
            final(self)@.state == old(self)@.state,
            final(self)@.dispatcher == old(self)@.dispatcher,
    {
        self.video.send_control(c);
        let audio = self.audio.take();
        match audio {
            Some(mut a) => {
                a.send_control(c);
                self.audio = Some(a);
            },
            None => {},
        }
    }

    /// Routes one container packet to its pipeline and submits it.  The
    /// caller must respect backpressure: when the destination queue is
    /// full and open, it waits for a slot before dispatching.
    pub fn dispatch_packet(&mut self, p: Packet) -> (outcome: DispatchOutcome)
        requires
            old(self).wf(),
            old(self)@.can_accept(p.stream_index),
        ensures
            final(self).wf(),
            final(self)@ == old(self)@.after_dispatch(p@).0,
            outcome == old(self)@.after_dispatch(p@).1,
    {
        let ghost prev = self@;
        match self.dispatcher.route(p.stream_index) {
            Route::ToVideo => {
                let accepted = self.video.submit_packet(p);
                proof {
                    assert(final(self)@ =~~= prev.after_dispatch(p@).0);
                }
                if accepted {
                    DispatchOutcome::Delivered
                } else {
                    DispatchOutcome::Closed
                }
            },
            Route::ToAudio => {
                let audio = self.audio.take();
                match audio {
                    Some(mut a) => {
                        let accepted = a.submit_packet(p);
                        self.audio = Some(a);
                        proof {
                            assert(final(self)@ =~~= prev.after_dispatch(p@).0);
                        }
                        if accepted {
                            DispatchOutcome::Delivered
                        } else {
                            DispatchOutcome::Closed
                        }
                    },
                    None => DispatchOutcome::Discarded,
                }
            },
            Route::Discard => DispatchOutcome::Discarded,
        }
    }

    /// The demultiplexer reached the end of the container: closes every
    /// pipeline's packet channel, which triggers each pipeline's
    /// drain-and-stop sequence.
    pub fn end_of_stream(&mut self)
        requires
            old(self).wf(),
        ensures
            final(self).wf(),
            final(self)@ == old(self)@.after_end_of_stream(),
    {
        self.video.close_packets();
        let audio = self.audio.take();
        match audio {
            Some(mut a) => {
                a.close_packets();
                self.audio = Some(a);
            },
            None => {},
        }
        proof {
            assert(final(self)@ =~~= old(self)@.after_end_of_stream());
        }
    }

    /// Shuts the player down: closes every pipeline's control channel —
    /// the signal on which each worker exits at its next scheduling
    /// point — and stops the player.  The caller joins each worker thread
    /// after its `Exit`, so no decoder outlives its pipeline.
    pub fn shutdown(&mut self)
        requires
            old(self).wf(),
        ensures
            final(self).wf(),
            final(self)@ == old(self)@.after_shutdown(),
    {
        self.state = PlayerState::Stopped;
        self.video.close_controls();
        let audio = self.audio.take();
        match audio {
            Some(mut a) => {
                a.close_controls();
                self.audio = Some(a);
            },
            None => {},
        }
        proof {
            assert(final(self)@ =~~= old(self)@.after_shutdown());
        }
    }

    /// Observes the pipelines: when every worker has exited — the
    /// container ran out and each pipeline drained — playback has
    /// implicitly stopped.  Returns whether the player is now stopped.
    pub fn refresh_state(&mut self) -> (stopped: bool)
        requires
            old(self).wf(),
        ensures
            final(self).wf(),
            final(self)@ == old(self)@.after_refresh(),
            stopped == (final(self)@.state is Stopped),
    {
        let video_stopped = matches!(self.video.phase(), crate::pipeline::PipelinePhase::Stopped);
        let audio_stopped = match &self.audio {
            Some(a) => matches!(a.phase(), crate::pipeline::PipelinePhase::Stopped),
            None => true,
        };
        if video_stopped && audio_stopped {
            self.state = PlayerState::Stopped;
        }
        matches!(self.state, PlayerState::Stopped)
    }

    /// One worker iteration of the video pipeline; see
    /// [`DecodePipeline::worker_step`].
    pub fn video_worker_step(&mut self, source: WorkerSource) -> (action: WorkerAction)
        requires
            old(self).wf(),
        ensures
            final(self).wf(),
            final(self)@.video == old(self)@.video.step(source).0,
            action@ == old(self)@.video.step(source).1,
            final(self)@.audio == old(self)@.audio,
            final(self)@.state == old(self)@.state,
            final(self)@.dispatcher == old(self)@.dispatcher,
    {
        proof {
            crate::pipeline::lemma_step_preserves_wf(self@.video, source);
        }
        self.video.worker_step(source)
    }

    /// One worker iteration of the audio pipeline, or `None` when the
    /// container has no audio.
    pub fn audio_worker_step(&mut self, source: WorkerSource) -> (action: Option<WorkerAction>)
        requires
            old(self).wf(),
        ensures
            final(self).wf(),
            final(self)@.video == old(self)@.video,
            final(self)@.state == old(self)@.state,
            final(self)@.dispatcher == old(self)@.dispatcher,
            match old(self)@.audio {
                Some(a) => final(self)@.audio == Some(a.step(source).0) && (action matches Some(
                    act,
                ) && act@ == a.step(source).1),
                None => final(self)@.audio is None && action is None,
            },
    {
        let audio = self.audio.take();
        match audio {
            Some(mut a) => {
                proof {
                    crate::pipeline::lemma_step_preserves_wf(a@, source);
                }
                let act = a.worker_step(source);
                self.audio = Some(a);
                Some(act)
            },
            None => None,
        }
    }

    /// The player's current state.
    pub fn state(&self) -> (s: PlayerState)
        ensures
            s == self@.state,
    {
        self.state
    }

    /// Read access to the video pipeline, for pacing and inspection.
    pub fn video_pipeline(&self) -> (p: &DecodePipeline)
        ensures
            p@ == self@.video,
    {
        &self.video
    }

    /// Read access to the audio pipeline, when the container has audio.
    pub fn audio_pipeline(&self) -> (p: Option<&DecodePipeline>)
        ensures
            match self@.audio {
                Some(a) => p matches Some(ap) && ap@ == a,
                None => p is None,
            },
    {
        self.audio.as_ref()
    }
}

/// Uniform control state: at any observation point, the audio pipeline
/// has received exactly the control commands the video pipeline has, in
/// the same order — a `toggle_pause_playing` can never leave one stream
/// told to play and the other told to pause.
pub proof fn lemma_uniform_control_state(v: PlayerView)
    requires
        v.wf(),
        v.audio is Some,
    ensures
        v.audio->0.received_controls() == v.video.received_controls(),
{
}

/// A toggle broadcasts one command: both pipelines' received-command
/// histories are extended by the same command, and the reported state is
/// `true` exactly when that command is `Play`.
pub proof fn lemma_toggle_broadcast(v: PlayerView)
    requires
        v.wf(),
        v.state is Playing || v.state is Paused,
    ensures
        ({
            let (v2, r) = v.after_toggle();
            let cmd = v.toggle_command();
            &&& v2.video.received_controls() == v.video.received_controls().push(cmd)
            &&& (v2.audio matches Some(a2) ==> a2.received_controls()
                == v.video.received_controls().push(cmd))
            &&& r == Some(cmd is Play)
        }),
{
    let (v2, r) = v.after_toggle();
    let cmd = v.toggle_command();
    assert(v2.video.received_controls() =~= v.video.received_controls().push(cmd));
    match v.audio {
        Some(a) => {
            assert(v2.audio->0.received_controls() =~= v.video.received_controls().push(cmd));
        },
        None => {},
    }
}

/// Toggling twice restores the original play state: the first toggle
/// reports the flipped state, the second reports the original one — two
/// state-changed callbacks with alternating boolean values — and the
/// player is back in its original state.
pub proof fn lemma_toggle_twice(v: PlayerView)
    requires
        v.wf(),
        v.state is Playing || v.state is Paused,
    ensures
        ({
            let (v1, r1) = v.after_toggle();
            let (v2, r2) = v1.after_toggle();
            &&& v2.state == v.state
            &&& r1 == Some(v.state is Paused)
            &&& r2 == Some(v.state is Playing)
        }),
{
}

} // verus!
