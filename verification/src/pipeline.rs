//! The decode pipeline: a bounded packet queue, an unbounded control
//! inbox, and the worker's decision rules, modelled over plain values.
//!
//! One pipeline serves one elementary stream.  The demultiplexer submits
//! packets into the bounded queue (the backpressure mechanism), the player
//! sends control commands into the inbox, and the worker — driven by the
//! thread that owns the pipeline — consumes both through [`DecodePipeline::worker_step`],
//! which returns the action the caller must perform (decode a packet,
//! finish draining, exit).

use vstd::prelude::*;

use crate::clock::StreamClock;
use crate::media::{ControlCommand, EngineError, Packet, PacketModel, StreamDesc};

verus! {

/// The lifecycle of a pipeline's worker.  Together with the worker's
/// playing flag this yields the externally visible states: a `Running`
/// pipeline is playing or paused; a `Draining` pipeline has seen its
/// packet channel close and is emptying the queue; a `Stopped` pipeline's
/// worker has exited.
#[derive(Clone, Copy, Debug, PartialEq, Eq, Structural)]
pub enum PipelinePhase {
    /// The packet channel is open; the worker alternates between packets
    /// and control commands.
    Running,
    /// The packet channel closed; queued packets are still decoded.
    Draining,
    /// The worker has exited; no further packet is decoded.
    Stopped,
}

/// Which of the worker's two event sources became ready first in one
/// iteration of its select loop.  The race is decided by the scheduler
/// that drives the worker, not by the engine.
#[derive(Clone, Copy, Debug, PartialEq, Eq, Structural)]
pub enum WorkerSource {
    /// Packet availability (only consulted while playing).
    Packets,
    /// The next control command.
    Controls,
}

/// What the worker decided to do in one iteration, and what its driver
/// must therefore perform.
pub enum WorkerAction {
    /// Feed this packet to the decoder, then deliver every frame the
    /// decoder emits, each after its clock-computed delay.  A packet the
    /// decoder rejects is logged and skipped; the loop continues with the
    /// next one.
    Decode(Packet),
    /// A `Pause` command took effect: stop consuming packets.
    Paused,
    /// A `Play` command took effect: resume consuming packets.
    Resumed,
    /// The packet channel is closed and the queue is empty: the decoder
    /// flushes implicitly and the worker exits.
    Drained,
    /// The control channel is closed: the worker exits at once.
    Exit,
    /// The chosen source had nothing ready; nothing changed.
    Idle,
}

/// The mathematical model of a [`WorkerAction`].
pub ghost enum ActionModel {
    Decode(PacketModel),
    Paused,
    Resumed,
    Drained,
    Exit,
    Idle,
}

impl View for WorkerAction {
    type V = ActionModel;

    open spec fn view(&self) -> ActionModel {
        match self {
            WorkerAction::Decode(p) => ActionModel::Decode(p@),
            WorkerAction::Paused => ActionModel::Paused,
            WorkerAction::Resumed => ActionModel::Resumed,
            WorkerAction::Drained => ActionModel::Drained,
            WorkerAction::Exit => ActionModel::Exit,
            WorkerAction::Idle => ActionModel::Idle,
        }
    }
}

/// The mathematical model of a [`DecodePipeline`]: its visible state plus
/// the full history of packets and commands it has accepted.
pub ghost struct PipelineView {
    /// The worker's playing flag; true from the start.
    pub playing: bool,
    /// The worker's lifecycle.
    pub phase: PipelinePhase,
    /// The packets queued and not yet decoded, oldest first.
    pub queue: Seq<PacketModel>,
    /// The fixed capacity of the packet queue.
    pub capacity: int,
    /// The control commands sent and not yet observed, oldest first.
    pub controls: Seq<ControlCommand>,
    /// Whether the packet channel has been closed.
    pub packets_closed: bool,
    /// Whether the control channel has been closed.
    pub controls_closed: bool,
    /// The stream clock the worker paces frames with.
    pub clock: StreamClock,
    /// How many threads the decoder was configured with.
    pub decoder_threads: int,
    /// Every packet ever accepted into the queue, in submission order.
    pub submitted: Seq<PacketModel>,
    /// Every packet handed to the decoder, in decode order.
    pub processed: Seq<PacketModel>,
    /// Every control command the worker has observed, in arrival order.
    pub taken_controls: Seq<ControlCommand>,
}

impl PipelineView {
    /// All commands this pipeline has accepted, observed or pending, in
    /// send order.
    pub open spec fn received_controls(self) -> Seq<ControlCommand> {
        self.taken_controls + self.controls
    }

    /// The pipeline's invariant.  In particular the queue never outgrows
    /// its capacity, and the packets decoded so far followed by the
    /// packets still queued are exactly the packets submitted, in order.
    pub open spec fn wf(self) -> bool {
        &&& self.capacity >= 1
        &&& self.queue.len() <= self.capacity
        &&& self.processed + self.queue == self.submitted
        &&& (self.phase is Running <==> !self.packets_closed)
        &&& self.decoder_threads >= 1
        &&& self.clock.wf()
    }

    /// The queue and history after a packet is accepted.
    pub open spec fn after_submit(self, p: PacketModel) -> PipelineView {
        PipelineView { queue: self.queue.push(p), submitted: self.submitted.push(p), ..self }
    }

    /// The state after the packet channel closes: a running pipeline
    /// starts draining; queued packets stay queued.
    pub open spec fn after_close_packets(self) -> PipelineView {
        PipelineView {
            packets_closed: true,
            phase: if self.phase is Running {
                PipelinePhase::Draining
            } else {
                self.phase
            },
            ..self
        }
    }

    /// The inbox after a control command is accepted.
    pub open spec fn after_send_control(self, c: ControlCommand) -> PipelineView {
        PipelineView { controls: self.controls.push(c), ..self }
    }

    /// The state after the control channel closes (the shutdown signal).
    pub open spec fn after_close_controls(self) -> PipelineView {
        PipelineView { controls_closed: true, ..self }
    }

    /// What a pipeline fresh from [`DecodePipeline::start`] looks like:
    /// playing, running, with empty queues and histories, its clock built
    /// from the stream's time base and the shared playback epoch.
    pub open spec fn is_fresh(self, desc: StreamDesc, epoch_nanos: u64, capacity: int) -> bool {
        &&& self.playing
        &&& self.phase is Running
        &&& self.queue.len() == 0
        &&& self.capacity == capacity
        &&& self.controls.len() == 0
        &&& !self.packets_closed
        &&& !self.controls_closed
        &&& self.clock.time_base_num() == desc.time_base_num
        &&& self.clock.time_base_den() == desc.time_base_den
        &&& self.clock.epoch_nanos() == epoch_nanos
        &&& self.submitted.len() == 0
        &&& self.processed.len() == 0
        &&& self.taken_controls.len() == 0
    }

    /// One iteration of the worker's select loop: the successor state and
    /// the action the worker takes, given which event source won the race.
    pub open spec fn step(self, source: WorkerSource) -> (PipelineView, ActionModel) {
        match source {
            WorkerSource::Controls => {
                if self.controls.len() > 0 {
                    let c = self.controls[0];
                    let next = PipelineView {
                        controls: self.controls.drop_first(),
                        taken_controls: self.taken_controls.push(c),
                        playing: c is Play,
                        ..self
                    };
                    (next, if c is Play {
                        ActionModel::Resumed
                    } else {
                        ActionModel::Paused
                    })
                } else if self.controls_closed {
                    let next = PipelineView {
                        phase: PipelinePhase::Stopped,
                        packets_closed: true,
                        ..self
                    };
                    (next, ActionModel::Exit)
                } else {
                    (self, ActionModel::Idle)
                }
            },
            WorkerSource::Packets => {
                if self.phase is Stopped || !self.playing {
                    (self, ActionModel::Idle)
                } else if self.queue.len() > 0 {
                    let p = self.queue[0];
                    let next = PipelineView {
                        queue: self.queue.drop_first(),
                        processed: self.processed.push(p),
                        ..self
                    };
                    (next, ActionModel::Decode(p))
                } else if self.packets_closed {
                    let next = PipelineView { phase: PipelinePhase::Stopped, ..self };
                    (next, ActionModel::Drained)
                } else {
                    (self, ActionModel::Idle)
                }
            },
        }
    }
}

/// The per-stream decode pipeline.  It owns the bounded packet queue and
/// the control inbox; the decoder itself and the thread that drives the
/// worker belong to the caller, which performs each [`WorkerAction`] the
/// pipeline returns.
pub struct DecodePipeline {
    playing: bool,
    phase: PipelinePhase,
    queue: Vec<Packet>,
    capacity: usize,
    controls: Vec<ControlCommand>,
    packets_closed: bool,
    controls_closed: bool,
    clock: StreamClock,
    decoder_threads: usize,
    submitted: Ghost<Seq<PacketModel>>,
    processed: Ghost<Seq<PacketModel>>,
    taken_controls: Ghost<Seq<ControlCommand>>,
}

impl View for DecodePipeline {
    type V = PipelineView;

    closed spec fn view(&self) -> PipelineView {
        PipelineView {
            playing: self.playing,
            phase: self.phase,
            queue: self.queue@.map(|i: int, p: Packet| p@),
            capacity: self.capacity as int,
            controls: self.controls@,
            packets_closed: self.packets_closed,
            controls_closed: self.controls_closed,
            clock: self.clock,
            decoder_threads: self.decoder_threads as int,
            submitted: self.submitted@,
            processed: self.processed@,
            taken_controls: self.taken_controls@,
        }
    }
}

/// Relies on `num_cpus::get`: the number of available CPUs of the current
/// system, which its documentation promises is always at least 1.  Used
/// to size the decoder's frame-threading.
#[verifier::external_body]
fn cpu_count() -> (n: usize)
    ensures
        1 <= n,
{
    num_cpus::get()
}

impl DecodePipeline {
    /// The pipeline's invariant; see [`PipelineView::wf`].
    pub open spec fn wf(&self) -> bool {
        self@.wf()
    }

    /// Constructs a pipeline for one elementary stream: a bounded packet
    /// queue of the given capacity, an empty control inbox, a clock with
    /// the stream's time base and the shared playback epoch, and a decoder
    /// thread count sized to the host's CPU parallelism.  Playback starts
    /// in the playing state.
    ///
    /// Fails exactly when the stream's time base denominator is zero, from
    /// which no clock can be built.
    pub fn start(desc: StreamDesc, epoch_nanos: u64, capacity: usize) -> (r: Result<
        DecodePipeline,
        EngineError,
    >)
        requires
            capacity >= 1,
        ensures
            r is Ok <==> desc.time_base_den != 0,
            r matches Err(e) ==> e is InvalidTimeBase,
            r matches Ok(p) ==> p.wf() && p@.is_fresh(desc, epoch_nanos, capacity as int),
    {
        if desc.time_base_den == 0 {
            return Err(EngineError::InvalidTimeBase);
        }
        let clock = StreamClock::new(desc.time_base_num, desc.time_base_den, epoch_nanos);
        let threads = cpu_count();
        let pipeline = DecodePipeline {
            playing: true,
            phase: PipelinePhase::Running,
            queue: Vec::new(),
            capacity,
            controls: Vec::new(),
            packets_closed: false,
            controls_closed: false,
            clock,
            decoder_threads: threads,
            submitted: Ghost(Seq::empty()),
            processed: Ghost(Seq::empty()),
            taken_controls: Ghost(Seq::empty()),
        };
        proof {
            assert(pipeline@.processed + pipeline@.queue =~= pipeline@.submitted);
        }
        Ok(pipeline)
    }

    /// Accepts a packet into the bounded queue, or reports the channel
    /// closed.  A caller must wait for a free slot before submitting —
    /// that suspension is the engine's sole backpressure mechanism, so a
    /// slow decoder throttles the demultiplexer instead of buffering
    /// packets without bound.
    pub fn submit_packet(&mut self, p: Packet) -> (accepted: bool)
        requires
            old(self).wf(),
            old(self)@.queue.len() < old(self)@.capacity || old(self)@.packets_closed,
        ensures
            final(self).wf(),
            old(self)@.packets_closed ==> !accepted && final(self)@ == old(self)@,
            !old(self)@.packets_closed ==> accepted && final(self)@ == old(self)@.after_submit(p@),
    {
        if self.packets_closed {
            return false;
        }
        let ghost prev = self@;
        proof {
            self.submitted@ = self.submitted@.push(p@);
        }
        self.queue.push(p);
        proof {
            assert(self@.queue =~= prev.queue.push(p@));
            assert(self@ =~= prev.after_submit(p@));
            assert(self@.processed + self@.queue =~= self@.submitted);
        }
        true
    }

    /// Accepts a control command into the unbounded inbox, or reports the
    /// control channel closed.  Commands are kept in send order; sending
    /// never waits, because the inbox is unbounded.
    pub fn send_control(&mut self, c: ControlCommand) -> (accepted: bool)
        requires
            old(self).wf(),
        ensures
            final(self).wf(),
            old(self)@.controls_closed ==> !accepted && final(self)@ == old(self)@,
            !old(self)@.controls_closed ==> accepted && final(self)@ == old(self)@.after_send_control(c),
    {
        if self.controls_closed {
            return false;
        }
        let ghost prev = self@;
        self.controls.push(c);
        proof {
            assert(final(self)@ =~= prev.after_send_control(c));
        }
        true
    }

    /// Closes the packet channel: the demultiplexer's end-of-container
    /// signal.  A running pipeline starts draining; every packet already
    /// queued will still be decoded.
    pub fn close_packets(&mut self)
        requires
            old(self).wf(),
        ensures
            final(self).wf(),
            final(self)@ == old(self)@.after_close_packets(),
    {
        self.packets_closed = true;
        if matches!(self.phase, PipelinePhase::Running) {
            self.phase = PipelinePhase::Draining;
        }
        proof {
            assert(final(self)@ =~= old(self)@.after_close_packets());
        }
    }

    /// Closes the control channel: the shutdown signal.  The worker
    /// observes it at its next scheduling point and exits.
    pub fn close_controls(&mut self)
        requires
            old(self).wf(),
        ensures
            final(self).wf(),
            final(self)@ == old(self)@.after_close_controls(),
    {
        self.controls_closed = true;
        proof {
            assert(final(self)@ =~= old(self)@.after_close_controls());
        }
    }

    /// One iteration of the worker's select loop.  The caller — the
    /// thread that drives this pipeline — reports which event source won
    /// the race and performs the returned action: decode the packet and
    /// deliver its frames, or exit the loop.  The state change is exactly
    /// [`PipelineView::step`].
    pub fn worker_step(&mut self, source: WorkerSource) -> (action: WorkerAction)
        requires
            old(self).wf(),
        ensures
            final(self).wf(),
            final(self)@ == old(self)@.step(source).0,
            action@ == old(self)@.step(source).1,
    {
        let ghost prev = self@;
        match source {
            WorkerSource::Controls => {
                if self.controls.len() > 0 {
                    let c = self.controls.remove(0);
                    proof {
                        self.taken_controls@ = self.taken_controls@.push(c);
                    }
                    match c {
                        ControlCommand::Play => {
                            self.playing = true;
                            proof {
                                assert(final(self)@ =~= prev.step(source).0);
                            }
                            WorkerAction::Resumed
                        },
                        ControlCommand::Pause => {
                            self.playing = false;
                            proof {
                                assert(final(self)@ =~= prev.step(source).0);
                            }
                            WorkerAction::Paused
                        },
                    }
                } else if self.controls_closed {
                    self.phase = PipelinePhase::Stopped;
                    self.packets_closed = true;
                    proof {
                        assert(final(self)@ =~= prev.step(source).0);
                    }
                    WorkerAction::Exit
                } else {
                    WorkerAction::Idle
                }
            },
            WorkerSource::Packets => {
                if matches!(self.phase, PipelinePhase::Stopped) || !self.playing {
                    WorkerAction::Idle
                } else if self.queue.len() > 0 {
                    let p = self.queue.remove(0);
                    proof {
                        self.processed@ = self.processed@.push(p@);
                        assert(final(self)@.queue =~= prev.queue.drop_first());
                        assert(final(self)@ =~= prev.step(source).0);
                        assert(final(self)@.processed + final(self)@.queue =~= final(self)@.submitted);
                    }
                    WorkerAction::Decode(p)
                } else if self.packets_closed {
                    self.phase = PipelinePhase::Stopped;
                    proof {
                        assert(final(self)@ =~= prev.step(source).0);
                    }
                    WorkerAction::Drained
                } else {
                    WorkerAction::Idle
                }
            },
        }
    }

    /// The delay, at instant `now_nanos`, before a frame with timestamp
    /// `pts` from this pipeline's stream is due; see
    /// [`StreamClock::spec_delay_nanos`].  The worker suspends for this
    /// long before invoking the frame callback.
    pub fn frame_delay_nanos(&self, pts: Option<i64>, now_nanos: u64) -> (delay: u64)
        requires
            self.wf(),
            pts matches Some(p) ==> p >= 0,
        ensures
            delay == self@.clock.spec_delay_nanos(pts, now_nanos),
    {
        self.clock.delay_nanos(pts, now_nanos)
    }

    /// Whether the worker is consuming packets (`Play`) or leaving them
    /// queued (`Pause`).
    pub fn is_playing(&self) -> (b: bool)
        ensures
            b == self@.playing,
    {
        self.playing
    }

    /// The worker's lifecycle phase.
    pub fn phase(&self) -> (p: PipelinePhase)
        ensures
            p == self@.phase,
    {
        self.phase
    }

    /// How many packets are queued and not yet decoded.
    pub fn queue_len(&self) -> (n: usize)
        ensures
            n == self@.queue.len(),
    {
        self.queue.len()
    }

    /// The fixed capacity of the packet queue: the backpressure knob.
    pub fn capacity(&self) -> (n: usize)
        ensures
            n == self@.capacity,
    {
        self.capacity
    }

    /// Whether the bounded queue can accept another packet right now.
    /// When it cannot, a submitter must suspend until a slot frees.
    pub fn has_space(&self) -> (b: bool)
        ensures
            b == (self@.queue.len() < self@.capacity),
    {
        self.queue.len() < self.capacity
    }

    /// Whether the packet channel has been closed.
    pub fn packets_closed(&self) -> (b: bool)
        ensures
            b == self@.packets_closed,
    {
        self.packets_closed
    }

    /// Whether the control channel has been closed.
    pub fn controls_closed(&self) -> (b: bool)
        ensures
            b == self@.controls_closed,
    {
        self.controls_closed
    }

    /// How many control commands are pending in the inbox.
    pub fn pending_controls(&self) -> (n: usize)
        ensures
            n == self@.controls.len(),
    {
        self.controls.len()
    }

    /// The thread count the decoder should be configured with: the host's
    /// CPU parallelism, captured at construction.
    pub fn decoder_threads(&self) -> (n: usize)
        ensures
            n == self@.decoder_threads,
            n >= 1 <== self.wf(),
    {
        self.decoder_threads
    }
}

/// The pipeline state after `n` iterations of the worker's select loop in
/// which the packet source won the race each time.
pub open spec fn run_packet_steps(v: PipelineView, n: nat) -> PipelineView
    decreases n,
{
    if n == 0 {
        v
    } else {
        run_packet_steps(v.step(WorkerSource::Packets).0, (n - 1) as nat)
    }
}

/// The actions the worker takes over those `n` iterations, in order.
pub open spec fn packet_step_actions(v: PipelineView, n: nat) -> Seq<ActionModel>
    decreases n,
{
    if n == 0 {
        Seq::empty()
    } else {
        seq![v.step(WorkerSource::Packets).1] + packet_step_actions(
            v.step(WorkerSource::Packets).0,
            (n - 1) as nat,
        )
    }
}

/// The decode actions for a sequence of packets, in the same order.
pub open spec fn decodes_of(packets: Seq<PacketModel>) -> Seq<ActionModel> {
    packets.map(|i: int, p: PacketModel| ActionModel::Decode(p))
}

/// Intra-stream ordering: the packets a pipeline has handed to the
/// decoder are exactly a prefix of the packets submitted to it, in the
/// same relative order — decoding neither drops, duplicates, nor reorders
/// packets, so the frames derived from them are delivered in submission
/// order.
pub proof fn lemma_intra_stream_order(v: PipelineView)
    requires
        v.wf(),
    ensures
        v.processed.is_prefix_of(v.submitted),
        v.processed == v.submitted.take(v.processed.len() as int),
{
    assert(v.processed =~= v.submitted.take(v.processed.len() as int));
}

/// Backpressure: a well-formed pipeline never holds more packets than its
/// fixed queue capacity, whatever was submitted to it.  Together with
/// [`DecodePipeline::submit_packet`]'s precondition — a submitter must
/// wait for a free slot — this bounds the memory spent on compressed
/// packets: a slow decoder suspends the demultiplexer instead of letting
/// the queue grow.
pub proof fn lemma_backpressure(v: PipelineView)
    requires
        v.wf(),
    ensures
        v.queue.len() <= v.capacity,
{
}

/// A worker iteration preserves the pipeline invariant, never forgets a
/// decoded packet, and never un-submits one.
pub proof fn lemma_step_preserves_wf(v: PipelineView, source: WorkerSource)
    requires
        v.wf(),
    ensures
        v.step(source).0.wf(),
        v.processed.is_prefix_of(v.step(source).0.processed),
        v.step(source).0.submitted == v.submitted,
        v.step(source).0.received_controls() == v.received_controls(),
{
    let next = v.step(source).0;
    assert(next.processed + next.queue =~= next.submitted);
    assert(v.processed =~= next.processed.take(v.processed.len() as int));
    assert(next.received_controls() =~= v.received_controls());
}

/// Pause then play loses nothing: with `Pause` followed by `Play` at the
/// head of the inbox, observing both commands leaves the queue, the
/// submission history and the decode history exactly as they were, and
/// the worker is playing again — every packet submitted before the pause
/// is still queued for decoding after the resume.
pub proof fn lemma_pause_play_no_loss(v: PipelineView)
    requires
        v.wf(),
        v.controls.len() >= 2,
        v.controls[0] is Pause,
        v.controls[1] is Play,
    ensures
        ({
            let (v1, a1) = v.step(WorkerSource::Controls);
            let (v2, a2) = v1.step(WorkerSource::Controls);
            &&& a1 is Paused
            &&& a2 is Resumed
            &&& !v1.playing
            &&& v2.playing
            &&& v2.queue == v.queue
            &&& v2.submitted == v.submitted
            &&& v2.processed == v.processed
            &&& v2.phase == v.phase
            &&& v2.wf()
        }),
{
    let (v1, a1) = v.step(WorkerSource::Controls);
    let (v2, a2) = v1.step(WorkerSource::Controls);
    lemma_step_preserves_wf(v, WorkerSource::Controls);
    lemma_step_preserves_wf(v1, WorkerSource::Controls);
}

/// A packet submitted during a pause is not dropped: after the worker
/// observes a `Pause`, a submission still lands at the back of the queue,
/// and after the worker observes the following `Play` the whole queue —
/// including that packet — is intact and processing may resume.
pub proof fn lemma_submit_during_pause(v: PipelineView, p: PacketModel)
    requires
        v.wf(),
        v.controls.len() >= 2,
        v.controls[0] is Pause,
        v.controls[1] is Play,
        !v.packets_closed,
        v.queue.len() < v.capacity,
    ensures
        ({
            let v1 = v.step(WorkerSource::Controls).0;
            let v2 = v1.after_submit(p);
            let v3 = v2.step(WorkerSource::Controls).0;
            &&& !v1.playing
            &&& v3.playing
            &&& v3.queue == v.queue.push(p)
            &&& v3.processed == v.processed
            &&& v3.wf()
        }),
{
    let v1 = v.step(WorkerSource::Controls).0;
    let v2 = v1.after_submit(p);
    let v3 = v2.step(WorkerSource::Controls).0;
    lemma_step_preserves_wf(v, WorkerSource::Controls);
    assert(v2.processed + v2.queue =~= v2.submitted);
    lemma_step_preserves_wf(v2, WorkerSource::Controls);
}

/// Shutdown safety: when the packet channel closes with `k` packets still
/// queued and the worker keeps playing with no further commands, the next
/// `k` worker iterations decode exactly those `k` packets, in order, and
/// the iteration after that drains and stops the worker — no queued
/// packet is lost at shutdown, and nothing is decoded after the stop.
pub proof fn lemma_shutdown_drains(v: PipelineView, k: nat)
    requires
        v.wf(),
        v.playing,
        v.packets_closed,
        !(v.phase is Stopped),
        v.queue.len() == k,
    ensures
        packet_step_actions(v, k + 1) == decodes_of(v.queue).push(ActionModel::Drained),
        run_packet_steps(v, k + 1).phase is Stopped,
        run_packet_steps(v, k + 1).processed == v.processed + v.queue,
        run_packet_steps(v, k + 1).submitted == v.submitted,
    decreases k,
{
    let (v1, a1) = v.step(WorkerSource::Packets);
    lemma_step_preserves_wf(v, WorkerSource::Packets);
    if k == 0 {
        assert(a1 is Drained);
        assert(packet_step_actions(v1, 0) =~= Seq::<ActionModel>::empty());
        assert(packet_step_actions(v, 1) =~= seq![a1] + packet_step_actions(v1, 0));
        assert(packet_step_actions(v, 1) =~= decodes_of(v.queue).push(ActionModel::Drained));
        assert(v1.processed =~= v.processed + v.queue);
    } else {
        lemma_shutdown_drains(v1, (k - 1) as nat);
        assert(packet_step_actions(v1, k) == decodes_of(v1.queue).push(ActionModel::Drained));
        assert(packet_step_actions(v, k + 1) =~= seq![a1] + packet_step_actions(v1, k));
        assert(decodes_of(v.queue) =~= seq![ActionModel::Decode(v.queue[0])] + decodes_of(
            v1.queue,
        ));
        assert(packet_step_actions(v, k + 1) =~= decodes_of(v.queue).push(ActionModel::Drained));
        assert(run_packet_steps(v1, k).processed =~= v.processed + v.queue);
    }
}

} // verus!
