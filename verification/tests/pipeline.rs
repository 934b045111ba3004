use playback::media::{ControlCommand, Packet, StreamDesc};
use playback::pipeline::{DecodePipeline, PipelinePhase, WorkerAction, WorkerSource};

fn desc(stream_index: usize, num: u32, den: u32) -> StreamDesc {
    StreamDesc { stream_index, time_base_num: num, time_base_den: den }
}

fn packet(stream_index: usize, pts: i64) -> Packet {
    Packet { stream_index, pts: Some(pts), data: vec![0xAB, 0xCD] }
}

fn start_pipeline(capacity: usize) -> DecodePipeline {
    DecodePipeline::start(desc(0, 1, 25), 0, capacity).unwrap()
}

#[test]
fn start_fails_on_zero_time_base_denominator() {
    let r = DecodePipeline::start(desc(0, 1, 0), 0, 8);
    assert!(matches!(r, Err(playback::media::EngineError::InvalidTimeBase)));
}

#[test]
fn fresh_pipeline_is_playing_and_empty() {
    let p = start_pipeline(8);
    assert!(p.is_playing());
    assert_eq!(p.phase(), PipelinePhase::Running);
    assert_eq!(p.queue_len(), 0);
    assert_eq!(p.capacity(), 8);
    assert!(!p.packets_closed());
    assert!(!p.controls_closed());
}

#[test]
fn decoder_threads_are_at_least_one() {
    let p = start_pipeline(8);
    assert!(p.decoder_threads() >= 1);
}

#[test]
fn packets_decode_in_submission_order() {
    // Ten packets with increasing timestamps at time base 1/25: the worker
    // hands them to the decoder in exactly the submitted order, and each
    // frame's computed delay advances by 1/25 s = 40 ms.
    let mut p = start_pipeline(16);
    for i in 0..10 {
        assert!(p.submit_packet(packet(0, i)));
    }
    p.close_packets();
    let mut delays = Vec::new();
    for i in 0..10 {
        match p.worker_step(WorkerSource::Packets) {
            WorkerAction::Decode(pkt) => {
                assert_eq!(pkt.pts, Some(i));
                delays.push(p.frame_delay_nanos(pkt.pts, 0));
            }
            other => panic!("expected a decode action, got {:?}", action_name(&other)),
        }
    }
    let expected: Vec<u64> = (0..10).map(|i| i * 40_000_000).collect();
    assert_eq!(delays, expected);
    assert!(matches!(p.worker_step(WorkerSource::Packets), WorkerAction::Drained));
    assert_eq!(p.phase(), PipelinePhase::Stopped);
}

fn action_name(a: &WorkerAction) -> &'static str {
    match a {
        WorkerAction::Decode(_) => "Decode",
        WorkerAction::Paused => "Paused",
        WorkerAction::Resumed => "Resumed",
        WorkerAction::Drained => "Drained",
        WorkerAction::Exit => "Exit",
        WorkerAction::Idle => "Idle",
    }
}

#[test]
fn queue_is_bounded_by_capacity() {
    // Capacity 3 is the backpressure knob: after three submissions the
    // queue reports no space, and a submitter must wait for the worker to
    // free a slot before the fourth.
    let mut p = start_pipeline(3);
    for i in 0..3 {
        assert!(p.has_space());
        assert!(p.submit_packet(packet(0, i)));
    }
    assert_eq!(p.queue_len(), 3);
    assert!(!p.has_space());
    match p.worker_step(WorkerSource::Packets) {
        WorkerAction::Decode(_) => {}
        _ => panic!("expected a decode action"),
    }
    assert!(p.has_space());
    assert!(p.submit_packet(packet(0, 3)));
    assert_eq!(p.queue_len(), 3);
}

#[test]
fn capacity_one_alternates_submit_and_decode() {
    // The smallest legal queue: every submission must wait for the
    // previous packet to be decoded.
    let mut p = start_pipeline(1);
    for i in 0..3 {
        assert!(p.has_space());
        assert!(p.submit_packet(packet(0, i)));
        assert!(!p.has_space());
        match p.worker_step(WorkerSource::Packets) {
            WorkerAction::Decode(pkt) => assert_eq!(pkt.pts, Some(i)),
            _ => panic!("expected a decode action"),
        }
    }
}

#[test]
fn pause_then_play_loses_no_packet() {
    // Two packets before the pause, one during it: after the resume all
    // three come out, in order.
    let mut p = start_pipeline(8);
    assert!(p.submit_packet(packet(0, 0)));
    assert!(p.submit_packet(packet(0, 1)));
    assert!(p.send_control(ControlCommand::Pause));
    assert!(matches!(p.worker_step(WorkerSource::Controls), WorkerAction::Paused));
    assert!(!p.is_playing());
    assert!(matches!(p.worker_step(WorkerSource::Packets), WorkerAction::Idle));
    assert!(p.submit_packet(packet(0, 2)));
    assert!(p.send_control(ControlCommand::Play));
    assert!(matches!(p.worker_step(WorkerSource::Controls), WorkerAction::Resumed));
    assert!(p.is_playing());
    for i in 0..3 {
        match p.worker_step(WorkerSource::Packets) {
            WorkerAction::Decode(pkt) => assert_eq!(pkt.pts, Some(i)),
            _ => panic!("expected a decode action"),
        }
    }
    assert_eq!(p.queue_len(), 0);
}

#[test]
fn closing_with_queued_packets_drains_exactly_those() {
    // Close the packet channel with three packets queued: exactly three
    // more decode actions, then the drain, then the worker is stopped and
    // nothing further is decoded.
    let mut p = start_pipeline(8);
    for i in 0..3 {
        assert!(p.submit_packet(packet(0, i)));
    }
    p.close_packets();
    assert_eq!(p.phase(), PipelinePhase::Draining);
    assert!(!p.submit_packet(packet(0, 99)));
    for i in 0..3 {
        match p.worker_step(WorkerSource::Packets) {
            WorkerAction::Decode(pkt) => assert_eq!(pkt.pts, Some(i)),
            _ => panic!("expected a decode action"),
        }
    }
    assert!(matches!(p.worker_step(WorkerSource::Packets), WorkerAction::Drained));
    assert_eq!(p.phase(), PipelinePhase::Stopped);
    assert!(matches!(p.worker_step(WorkerSource::Packets), WorkerAction::Idle));
}

#[test]
fn control_channel_close_exits_the_worker() {
    let mut p = start_pipeline(8);
    assert!(p.submit_packet(packet(0, 0)));
    p.close_controls();
    assert!(!p.send_control(ControlCommand::Pause));
    assert!(matches!(p.worker_step(WorkerSource::Controls), WorkerAction::Exit));
    assert_eq!(p.phase(), PipelinePhase::Stopped);
    // The worker dropped its receiver: later submissions see it closed.
    assert!(!p.submit_packet(packet(0, 1)));
}

#[test]
fn commands_apply_in_send_order() {
    let mut p = start_pipeline(8);
    assert!(p.send_control(ControlCommand::Pause));
    assert!(p.send_control(ControlCommand::Play));
    assert!(p.send_control(ControlCommand::Pause));
    assert_eq!(p.pending_controls(), 3);
    assert!(matches!(p.worker_step(WorkerSource::Controls), WorkerAction::Paused));
    assert!(matches!(p.worker_step(WorkerSource::Controls), WorkerAction::Resumed));
    assert!(matches!(p.worker_step(WorkerSource::Controls), WorkerAction::Paused));
    assert!(!p.is_playing());
    assert_eq!(p.pending_controls(), 0);
}

#[test]
fn idle_sources_change_nothing() {
    let mut p = start_pipeline(8);
    assert!(matches!(p.worker_step(WorkerSource::Packets), WorkerAction::Idle));
    assert!(matches!(p.worker_step(WorkerSource::Controls), WorkerAction::Idle));
    assert!(p.is_playing());
    assert_eq!(p.phase(), PipelinePhase::Running);
}

#[test]
fn packet_payload_survives_the_queue() {
    let mut p = start_pipeline(4);
    let data = vec![1, 2, 3, 4, 5];
    assert!(p.submit_packet(Packet { stream_index: 0, pts: None, data: data.clone() }));
    match p.worker_step(WorkerSource::Packets) {
        WorkerAction::Decode(pkt) => {
            assert_eq!(pkt.data, data);
            assert_eq!(pkt.pts, None);
            // A frame without a timestamp is presented immediately.
            assert_eq!(p.frame_delay_nanos(pkt.pts, 123), 0);
        }
        _ => panic!("expected a decode action"),
    }
}
