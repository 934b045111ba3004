use playback::media::{EngineError, Packet, StreamDesc};
use playback::pipeline::{PipelinePhase, WorkerAction, WorkerSource};
use playback::player::{DispatchOutcome, Player, PlayerState};

fn desc(stream_index: usize, num: u32, den: u32) -> StreamDesc {
    StreamDesc { stream_index, time_base_num: num, time_base_den: den }
}

fn packet(stream_index: usize, pts: i64) -> Packet {
    Packet { stream_index, pts: Some(pts), data: vec![0x42] }
}

fn start_av_player() -> Player {
    Player::start(desc(0, 1, 25), Some(desc(1, 1, 48_000)), 8, 0).unwrap()
}

#[test]
fn start_fails_on_invalid_video_time_base() {
    let r = Player::start(desc(0, 1, 0), None, 8, 0);
    assert!(matches!(r, Err(EngineError::InvalidTimeBase)));
}

#[test]
fn start_fails_on_invalid_audio_time_base() {
    let r = Player::start(desc(0, 1, 25), Some(desc(1, 1, 0)), 8, 0);
    assert!(matches!(r, Err(EngineError::InvalidTimeBase)));
}

#[test]
fn start_fails_on_duplicate_stream_index() {
    let r = Player::start(desc(3, 1, 25), Some(desc(3, 1, 48_000)), 8, 0);
    assert!(matches!(r, Err(EngineError::DuplicateStream)));
}

#[test]
fn started_player_is_playing() {
    let p = start_av_player();
    assert_eq!(p.state(), PlayerState::Playing);
    assert!(p.video_pipeline().is_playing());
    assert!(p.audio_pipeline().unwrap().is_playing());
}

#[test]
fn toggle_twice_restores_state_with_alternating_callbacks() {
    // Two toggles in immediate succession: two state-changed reports with
    // alternating values, and the original state restored.
    let mut p = start_av_player();
    assert_eq!(p.toggle_pause_playing(), Some(false));
    assert_eq!(p.state(), PlayerState::Paused);
    assert_eq!(p.toggle_pause_playing(), Some(true));
    assert_eq!(p.state(), PlayerState::Playing);
}

#[test]
fn toggle_broadcasts_to_every_pipeline() {
    // Both pipelines receive the same command before the toggle returns:
    // after each worker observes its inbox, the two playing flags agree.
    let mut p = start_av_player();
    assert_eq!(p.toggle_pause_playing(), Some(false));
    assert!(matches!(p.video_worker_step(WorkerSource::Controls), WorkerAction::Paused));
    assert!(matches!(
        p.audio_worker_step(WorkerSource::Controls),
        Some(WorkerAction::Paused)
    ));
    assert!(!p.video_pipeline().is_playing());
    assert!(!p.audio_pipeline().unwrap().is_playing());
    assert_eq!(p.toggle_pause_playing(), Some(true));
    assert!(matches!(p.video_worker_step(WorkerSource::Controls), WorkerAction::Resumed));
    assert!(matches!(
        p.audio_worker_step(WorkerSource::Controls),
        Some(WorkerAction::Resumed)
    ));
    assert!(p.video_pipeline().is_playing());
    assert!(p.audio_pipeline().unwrap().is_playing());
}

#[test]
fn toggle_after_stop_reports_nothing() {
    let mut p = start_av_player();
    p.shutdown();
    assert_eq!(p.state(), PlayerState::Stopped);
    assert_eq!(p.toggle_pause_playing(), None);
    assert_eq!(p.state(), PlayerState::Stopped);
}

#[test]
fn packets_route_to_their_stream_pipeline() {
    let mut p = start_av_player();
    assert_eq!(p.dispatch_packet(packet(0, 1)), DispatchOutcome::Delivered);
    assert_eq!(p.dispatch_packet(packet(1, 2)), DispatchOutcome::Delivered);
    assert_eq!(p.video_pipeline().queue_len(), 1);
    assert_eq!(p.audio_pipeline().unwrap().queue_len(), 1);
}

#[test]
fn packets_of_unregistered_streams_are_discarded() {
    // A subtitle or data stream nobody plays: dropped without error.
    let mut p = start_av_player();
    assert_eq!(p.dispatch_packet(packet(7, 1)), DispatchOutcome::Discarded);
    assert_eq!(p.video_pipeline().queue_len(), 0);
    assert_eq!(p.audio_pipeline().unwrap().queue_len(), 0);
}

#[test]
fn end_of_stream_closes_and_drains_every_pipeline() {
    let mut p = start_av_player();
    assert_eq!(p.dispatch_packet(packet(0, 1)), DispatchOutcome::Delivered);
    p.end_of_stream();
    assert_eq!(p.video_pipeline().phase(), PipelinePhase::Draining);
    assert_eq!(p.audio_pipeline().unwrap().phase(), PipelinePhase::Draining);
    assert_eq!(p.dispatch_packet(packet(0, 2)), DispatchOutcome::Closed);
    // The queued video packet still comes out before the drain finishes.
    assert!(matches!(p.video_worker_step(WorkerSource::Packets), WorkerAction::Decode(_)));
    assert!(matches!(p.video_worker_step(WorkerSource::Packets), WorkerAction::Drained));
    assert!(matches!(
        p.audio_worker_step(WorkerSource::Packets),
        Some(WorkerAction::Drained)
    ));
    // Every worker has exited: the player observes the implicit stop.
    assert!(p.refresh_state());
    assert_eq!(p.state(), PlayerState::Stopped);
}

#[test]
fn refresh_before_workers_finish_changes_nothing() {
    let mut p = start_av_player();
    p.end_of_stream();
    assert!(matches!(p.video_worker_step(WorkerSource::Packets), WorkerAction::Drained));
    // The audio worker has not drained yet.
    assert!(!p.refresh_state());
    assert_eq!(p.state(), PlayerState::Playing);
}

#[test]
fn shutdown_makes_every_worker_exit() {
    let mut p = start_av_player();
    p.shutdown();
    assert!(matches!(p.video_worker_step(WorkerSource::Controls), WorkerAction::Exit));
    assert!(matches!(
        p.audio_worker_step(WorkerSource::Controls),
        Some(WorkerAction::Exit)
    ));
    assert_eq!(p.video_pipeline().phase(), PipelinePhase::Stopped);
    assert_eq!(p.audio_pipeline().unwrap().phase(), PipelinePhase::Stopped);
}

#[test]
fn video_only_player_has_no_audio_pipeline() {
    let mut p = Player::start(desc(0, 1, 25), None, 8, 0).unwrap();
    assert!(p.audio_pipeline().is_none());
    assert!(p.audio_worker_step(WorkerSource::Packets).is_none());
    assert_eq!(p.dispatch_packet(packet(1, 1)), DispatchOutcome::Discarded);
    assert_eq!(p.dispatch_packet(packet(0, 1)), DispatchOutcome::Delivered);
}

#[test]
fn pipelines_share_one_epoch() {
    // Both clocks carry the epoch passed at start: a video frame and an
    // audio frame with the same target instant get the same delay.
    let mut p = Player::start(desc(0, 1, 10), Some(desc(1, 1, 10)), 8, 500).unwrap();
    assert_eq!(p.dispatch_packet(packet(0, 2)), DispatchOutcome::Delivered);
    assert_eq!(p.dispatch_packet(packet(1, 2)), DispatchOutcome::Delivered);
    let vd = p.video_pipeline().frame_delay_nanos(Some(2), 500);
    let ad = p.audio_pipeline().unwrap().frame_delay_nanos(Some(2), 500);
    assert_eq!(vd, 200_000_000);
    assert_eq!(ad, vd);
}
