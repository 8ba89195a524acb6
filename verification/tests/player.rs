use audio_deck::command::clamp_volume;
use audio_deck::command::PlaybackCommand;
use audio_deck::control::get_track_metadata;
use audio_deck::control::ControlState;
use audio_deck::duration::duration_or_zero;
use audio_deck::worker::SinkAction;
use audio_deck::worker::WorkerState;

fn started_control() -> ControlState {
    let mut s = ControlState::default();
    s.ensure_worker();
    s
}

fn playing_worker(path: &str) -> WorkerState {
    let mut w = WorkerState::initial(750);
    let actions = w.step(PlaybackCommand::Load(path.to_string()));
    assert!(actions.is_empty());
    let actions = w.step(PlaybackCommand::Play);
    assert_eq!(
        actions,
        vec![SinkAction::StartPlayback { path: path.to_string(), volume: 750 }]
    );
    w.confirm_playback(true);
    w
}

#[test]
fn lazy_start_happens_at_most_once() {
    let mut s = ControlState::default();
    assert!(!s.worker_started);
    let (spawn_first, cmd) = s.play();
    assert!(spawn_first);
    assert_eq!(cmd, PlaybackCommand::Play);
    let (spawn_second, _) = s.play();
    assert!(!spawn_second);
    let (_, spawn_third, _) = s.load_track("a.mp3".to_string(), None);
    assert!(!spawn_third);
}

#[test]
fn lazy_start_on_load_track() {
    let mut s = ControlState::default();
    let (_, spawn, cmd) = s.load_track("music/a.mp3".to_string(), None);
    assert!(spawn);
    assert_eq!(cmd, PlaybackCommand::Load("music/a.mp3".to_string()));
    let (spawn_again, _) = s.play();
    assert!(!spawn_again);
}

#[test]
fn default_control_state() {
    let s = ControlState::default();
    assert!(!s.worker_started);
    assert_eq!(s.current_file, None);
    assert_eq!(s.duration_millis, 0);
    assert!(!s.playing);
    assert_eq!(s.volume, 750);
}

#[test]
fn commands_before_worker_send_nothing() {
    let mut s = ControlState::default();
    assert_eq!(s.pause(), None);
    assert_eq!(s.resume(), None);
    assert_eq!(s.stop(), None);
    assert_eq!(s.seek(3000), None);
    assert_eq!(s.set_volume(400), None);
    assert_eq!(s.volume, 400);
    assert!(!s.worker_started);
}

#[test]
fn commands_after_worker_send() {
    let mut s = started_control();
    assert_eq!(s.pause(), Some(PlaybackCommand::Pause));
    assert!(!s.is_playing());
    assert_eq!(s.resume(), Some(PlaybackCommand::Resume));
    assert!(s.is_playing());
    assert_eq!(s.stop(), Some(PlaybackCommand::Stop));
    assert!(!s.is_playing());
    assert_eq!(s.seek(12500), Some(PlaybackCommand::Seek(12500)));
}

#[test]
fn volume_is_clamped_before_reaching_the_worker() {
    assert_eq!(clamp_volume(-5), 0);
    assert_eq!(clamp_volume(0), 0);
    assert_eq!(clamp_volume(300), 300);
    assert_eq!(clamp_volume(1000), 1000);
    assert_eq!(clamp_volume(1500), 1000);

    let mut s = started_control();
    assert_eq!(s.set_volume(1500), Some(PlaybackCommand::SetVolume(1000)));
    assert_eq!(s.volume, 1000);
    assert_eq!(s.set_volume(-200), Some(PlaybackCommand::SetVolume(0)));
    assert_eq!(s.volume, 0);
    assert_eq!(s.set_volume(640), Some(PlaybackCommand::SetVolume(640)));
    assert_eq!(s.volume, 640);
}

#[test]
fn play_stops_previous_sink_first() {
    let mut w = playing_worker("music/a.mp3");
    let actions = w.step(PlaybackCommand::Play);
    assert_eq!(
        actions,
        vec![
            SinkAction::StopSink,
            SinkAction::StartPlayback { path: "music/a.mp3".to_string(), volume: 750 },
        ]
    );
    assert!(w.sink.is_none());
    w.confirm_playback(true);
    assert!(w.sink.is_some());
}

#[test]
fn failed_start_leaves_no_sink() {
    let mut w = WorkerState::initial(750);
    w.step(PlaybackCommand::Load("broken.mp3".to_string()));
    let actions = w.step(PlaybackCommand::Play);
    assert_eq!(actions.len(), 1);
    w.confirm_playback(false);
    assert!(w.sink.is_none());
    let actions = w.step(PlaybackCommand::Pause);
    assert!(actions.is_empty());
}

#[test]
fn play_without_loaded_track_does_nothing() {
    let mut w = WorkerState::initial(750);
    let actions = w.step(PlaybackCommand::Play);
    assert!(actions.is_empty());
    assert!(w.sink.is_none());
}

#[test]
fn pause_resume_pause_leaves_sink_paused() {
    let mut w = playing_worker("music/a.mp3");
    assert_eq!(w.step(PlaybackCommand::Pause), vec![SinkAction::PauseSink]);
    assert!(w.sink.unwrap().paused);
    assert_eq!(w.step(PlaybackCommand::Resume), vec![SinkAction::ResumeSink]);
    assert!(!w.sink.unwrap().paused);
    assert_eq!(w.step(PlaybackCommand::Pause), vec![SinkAction::PauseSink]);
    assert!(w.sink.unwrap().paused);
}

#[test]
fn set_volume_applies_to_live_sink() {
    let mut w = playing_worker("music/a.mp3");
    let actions = w.step(PlaybackCommand::SetVolume(250));
    assert_eq!(actions, vec![SinkAction::ApplyVolume(250)]);
    assert_eq!(w.volume, 250);
    assert_eq!(w.sink.unwrap().volume, 250);
}

#[test]
fn set_volume_without_sink_only_caches() {
    let mut w = WorkerState::initial(750);
    let actions = w.step(PlaybackCommand::SetVolume(100));
    assert!(actions.is_empty());
    assert_eq!(w.volume, 100);
}

#[test]
fn seek_with_live_sink() {
    let mut w = playing_worker("music/a.mp3");
    assert_eq!(w.step(PlaybackCommand::Seek(90_000)), vec![SinkAction::SeekTo(90_000)]);
}

#[test]
fn after_stop_commands_are_noops_and_play_restarts() {
    let mut w = playing_worker("music/a.mp3");
    assert_eq!(w.step(PlaybackCommand::Stop), vec![SinkAction::StopSink]);
    assert!(w.sink.is_none());
    assert!(w.step(PlaybackCommand::Pause).is_empty());
    assert!(w.step(PlaybackCommand::Resume).is_empty());
    assert!(w.step(PlaybackCommand::Seek(5000)).is_empty());
    let actions = w.step(PlaybackCommand::Play);
    assert_eq!(
        actions,
        vec![SinkAction::StartPlayback { path: "music/a.mp3".to_string(), volume: 750 }]
    );
}

#[test]
fn get_position_is_always_zero() {
    let mut s = ControlState::default();
    assert_eq!(s.get_position(), 0);
    s.play();
    assert_eq!(s.get_position(), 0);
    s.seek(42_000);
    assert_eq!(s.get_position(), 0);
}

#[test]
fn failed_probe_reports_zero_duration() {
    assert_eq!(duration_or_zero(None), 0);
    assert_eq!(duration_or_zero(Some(183_500)), 183_500);
}

#[test]
fn metadata_of_a_failed_probe() {
    let info = get_track_metadata("/no/such/dir/missing_track.mp3".to_string(), None);
    assert_eq!(info.path, "/no/such/dir/missing_track.mp3");
    assert_eq!(info.filename, "missing_track.mp3");
    assert_eq!(info.duration_millis, 0);
}

#[test]
fn metadata_of_a_measured_track() {
    let info = get_track_metadata("music/a.mp3".to_string(), Some(212_000));
    assert_eq!(info.filename, "a.mp3");
    assert_eq!(info.duration_millis, 212_000);
}

#[test]
fn load_track_updates_the_cache() {
    let mut s = ControlState::default();
    let (info, spawn, cmd) = s.load_track("/no/such/dir/missing_track.mp3".to_string(), None);
    assert!(spawn);
    assert_eq!(cmd, PlaybackCommand::Load("/no/such/dir/missing_track.mp3".to_string()));
    assert_eq!(info.filename, "missing_track.mp3");
    assert_eq!(info.duration_millis, 0);
    assert_eq!(s.current_file, Some("/no/such/dir/missing_track.mp3".to_string()));
    assert_eq!(s.duration_millis, 0);
    assert!(s.worker_started);

    let (info, spawn, _) = s.load_track("music/b.mp3".to_string(), Some(98_765));
    assert!(!spawn);
    assert_eq!(info.duration_millis, 98_765);
    assert_eq!(s.duration_millis, 98_765);
}

#[test]
fn play_flag_follows_the_send_outcome() {
    let mut s = ControlState::default();
    let (_, cmd) = s.play();
    assert_eq!(cmd, PlaybackCommand::Play);
    // The send has not been confirmed: the cache still reads not playing.
    assert!(!s.is_playing());
    s.confirm_play_sent();
    assert!(s.is_playing());
}
