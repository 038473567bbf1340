use bloodin::player::local_url;
use bloodin::player::BytesPlan;
use bloodin::player::CommandAction;
use bloodin::player::PlayerCommand;
use bloodin::player::PlayerCore;
use bloodin::player::PlayerEvent;
use bloodin::player::QueueItem;
use bloodin::player::RepeatMode;
use bloodin::player::DEFAULT_VOLUME;
use bloodin::player::MAX_VOLUME;
use bloodin::AudioError;

fn item(id: &str, url: &str, duration_ticks: Option<i64>) -> QueueItem {
    QueueItem {
        id: id.to_string(),
        name: format!("Track {}", id),
        artists: vec!["Some Artist".to_string()],
        album: Some("Some Album".to_string()),
        duration_ticks,
        stream_url: url.to_string(),
    }
}

#[test]
fn fresh_actor_is_idle_with_defaults() {
    let core = PlayerCore::new();
    assert!(!core.state.is_playing);
    assert_eq!(core.state.current_position, 0);
    assert_eq!(core.state.duration, 0);
    assert_eq!(core.state.volume, DEFAULT_VOLUME);
    assert!(!core.state.is_shuffled);
    assert!(matches!(core.state.repeat_mode, RepeatMode::Off));
    assert!(core.state.current_song.is_none());
    assert!(!core.has_sink);
}

#[test]
fn set_volume_clamps_and_persists() {
    let mut core = PlayerCore::new();
    let events = core.set_volume(150);
    assert_eq!(core.state.volume, MAX_VOLUME);
    assert_eq!(events.len(), 1);
    assert!(matches!(&events[0], PlayerEvent::StateChanged(s) if s.volume == MAX_VOLUME));
    core.set_volume(55);
    assert_eq!(core.state.volume, 55);
}

#[test]
fn toggle_shuffle_flips_the_flag() {
    let mut core = PlayerCore::new();
    core.toggle_shuffle();
    assert!(core.state.is_shuffled);
    core.toggle_shuffle();
    assert!(!core.state.is_shuffled);
}

#[test]
fn set_repeat_mode_persists() {
    let mut core = PlayerCore::new();
    let events = core.set_repeat_mode(RepeatMode::All);
    assert!(matches!(core.state.repeat_mode, RepeatMode::All));
    assert_eq!(events.len(), 1);
}

#[test]
fn pause_and_resume_without_sink_are_noops() {
    let mut core = PlayerCore::new();
    let paused = core.pause(10);
    assert!(paused.is_empty());
    assert!(!core.state.is_playing);
    let resumed = core.resume(20);
    assert!(resumed.is_empty());
    assert!(!core.state.is_playing);
}

#[test]
fn play_commit_starts_playing_from_offset() {
    let mut core = PlayerCore::new();
    let events = core.play_commit(item("t1", "http://srv/t1", None), 0, 2500, 1000);
    assert!(core.state.is_playing);
    assert!(core.has_sink);
    assert_eq!(core.state.current_position, 0);
    assert_eq!(core.state.duration, 2500);
    assert!(matches!(&core.state.current_song, Some(s) if s.id == "t1"));
    assert_eq!(events.len(), 2);
    assert!(matches!(&events[0], PlayerEvent::TrackChanged(Some(s)) if s.id == "t1"));
    assert!(matches!(&events[1], PlayerEvent::StateChanged(s) if s.is_playing));
}

#[test]
fn duration_hint_fills_in_for_unknown_probe() {
    // 30,000,000 ticks of 100 ns are three seconds.
    let mut core = PlayerCore::new();
    core.play_commit(item("t2", "http://srv/t2", Some(30_000_000)), 0, 0, 0);
    assert_eq!(core.state.duration, 3000);
}

#[test]
fn three_second_track_finishes_after_elapsed_wall_clock() {
    // Scenario: play a 3.0 s track; 3.1 s later with no interaction the
    // state reads not playing at exactly the duration.
    let mut core = PlayerCore::new();
    core.play_commit(item("t3", "http://srv/t3", Some(30_000_000)), 0, 0, 1000);
    let (state, _events) = core.get_state(4100);
    assert!(!state.is_playing);
    assert_eq!(state.current_position, 3000);
    assert!(core.audio_start_time.is_none());
}

#[test]
fn positions_never_decrease_while_playing() {
    let mut core = PlayerCore::new();
    core.play_commit(item("t4", "http://srv/t4", Some(100_000_000)), 0, 0, 0);
    let (s1, _) = core.get_state(300);
    let (s2, _) = core.get_state(600);
    let (s3, _) = core.get_state(900);
    assert_eq!(s1.current_position, 300);
    assert_eq!(s2.current_position, 600);
    assert_eq!(s3.current_position, 900);
    assert!(s1.current_position <= s2.current_position);
    assert!(s2.current_position <= s3.current_position);
}

#[test]
fn position_updates_are_rate_limited() {
    let mut core = PlayerCore::new();
    core.play_commit(item("t5", "http://srv/t5", Some(100_000_000)), 0, 0, 0);
    // 300 ms after the last broadcast: too soon for a position update.
    let early = core.update_position(300);
    assert!(early.is_empty());
    // 600 ms after: due.
    let due = core.update_position(600);
    assert_eq!(due.len(), 2);
    assert!(matches!(due[0], PlayerEvent::PositionUpdate(600)));
    assert!(matches!(&due[1], PlayerEvent::StateChanged(_)));
    // Only 200 ms since that broadcast: quiet again.
    let quiet = core.update_position(800);
    assert!(quiet.is_empty());
    assert_eq!(core.state.current_position, 800);
}

#[test]
fn seek_lands_within_one_tick_interval() {
    let mut core = PlayerCore::new();
    core.play_commit(item("t6", "http://srv/t6", Some(100_000_000)), 0, 0, 1000);
    core.seek_commit(1500, 2000);
    assert_eq!(core.state.current_position, 1500);
    let (state, _) = core.get_state(2200);
    assert_eq!(state.current_position, 1700);
    assert!(state.current_position >= 1500);
    assert!(state.current_position <= 1500 + 250);
}

#[test]
fn seek_while_paused_keeps_the_pause() {
    let mut core = PlayerCore::new();
    core.play_commit(item("t7", "http://srv/t7", Some(100_000_000)), 0, 0, 0);
    core.pause(1000);
    core.seek_commit(4000, 1500);
    assert!(!core.state.is_playing);
    assert!(core.audio_start_time.is_none());
    assert_eq!(core.state.current_position, 4000);
    let (state, _) = core.get_state(9000);
    assert_eq!(state.current_position, 4000);
}

#[test]
fn pause_resume_roundtrip_keeps_position() {
    let mut core = PlayerCore::new();
    core.play_commit(item("t8", "http://srv/t8", Some(100_000_000)), 0, 0, 0);
    core.pause(1000);
    assert_eq!(core.state.current_position, 1000);
    assert!(!core.state.is_playing);
    // A long paused interval passes.
    core.resume(5000);
    assert!(core.state.is_playing);
    assert_eq!(core.state.current_position, 1000);
    let (state, _) = core.get_state(5000);
    assert_eq!(state.current_position, 1000);
}

#[test]
fn stop_resets_everything() {
    let mut core = PlayerCore::new();
    core.play_commit(item("t9", "http://srv/t9", Some(100_000_000)), 0, 0, 0);
    core.set_cached_audio("t9".to_string(), vec![1, 2, 3]);
    let events = core.stop();
    assert!(!core.state.is_playing);
    assert!(!core.has_sink);
    assert_eq!(core.state.current_position, 0);
    assert!(core.state.current_song.is_none());
    assert!(core.cached_audio.is_none());
    assert!(core.cached_song_id.is_none());
    assert_eq!(events.len(), 2);
    assert!(matches!(&events[0], PlayerEvent::StateChanged(_)));
    assert!(matches!(&events[1], PlayerEvent::TrackChanged(None)));
}

#[test]
fn play_failure_returns_to_idle_and_reports() {
    let mut core = PlayerCore::new();
    core.play_commit(item("t10", "http://srv/t10", None), 0, 9000, 0);
    let events = core.play_failed("decode went wrong".to_string());
    assert!(!core.state.is_playing);
    assert!(!core.has_sink);
    assert!(core.state.current_song.is_none());
    assert_eq!(events.len(), 3);
    assert!(matches!(&events[0], PlayerEvent::Error(m) if m == "decode went wrong"));
    assert!(matches!(&events[1], PlayerEvent::StateChanged(_)));
    assert!(matches!(&events[2], PlayerEvent::TrackChanged(None)));
}

#[test]
fn next_track_wraps_under_repeat_all() {
    // Scenario: repeat-all over a three-item queue; the fourth advance from
    // the start is back at index zero.
    let mut core = PlayerCore::new();
    core.set_repeat_mode(RepeatMode::All);
    let items = vec![
        item("q0", "http://srv/q0", None),
        item("q1", "http://srv/q1", None),
        item("q2", "http://srv/q2", None),
    ];
    core.set_queue(items, None);
    let first = core.next_track();
    assert!(matches!(&first, Some(i) if i.id == "q0"));
    assert_eq!(core.current_index, Some(0));
    core.next_track();
    core.next_track();
    assert_eq!(core.current_index, Some(2));
    let wrapped = core.next_track();
    assert!(matches!(&wrapped, Some(i) if i.id == "q0"));
    assert_eq!(core.current_index, Some(0));
}

#[test]
fn next_track_noops_at_the_end_without_repeat_all() {
    let mut core = PlayerCore::new();
    let items = vec![item("q3", "http://srv/q3", None), item("q4", "http://srv/q4", None)];
    core.set_queue(items, Some(1));
    let r = core.next_track();
    assert!(r.is_none());
    assert_eq!(core.current_index, Some(1));
    core.set_repeat_mode(RepeatMode::One);
    let r2 = core.next_track();
    assert!(r2.is_none());
    assert_eq!(core.current_index, Some(1));
}

#[test]
fn previous_track_wraps_under_repeat_all() {
    let mut core = PlayerCore::new();
    core.set_repeat_mode(RepeatMode::All);
    let items = vec![
        item("q5", "http://srv/q5", None),
        item("q6", "http://srv/q6", None),
        item("q7", "http://srv/q7", None),
    ];
    core.set_queue(items, Some(0));
    let wrapped = core.previous_track();
    assert!(matches!(&wrapped, Some(i) if i.id == "q7"));
    assert_eq!(core.current_index, Some(2));
}

#[test]
fn previous_track_noops_at_the_start_without_repeat_all() {
    let mut core = PlayerCore::new();
    let items = vec![item("q8", "http://srv/q8", None), item("q9", "http://srv/q9", None)];
    core.set_queue(items, Some(0));
    let r = core.previous_track();
    assert!(r.is_none());
    assert_eq!(core.current_index, Some(0));
}

#[test]
fn next_track_on_empty_queue_is_a_noop() {
    let mut core = PlayerCore::new();
    assert!(core.next_track().is_none());
    assert!(core.previous_track().is_none());
    assert_eq!(core.current_index, None);
}

#[test]
fn plan_bytes_prefers_the_cached_buffer() {
    let mut core = PlayerCore::new();
    core.set_cached_audio("hit".to_string(), vec![0, 1, 2]);
    let plan = core.plan_bytes(&item("hit", "http://srv/hit", None));
    assert!(matches!(plan, Ok(BytesPlan::UseCached)));
}

#[test]
fn plan_bytes_reads_local_files() {
    let core = PlayerCore::new();
    let plan = core.plan_bytes(&item("loc", "file:///tmp/cached/loc.audio", None));
    assert!(matches!(plan, Ok(BytesPlan::ReadLocal(p)) if p == "/tmp/cached/loc.audio"));
}

#[test]
fn plan_bytes_downloads_remote_urls() {
    let core = PlayerCore::new();
    let plan = core.plan_bytes(&item("rem", "https://srv/stream/rem", None));
    assert!(matches!(plan, Ok(BytesPlan::Download(u)) if u == "https://srv/stream/rem"));
}

#[test]
fn plan_bytes_rejects_an_empty_locator() {
    let core = PlayerCore::new();
    let plan = core.plan_bytes(&item("none", "", None));
    assert!(matches!(plan, Err(AudioError::MissingSource)));
}

#[test]
fn prepare_play_drops_the_cache_of_another_track() {
    let mut core = PlayerCore::new();
    core.set_cached_audio("old".to_string(), vec![7]);
    core.prepare_play(&item("new", "http://srv/new", None));
    assert!(core.cached_audio.is_none());
    assert!(core.cached_song_id.is_none());
    core.set_cached_audio("new".to_string(), vec![8]);
    core.prepare_play(&item("new", "http://srv/new", None));
    assert_eq!(core.cached_audio, Some(vec![8]));
}


#[test]
fn local_url_and_plan_bytes_round_trip() {
    // A path wrapped as a local locator comes back out of the byte plan.
    let core = PlayerCore::new();
    let url = local_url(&"/tmp/cache/id.audio".to_string());
    assert_eq!(url, "file:///tmp/cache/id.audio");
    let plan = core.plan_bytes(&item("id", &url, None));
    assert!(matches!(plan, Ok(BytesPlan::ReadLocal(p)) if p == "/tmp/cache/id.audio"));
}

#[test]
fn dispatcher_routes_play_to_a_load_action() {
    let mut core = PlayerCore::new();
    let (events, action) = core.handle_command(
        PlayerCommand::PlayItem(item("d1", "http://srv/d1", None)),
        10,
    );
    assert!(events.is_empty());
    assert!(matches!(action, CommandAction::LoadTrack(it) if it.id == "d1"));
}

#[test]
fn dispatcher_ignores_a_seek_without_a_track() {
    let mut core = PlayerCore::new();
    let (_events, action) = core.handle_command(PlayerCommand::Seek(1500), 10);
    assert!(matches!(action, CommandAction::Done));
    core.play_commit(item("d2", "http://srv/d2", None), 0, 5000, 20);
    let (_events, action2) = core.handle_command(PlayerCommand::Seek(1500), 30);
    assert!(matches!(action2, CommandAction::SeekTo(1500)));
}

#[test]
fn dispatcher_applies_volume_and_reports_the_clamp() {
    let mut core = PlayerCore::new();
    let (events, action) = core.handle_command(PlayerCommand::SetVolume(250), 10);
    assert!(matches!(action, CommandAction::ApplyVolume(100)));
    assert_eq!(core.state.volume, 100);
    assert_eq!(events.len(), 1);
}

#[test]
fn dispatcher_replies_with_a_fresh_snapshot() {
    let mut core = PlayerCore::new();
    core.play_commit(item("d3", "http://srv/d3", Some(100_000_000)), 0, 0, 0);
    let (_events, action) = core.handle_command(PlayerCommand::GetState, 700);
    match action {
        CommandAction::ReplyState(snapshot) => {
            assert_eq!(snapshot.current_position, 700);
            assert!(snapshot.is_playing);
        }
        other => panic!("expected a state reply, got {:?}", other),
    }
}

#[test]
fn dispatcher_shuts_down_and_stops() {
    let mut core = PlayerCore::new();
    core.play_commit(item("d4", "http://srv/d4", None), 0, 1000, 0);
    let (_events, action) = core.handle_command(PlayerCommand::Stop, 10);
    assert!(matches!(action, CommandAction::DropSink));
    assert!(!core.state.is_playing);
    let (events, action2) = core.handle_command(PlayerCommand::Shutdown, 20);
    assert!(events.is_empty());
    assert!(matches!(action2, CommandAction::Shutdown));
}

#[test]
fn dispatcher_pauses_only_with_a_sink() {
    let mut core = PlayerCore::new();
    let (_e, action) = core.handle_command(PlayerCommand::Pause, 5);
    assert!(matches!(action, CommandAction::Done));
    core.play_commit(item("d5", "http://srv/d5", None), 0, 9000, 10);
    let (_e2, action2) = core.handle_command(PlayerCommand::Pause, 20);
    assert!(matches!(action2, CommandAction::PauseSink));
    let (_e3, action3) = core.handle_command(PlayerCommand::Resume, 30);
    assert!(matches!(action3, CommandAction::ResumeSink));
}
