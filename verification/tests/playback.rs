//! The playback controller's decisions.

use aquafin::time::Duration;
use aquafin::ui::app::{App, Intent, Item, Library, MediaKind, SleepTimer};
use aquafin::ui::durations::ticks_to_duration;
use aquafin::ui::playback::{
    dispatch, millis_to_ticks, now_playing, progress_info, shutdown_reports, start_info, stop_info,
    AudioSnapshot, PlaybackStep, PlayerStep, Poll, ReportAction, Reporter, Sessions, VideoSnapshot,
};
use aquafin::video::VideoError;

#[test]
fn ticks_convert_to_duration() {
    assert_eq!(ticks_to_duration(0), None);
    assert_eq!(ticks_to_duration(-5), None);
    // 1 second == 10,000,000 ticks.
    assert_eq!(ticks_to_duration(10_000_000), Some(Duration::from_secs(1)));
}

#[test]
fn volume_intents_reach_the_engine() {
    // Two +5 steps from 50 land on 60.
    let mut volume: i16 = 50;
    for intent in [Intent::VolumeUp, Intent::VolumeUp] {
        match dispatch(intent) {
            PlaybackStep::NudgeVolume(points) => volume += points,
            other => panic!("expected a volume step, got {other:?}"),
        }
    }
    assert_eq!(volume, 60);
    match dispatch(Intent::VolumeDown) {
        PlaybackStep::NudgeVolume(points) => assert_eq!(points, -5),
        other => panic!("expected a volume step, got {other:?}"),
    }
}

#[test]
fn intents_find_their_player() {
    let play = |media| Intent::Play { item: Item::demo("Thing"), media, start_ticks: None };
    assert!(matches!(dispatch(play(MediaKind::Video)), PlaybackStep::PlayVideo { .. }));
    assert!(matches!(dispatch(play(MediaKind::Audio)), PlaybackStep::PlayAudio { .. }));
    assert!(matches!(dispatch(play(MediaKind::Other)), PlaybackStep::Nothing));
    assert!(matches!(dispatch(Intent::TogglePause), PlaybackStep::TogglePause));
    assert!(matches!(dispatch(Intent::Stop), PlaybackStep::StopAudio));
    assert!(matches!(dispatch(Intent::SetTheme("x".to_string())), PlaybackStep::Nothing));
    assert!(matches!(dispatch(Intent::QueueNext), PlaybackStep::Other(Intent::QueueNext)));
}

fn queued(names: &[&str]) -> App {
    let mut app = App::new();
    app.set_play_queue(names.iter().map(|name| Item::demo(name)).collect(), 0);
    app
}

fn track_of(step: PlayerStep) -> Option<String> {
    match step {
        PlayerStep::StartAudio(item) => Some(item.name),
        PlayerStep::Nothing => None,
        other => panic!("expected a track, got {other:?}"),
    }
}

#[test]
fn queue_keys_move_the_queue() {
    let mut app = queued(&["A", "B"]);
    assert_eq!(track_of(app.step_players(Intent::QueueNext)).as_deref(), Some("B"));
    assert_eq!(app.queue_index, Some(1));
    assert_eq!(track_of(app.step_players(Intent::QueueNext)), None);
    assert_eq!(app.queue_index, Some(1));
    assert_eq!(track_of(app.step_players(Intent::QueuePrev)).as_deref(), Some("A"));
    let current = Intent::PlayQueueCurrent { item: Item::demo("C") };
    assert_eq!(track_of(app.step_players(current)).as_deref(), Some("C"));
    assert_eq!(app.queue_index, Some(0));
}

#[test]
fn other_intents_reach_the_players() {
    let mut app = App::new();
    assert!(matches!(app.step_players(Intent::SeekForward), PlayerStep::Seek(10)));
    assert!(matches!(app.step_players(Intent::SeekBackward), PlayerStep::Seek(-10)));
    let trailer = Intent::WatchTrailer { url: "u".to_string(), title: "T".to_string() };
    match app.step_players(trailer) {
        PlayerStep::Launch { url, item } => {
            assert_eq!((url.as_str(), item.id.as_str(), item.name.as_str()), ("u", "u", "T"));
        }
        other => panic!("expected a launch, got {other:?}"),
    }
    let favorite = Intent::SetFavorite { item_id: "i".to_string(), favorite: true };
    assert!(matches!(
        app.step_players(favorite),
        PlayerStep::SetFavorite { item_id, favorite: true } if item_id == "i"
    ));
    let played = Intent::SetPlayed { item_id: "i".to_string(), played: false };
    assert!(matches!(
        app.step_players(played),
        PlayerStep::SetPlayed { item_id, played: false } if item_id == "i"
    ));
    match app.step_players(Intent::SetSleepTimer(SleepTimer::In5)) {
        PlayerStep::SleepAfter(span) => assert_eq!(span, Some(Duration::from_secs(300))),
        other => panic!("expected a deadline, got {other:?}"),
    }
    match app.step_players(Intent::SetSleepTimer(SleepTimer::EndOfTrack)) {
        PlayerStep::SleepAfter(span) => assert_eq!(span, None),
        other => panic!("expected a deadline, got {other:?}"),
    }
    assert!(matches!(app.step_players(Intent::SyncLibraries), PlayerStep::Nothing));
}

#[test]
fn the_queue_goes_on_until_sleep_is_due() {
    let mut app = queued(&["A", "B"]);
    assert_eq!(app.track_finished().map(|item| item.name).as_deref(), Some("B"));
    assert!(app.track_finished().is_none());
    let mut app = queued(&["A", "B"]);
    app.pick_sleep_timer(SleepTimer::EndOfTrack);
    assert!(app.track_finished().is_none());
    assert_eq!(app.sleep_timer, SleepTimer::Off);
    assert_eq!(app.queue_index, Some(0));
    app.pick_sleep_timer(SleepTimer::In10);
    assert!(!app.count_down_sleep(Some(7)));
    assert_eq!(app.sleep_remaining_secs, Some(7));
    assert!(!app.count_down_sleep(None));
    assert_eq!(app.sleep_timer, SleepTimer::In10);
    assert!(app.count_down_sleep(Some(0)));
    assert_eq!(app.sleep_timer, SleepTimer::Off);
    assert_eq!(app.sleep_remaining_secs, None);
}

#[test]
fn refused_marks_are_taken_back() {
    let item = Item { id: "i".to_string(), ..Item::demo("Thing") };
    let mut app = App::with_libraries(vec![Library {
        id: "l".to_string(),
        name: "L".to_string(),
        collection_type: None,
        items: vec![item],
    }]);
    app.toggle_favorite();
    app.favorite_refused("i", true, "no");
    assert!(!app.stack[0].items[0].is_favorite);
    app.toggle_played();
    app.played_refused("i", true, "never");
    assert!(!app.stack[0].items[0].is_played);
    assert_eq!(app.error.as_deref(), Some("never"));
}

#[test]
fn failures_to_play_are_told() {
    let mut app = App::new();
    app.note_video_start("Thing", Ok(()));
    assert_eq!(app.status_message.as_deref(), Some("Playing in mpv: Thing"));
    app.note_video_start("Thing", Err(VideoError::MpvNotInstalled));
    assert_eq!(
        app.error.as_deref(),
        Some("mpv is not installed or not on PATH. Install mpv to play video.")
    );
    app.note_video_start("Thing", Err(VideoError::Spawn("denied".to_string())));
    assert_eq!(
        app.error.as_deref(),
        Some("Couldn't start mpv: failed to launch mpv: denied")
    );
    assert!(!app.note_audio_start("Song", false));
    assert_eq!(app.error.as_deref(), Some("No audio output device is available."));
    assert!(app.note_audio_start("Song", true));
    assert_eq!(app.status_message.as_deref(), Some("Loading: Song"));
    app.audio_failed("timed out");
    assert_eq!(app.error.as_deref(), Some("Couldn't load track: timed out"));
}

#[test]
fn a_video_silences_the_audio() {
    let mut sessions = Sessions::new();
    assert!(!sessions.begin_audio());
    assert!(sessions.audio);
    assert!(!sessions.play_video(true));
    assert!(sessions.video && !sessions.audio);
    assert!(sessions.play_video(true));
    assert!(!sessions.play_video(false));
    assert!(sessions.video);
    sessions.tick(true, false, false);
    assert!(!sessions.video);
    sessions.begin_audio();
    sessions.tick(false, true, false);
    assert!(!sessions.audio);
}

#[test]
fn progress_comes_every_ten_seconds() {
    let mut reporter = Reporter::new();
    let mut reports = Vec::new();
    for second in 1..=20i64 {
        if let ReportAction::Progress(ticks) = reporter.step(Poll::At(second)) {
            reports.push(ticks);
        }
    }
    assert_eq!(reports, vec![10, 20]);
    assert_eq!(reporter.step(Poll::NotYet), ReportAction::Wait);
    assert_eq!(reporter.step(Poll::Gone), ReportAction::Stop(20));
}

#[test]
fn reports_name_the_method() {
    let start = start_info("m", true);
    assert_eq!(start.play_method.as_deref(), Some("DirectPlay"));
    assert!(start.can_seek);
    assert_eq!(start.position_ticks, Some(0));
    let progress = progress_info("a", false, 42, Some(80));
    assert_eq!(progress.play_method.as_deref(), Some("DirectStream"));
    assert_eq!(progress.volume_level, Some(80));
    assert_eq!(stop_info("a", 7).position_ticks, Some(7));
    let last = shutdown_reports(Some(("v".to_string(), 1)), Some(("a".to_string(), 2)));
    assert_eq!(last.len(), 2);
    assert_eq!(last[0].item_id, "v");
    assert_eq!(last[1].position_ticks, Some(2));
    assert_eq!(millis_to_ticks(1_500), 15_000_000);
    assert_eq!(millis_to_ticks(u64::MAX), i64::MAX);
}

#[test]
fn the_bar_shows_the_video_first() {
    let video = VideoSnapshot {
        item_id: "v".to_string(),
        title: "Film".to_string(),
        position: Duration::from_millis(1_500),
        run_time_ticks: Some(10_000_000),
    };
    let audio = || AudioSnapshot {
        item_id: "a".to_string(),
        title: "Song".to_string(),
        subtitle: None,
        position: Duration::from_secs(1),
        duration: None,
        paused: true,
        volume: 80,
    };
    let shown = now_playing(Some(video), Some(audio())).unwrap();
    assert_eq!(shown.title, "Film");
    assert_eq!(shown.subtitle.as_deref(), Some("Direct play in mpv"));
    assert_eq!(shown.duration, Some(Duration::from_secs(1)));
    assert_eq!(shown.volume, None);
    let shown = now_playing(None, Some(audio())).unwrap();
    assert_eq!(shown.title, "Song");
    assert_eq!(shown.volume, Some(80));
    assert!(shown.paused);
    assert!(now_playing(None, None).is_none());
}

#[test]
fn a_frame_refreshes_the_bar() {
    let mut app = App::new();
    app.playback_tick(Some("decoder gone".to_string()), None);
    assert_eq!(app.error.as_deref(), Some("decoder gone"));
    assert!(app.now_playing.is_none());
}
