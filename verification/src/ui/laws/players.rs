//! The players: what each step starts, stops and reports.

use vstd::prelude::*;
use vstd::string::*;

use crate::time::Duration;
use crate::ui::app::state::{App, AppModel};
use crate::ui::app::types::{Intent, IntentModel, Item, MediaKind, NowPlaying, SleepTimer};
use crate::ui::playback;
use crate::ui::playback::{
    AudioSnapshot, PlaybackProgressInfo, PlaybackStartInfo, PlaybackStep, PlaybackStepModel,
    PlaybackStopInfo, PlayerStep, PlayerStepModel, Poll, ReportAction, Reporter, Sessions,
    VideoSnapshot,
};
use crate::video::VideoError;

verus! {

// ---------------------------------------------------------------------------
// Steps

/// A video goes to mpv with its start position, a track to the audio engine, and each is
/// the very item that was asked for.
pub proof fn items_go_to_their_player(intent: Intent, step: PlaybackStep)
    requires
        call_ensures(playback::dispatch, (intent,), step),
        intent@ is Play,
    ensures
        intent@->Play_media == MediaKind::Video ==> step@ == (PlaybackStepModel::PlayVideo {
            item: intent@->Play_item,
            start_ticks: intent@->Play_start_ticks,
        }),
        intent@->Play_media == MediaKind::Audio ==> step@ == (PlaybackStepModel::PlayAudio {
            item: intent@->Play_item,
        }),
        intent@->Play_media == MediaKind::Other ==> step@ is Nothing,
{
}

/// The volume goes up and down by the same five points, and pausing, stopping and
/// everything else is handed on as it is.
pub proof fn playback_keys_take_their_step(intent: Intent, step: PlaybackStep)
    requires
        call_ensures(playback::dispatch, (intent,), step),
    ensures
        intent@ is VolumeUp ==> step@ == PlaybackStepModel::NudgeVolume(5),
        intent@ is VolumeDown ==> step@ == PlaybackStepModel::NudgeVolume((-5) as i16),
        intent@ is TogglePause ==> step@ is TogglePause,
        intent@ is Stop ==> step@ is StopAudio,
        intent@ is QueueNext || intent@ is QueuePrev || intent@ is SeekForward
            || intent@ is SeekBackward || intent@ is SetFavorite || intent@ is SetPlayed
            || intent@ is SetSleepTimer || intent@ is PlayQueueCurrent || intent@ is WatchTrailer
            ==> step@ == PlaybackStepModel::Other(intent@),
        intent@ is OpenFolder || intent@ is SetTheme ==> step@ is Nothing,
{
}

/// Seeking moves by ten seconds forward or backward and leaves the client as it is.
pub proof fn seeking_moves_by_ten_seconds(app: &mut App, intent: Intent, step: PlayerStep)
    requires
        call_ensures(App::step_players, (app, intent), step),
    ensures
        intent@ is SeekForward ==> step@ == PlayerStepModel::Seek(10),
        intent@ is SeekBackward ==> step@ == PlayerStepModel::Seek((-10) as i32),
        !(intent@ is QueueNext) && !(intent@ is QueuePrev) ==> final(app)@ == old(app)@,
{
}

/// Marks, trailers and queued tracks are handed on with exactly what they were asked with.
pub proof fn handed_on_steps_keep_their_arguments(app: &mut App, intent: Intent, step: PlayerStep)
    requires
        call_ensures(App::step_players, (app, intent), step),
    ensures
        intent@ matches IntentModel::PlayQueueCurrent { item } ==> step@
            == PlayerStepModel::StartAudio(item),
        intent@ matches IntentModel::SetFavorite { item_id, favorite } ==> step@
            == (PlayerStepModel::SetFavorite { item_id, favorite }),
        intent@ matches IntentModel::SetPlayed { item_id, played } ==> step@
            == (PlayerStepModel::SetPlayed { item_id, played }),
        intent@ matches IntentModel::WatchTrailer { url, title } ==> {
            &&& step@ is Launch
            &&& step@->Launch_url == url
            &&& step@->Launch_item.name == title
            &&& step@->Launch_item.id == url
        },
{
}

/// A queue key plays the neighbour of the current track and makes it the current one.
pub proof fn queue_keys_play_the_neighbour(
    app: &mut App,
    intent: Intent,
    step: PlayerStep,
    current: usize,
)
    requires
        call_ensures(App::step_players, (app, intent), step),
        old(app)@.queue_index == Some(current),
        current < old(app)@.queue.len() <= usize::MAX,
        old(app)@.repeat_mode == crate::ui::app::types::RepeatMode::Off,
    ensures
        intent@ is QueueNext && current + 1 < old(app)@.queue.len() ==> {
            &&& step@ == PlayerStepModel::StartAudio(old(app)@.queue[current + 1])
            &&& final(app)@.queue_index == Some((current + 1) as usize)
        },
        intent@ is QueueNext && current + 1 == old(app)@.queue.len() ==> step@ is Nothing,
        intent@ is QueuePrev && current > 0 ==> {
            &&& step@ == PlayerStepModel::StartAudio(old(app)@.queue[current - 1])
            &&& final(app)@.queue_index == Some((current - 1) as usize)
        },
        final(app)@.queue == old(app)@.queue,
{
}

/// A sleep choice stops the players after as many minutes as it names; without minutes
/// there is no deadline.
pub proof fn sleep_choices_last_as_long_as_they_say(
    app: &mut App,
    intent: Intent,
    step: PlayerStep,
)
    requires
        call_ensures(App::step_players, (app, intent), step),
        intent@ is SetSleepTimer,
    ensures
        ({
            let choice = intent@->SetSleepTimer_0;
            let minutes = |n: u64|
                step@ == PlayerStepModel::SleepAfter(
                    Some(Duration { secs: (n * 60) as u64, nanos: 0 }),
                );
            &&& choice == SleepTimer::In5 ==> minutes(5)
            &&& choice == SleepTimer::In10 ==> minutes(10)
            &&& choice == SleepTimer::In15 ==> minutes(15)
            &&& choice == SleepTimer::In20 ==> minutes(20)
            &&& choice == SleepTimer::In30 ==> minutes(30)
            &&& choice == SleepTimer::In45 ==> minutes(45)
            &&& choice == SleepTimer::In60 ==> minutes(60)
            &&& choice == SleepTimer::In90 ==> minutes(90)
            &&& choice == SleepTimer::In120 ==> minutes(120)
            &&& choice == SleepTimer::Off || choice == SleepTimer::EndOfTrack ==> step@
                == PlayerStepModel::SleepAfter(None)
        }),
{
}

/// A track that ends goes over into the next one, unless sleep was due at its end: then
/// nothing plays, the queue stays, and the timer is off.
pub proof fn an_ended_track_goes_over_into_the_next(
    app: &mut App,
    next: Option<Item>,
    current: usize,
)
    requires
        call_ensures(App::track_finished, (app,), next),
        old(app)@.queue_index == Some(current),
        current < old(app)@.queue.len() <= usize::MAX,
    ensures
        ({
            let before = old(app)@;
            let after = final(app)@;
            let off = crate::ui::app::types::RepeatMode::Off;
            &&& before.sleep_timer == SleepTimer::EndOfTrack ==> {
                &&& next is None
                &&& after.sleep_timer == SleepTimer::Off
                &&& after.queue_index == before.queue_index
            }
            &&& before.sleep_timer != SleepTimer::EndOfTrack && before.repeat_mode == off && current
                + 1 < before.queue.len() ==> {
                &&& next.deep_view() == Some(before.queue[current + 1])
                &&& after.queue_index == Some((current + 1) as usize)
            }
            &&& before.sleep_timer != SleepTimer::EndOfTrack && before.repeat_mode == off && current
                + 1 == before.queue.len() ==> next is None
            &&& after.queue == before.queue
        }),
{
    assert(next is None <==> next.deep_view() is None);
}

/// The countdown is shown as it runs; when it is over the players stop and the timer is
/// off.
pub proof fn sleep_comes_when_the_time_is_over(app: &mut App, left: Option<u64>, stop: bool)
    requires
        call_ensures(App::count_down_sleep, (app, left), stop),
    ensures
        stop <==> left == Some(0u64),
        stop ==> final(app)@.sleep_timer == SleepTimer::Off,
        stop ==> final(app)@.sleep_remaining_secs is None,
        !stop ==> final(app)@ == (AppModel { sleep_remaining_secs: left, ..old(app)@ }),
        final(app)@.queue == old(app)@.queue,
{
}

/// A mark that the server refuses is taken back on every copy of the item, and the user
/// is told why.
pub proof fn refused_marks_are_taken_back(
    app: &mut App,
    other: &mut App,
    id: &str,
    mark: bool,
    reason: &str,
    depth: int,
    row: int,
)
    requires
        call_ensures(App::favorite_refused, (app, id, mark, reason), ()),
        call_ensures(App::played_refused, (other, id, mark, reason), ()),
        0 <= depth < old(app)@.stack.len(),
        0 <= row < old(app)@.stack[depth].items.len(),
        old(other)@ == old(app)@,
        old(app)@.stack[depth].items[row].id == id@,
    ensures
        final(app)@.error == Some(reason@),
        final(other)@.error == Some(reason@),
        final(app)@.stack[depth].items[row].is_favorite == !mark,
        final(other)@.stack[depth].items[row].is_played == !mark,
{
}

// ---------------------------------------------------------------------------
// What the user is told

/// A started video is named; one that did not start leaves an error with the reason.
pub proof fn the_start_of_a_video_is_told(
    app: &mut App,
    name: &str,
    outcome: Result<(), VideoError>,
)
    requires
        call_ensures(App::note_video_start, (app, name, outcome), ()),
    ensures
        outcome is Ok ==> final(app)@ == (AppModel {
            status_message: Some("Playing in mpv: "@ + name@),
            ..old(app)@
        }),
        outcome is Err ==> final(app)@.error is Some,
        outcome matches Err(VideoError::Spawn(reason)) ==> final(app)@.error == Some(
            "Couldn't start mpv: "@ + ("failed to launch mpv: "@ + reason@),
        ),
        outcome matches Err(VideoError::MpvNotInstalled) ==> final(app)@.error == Some(
            "mpv is not installed or not on PATH. Install mpv to play video."@,
        ),
{
}

/// A track is loaded where there is a device to play it on, and not otherwise.
pub proof fn tracks_are_loaded_for_a_device(app: &mut App, name: &str, available: bool, load: bool)
    requires
        call_ensures(App::note_audio_start, (app, name, available), load),
    ensures
        load <==> available,
        available ==> final(app)@ == (AppModel {
            status_message: Some("Loading: "@ + name@),
            ..old(app)@
        }),
        !available ==> final(app)@.error == Some("No audio output device is available."@),
{
}

/// A late error is shown, and the bar shows what plays now, whatever played before.
pub proof fn the_bar_shows_what_plays_now(
    app: &mut App,
    error: Option<String>,
    playing: Option<NowPlaying>,
)
    requires
        call_ensures(App::playback_tick, (app, error, playing), ()),
    ensures
        final(app)@.now_playing == playing.deep_view(),
        error matches Some(message) ==> final(app)@.error == Some(message@),
        error is None ==> final(app)@ == (AppModel {
            now_playing: playing.deep_view(),
            ..old(app)@
        }),
{
}

// ---------------------------------------------------------------------------
// Sessions

/// A video silences the in-app audio, and replaces an earlier mpv only once it has
/// started itself.
pub proof fn a_video_silences_the_audio(sessions: &mut Sessions, started: bool, kill: bool)
    requires
        call_ensures(Sessions::play_video, (sessions, started), kill),
    ensures
        !final(sessions).audio,
        started ==> final(sessions).video,
        !started ==> final(sessions).video == old(sessions).video,
        kill ==> old(sessions).video && started,
        old(sessions).video && started ==> kill,
{
}

/// A new track stops the reporter of the one before it, and so does stopping; neither
/// touches a running video.
pub proof fn one_track_plays_at_a_time(
    begun: &mut Sessions,
    begin_stops: bool,
    stopped: &mut Sessions,
    stop_stops: bool,
)
    requires
        call_ensures(Sessions::begin_audio, (begun,), begin_stops),
        call_ensures(Sessions::stop_audio, (stopped,), stop_stops),
    ensures
        final(begun).audio,
        !final(stopped).audio,
        begin_stops <==> old(begun).audio,
        stop_stops <==> old(stopped).audio,
        final(begun).video == old(begun).video,
        final(stopped).video == old(stopped).video,
{
}

/// A session ends with its player, and no session begins by itself.
pub proof fn sessions_end_with_their_player(
    sessions: &mut Sessions,
    exited: bool,
    finished: bool,
    failed: bool,
)
    requires
        call_ensures(Sessions::tick, (sessions, exited, finished, failed), ()),
    ensures
        exited ==> !final(sessions).video,
        !exited ==> final(sessions).video == old(sessions).video,
        finished || failed ==> !final(sessions).audio,
        !finished && !failed ==> final(sessions).audio == old(sessions).audio,
{
}

// ---------------------------------------------------------------------------
// Reports

/// Every report names the item and the position it is about, and how the item is played.
pub proof fn reports_name_item_and_position(
    id: &str,
    video: bool,
    ticks: i64,
    volume: Option<u8>,
    start: PlaybackStartInfo,
    progress: PlaybackProgressInfo,
    stop: PlaybackStopInfo,
)
    requires
        call_ensures(playback::start_info, (id, video), start),
        call_ensures(playback::progress_info, (id, video, ticks, volume), progress),
        call_ensures(playback::stop_info, (id, ticks), stop),
    ensures
        start.item_id@ == id@ && progress.item_id@ == id@ && stop.item_id@ == id@,
        start.position_ticks == Some(0i64),
        progress.position_ticks == Some(ticks),
        stop.position_ticks == Some(ticks),
        !start.is_paused && !progress.is_paused,
        start.can_seek == video,
        video ==> start.play_method.deep_view() == Some("DirectPlay"@)
            && progress.play_method.deep_view() == Some("DirectPlay"@),
        !video ==> start.play_method.deep_view() == Some("DirectStream"@)
            && progress.play_method.deep_view() == Some("DirectStream"@),
        volume matches Some(level) ==> progress.volume_level == Some(level as i32),
        volume is None ==> progress.volume_level is None,
{
    assert(start@.item_id == start.item_id@);
    assert(progress@.item_id == progress.item_id@);
    assert(stop@.item_id == stop.item_id@);
}

/// On the way out everything that plays is reported as stopped where it is, the video
/// first.
pub proof fn everything_is_stopped_on_the_way_out(
    video: Option<(String, i64)>,
    audio: Option<(String, i64)>,
    reports: Vec<PlaybackStopInfo>,
)
    requires
        call_ensures(playback::shutdown_reports, (video, audio), reports),
    ensures
        video is None && audio is None ==> reports@.len() == 0,
        video is Some && audio is None || video is None && audio is Some ==> reports@.len() == 1,
        video is Some && audio is Some ==> reports@.len() == 2,
        video matches Some((id, ticks)) ==> reports@[0].item_id@ == id@
            && reports@[0].position_ticks == Some(ticks),
        audio matches Some((id, ticks)) ==> reports@[reports@.len() - 1].item_id@ == id@
            && reports@[reports@.len() - 1].position_ticks == Some(ticks),
{
    assert(reports.deep_view().len() == reports@.len());
    assert(video.deep_view() == match video {
        Some((id, ticks)) => Some((id@, ticks)),
        None => None,
    });
    assert(audio.deep_view() == match audio {
        Some((id, ticks)) => Some((id@, ticks)),
        None => None,
    });
    if video is Some {
        assert(reports.deep_view()[0] == reports@[0]@);
    }
    if audio is Some {
        assert(reports.deep_view()[reports@.len() - 1] == reports@[reports@.len() - 1]@);
    }
}

/// A millisecond is ten thousand ticks, as far as they fit; more time is never fewer
/// ticks.
pub proof fn milliseconds_become_ticks(a: u64, b: u64, x: i64, y: i64)
    requires
        call_ensures(playback::millis_to_ticks, (a,), x),
        call_ensures(playback::millis_to_ticks, (b,), y),
    ensures
        a <= b ==> x <= y,
        x >= 0,
        x < i64::MAX ==> x as int == a as int * 10_000,
        a <= 922_337_203_685_477 ==> x as int == a as int * 10_000,
{
}

/// A reporter waits while nothing plays, reports every tenth second while something does,
/// and reports the stop where the player was last seen.
pub proof fn a_reporter_reports_what_it_sees(
    reporter: &mut Reporter,
    poll: Poll,
    action: ReportAction,
)
    requires
        old(reporter).elapsed < u64::MAX,
        call_ensures(Reporter::step, (reporter, poll), action),
    ensures
        poll is Gone ==> action == ReportAction::Stop(old(reporter).last_ticks),
        poll is NotYet ==> action is Wait && final(reporter).last_ticks
            == old(reporter).last_ticks,
        poll matches Poll::At(ticks) ==> {
            &&& final(reporter).last_ticks == ticks
            &&& (old(reporter).elapsed + 1) % 10 == 0 ==> action == ReportAction::Progress(ticks)
            &&& (old(reporter).elapsed + 1) % 10 != 0 ==> action is Wait
        },
        !(poll is Gone) ==> final(reporter).elapsed == old(reporter).elapsed + 1,
{
}

/// A reporter starts at the beginning.
pub proof fn a_reporter_starts_at_the_beginning(reporter: Reporter, sessions: Sessions)
    requires
        call_ensures(Reporter::new, (), reporter),
        call_ensures(Sessions::new, (), sessions),
    ensures
        reporter.last_ticks == 0,
        reporter.elapsed == 0,
        !sessions.video,
        !sessions.audio,
{
}

// ---------------------------------------------------------------------------
// The now-playing bar

/// The bar shows a video before a track, and each under its own id, title and position.
pub proof fn the_bar_shows_a_video_before_a_track(
    video: Option<VideoSnapshot>,
    audio: Option<AudioSnapshot>,
    playing: Option<NowPlaying>,
)
    requires
        call_ensures(playback::now_playing, (video, audio), playing),
    ensures
        playing is None <==> video is None && audio is None,
        video matches Some(shown) ==> {
            &&& playing->0.item_id@ == shown.item_id@
            &&& playing->0.kind == MediaKind::Video
            &&& playing->0.title@ == shown.title@
            &&& playing->0.position == shown.position
            &&& !playing->0.paused
            &&& playing->0.volume is None
            &&& shown.run_time_ticks is None ==> playing->0.duration is None
            &&& shown.run_time_ticks is Some && shown.run_time_ticks->0 > 0
                ==> playing->0.duration is Some && playing->0.duration->0.secs * 1_000_000_000
                + playing->0.duration->0.nanos == shown.run_time_ticks->0 * 100
        },
        video is None && audio is Some ==> {
            let track = audio->0;
            &&& playing->0.item_id@ == track.item_id@
            &&& playing->0.kind == MediaKind::Audio
            &&& playing->0.title@ == track.title@
            &&& playing->0.subtitle.deep_view() == track.subtitle.deep_view()
            &&& playing->0.position == track.position
            &&& playing->0.duration == track.duration
            &&& playing->0.paused == track.paused
            &&& playing->0.volume == Some(track.volume)
        },
{
    if playing is Some {
        assert(playing->0@.item_id == playing->0.item_id@);
        assert(playing->0@.subtitle == playing->0.subtitle.deep_view());
    }
}

} // verus!
