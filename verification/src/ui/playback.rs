//! The playback controller's decisions: the bridge between the client's intents and
//! the side-effecting players. What an intent makes the players do, what the server
//! is told and when, and what the now-playing bar shows.

use vstd::prelude::*;

use super::app::state::{App, AppModel};
use super::app::types::{
    Intent, IntentModel, Item, ItemModel, MediaKind, NowPlaying, NowPlayingModel, SleepTimer,
};

use super::durations::ticks_to_duration;
use crate::text::concat2;
use crate::time::Duration;
use crate::video::{VideoError, VideoErrorModel};

verus! {

/// Seconds between two progress reports.
pub const PROGRESS_INTERVAL_SECS: u64 = 10;

/// Points that one volume key changes the volume by.
pub const VOLUME_STEP: i16 = 5;

/// Seconds that one seek key moves by.
pub const SEEK_SECS: i32 = 10;

/// What the playback controller does for an intent.
#[derive(Debug)]
pub enum PlaybackStep {
    /// Start mpv on an item.
    PlayVideo { item: Item, start_ticks: Option<i64> },
    /// Download a track and play it.
    PlayAudio { item: Item },
    TogglePause,
    StopAudio,
    /// Change the volume by this many points.
    NudgeVolume(i16),
    /// Not for the players: folder drilling is the browser's, theme switches are
    /// the run loop's.
    Nothing,
    /// Hand the intent on as it is: queue steps, seeking, ratings, timers.
    Other(Intent),
}

/// The contents of a [`PlaybackStep`].
#[verifier::ext_equal]
pub enum PlaybackStepModel {
    PlayVideo { item: ItemModel, start_ticks: Option<i64> },
    PlayAudio { item: ItemModel },
    TogglePause,
    StopAudio,
    NudgeVolume(i16),
    Nothing,
    Other(IntentModel),
}

impl View for PlaybackStep {
    type V = PlaybackStepModel;

    open spec fn view(&self) -> PlaybackStepModel {
        match self {
            PlaybackStep::PlayVideo { item, start_ticks } => PlaybackStepModel::PlayVideo {
                item: item@,
                start_ticks: *start_ticks,
            },
            PlaybackStep::PlayAudio { item } => PlaybackStepModel::PlayAudio {
                item: item@,
            },
            PlaybackStep::TogglePause => PlaybackStepModel::TogglePause,
            PlaybackStep::StopAudio => PlaybackStepModel::StopAudio,
            PlaybackStep::NudgeVolume(value) => PlaybackStepModel::NudgeVolume(*value),
            PlaybackStep::Nothing => PlaybackStepModel::Nothing,
            PlaybackStep::Other(value) => PlaybackStepModel::Other(value@),
        }
    }
}

impl DeepView for PlaybackStep {
    type V = PlaybackStepModel;

    open spec fn deep_view(&self) -> PlaybackStepModel {
        self@
    }
}

/// The report that playback started.
#[derive(Debug)]
pub struct PlaybackStartInfo {
    pub item_id: String,
    pub position_ticks: Option<i64>,
    pub is_paused: bool,
    pub can_seek: bool,
    pub play_method: Option<String>,
}

/// The contents of a [`PlaybackStartInfo`].
#[verifier::ext_equal]
pub struct StartInfoModel {
    pub item_id: Seq<char>,
    pub position_ticks: Option<i64>,
    pub is_paused: bool,
    pub can_seek: bool,
    pub play_method: Option<Seq<char>>,
}

impl View for PlaybackStartInfo {
    type V = StartInfoModel;

    open spec fn view(&self) -> StartInfoModel {
        StartInfoModel {
            item_id: self.item_id@,
            position_ticks: self.position_ticks,
            is_paused: self.is_paused,
            can_seek: self.can_seek,
            play_method: self.play_method.deep_view(),
        }
    }
}

impl DeepView for PlaybackStartInfo {
    type V = StartInfoModel;

    open spec fn deep_view(&self) -> StartInfoModel {
        self@
    }
}

/// The report of how far playback has come.
#[derive(Debug)]
pub struct PlaybackProgressInfo {
    pub item_id: String,
    pub position_ticks: Option<i64>,
    pub is_paused: bool,
    pub play_method: Option<String>,
    pub volume_level: Option<i32>,
}

/// The contents of a [`PlaybackProgressInfo`].
#[verifier::ext_equal]
pub struct ProgressInfoModel {
    pub item_id: Seq<char>,
    pub position_ticks: Option<i64>,
    pub is_paused: bool,
    pub play_method: Option<Seq<char>>,
    pub volume_level: Option<i32>,
}

impl View for PlaybackProgressInfo {
    type V = ProgressInfoModel;

    open spec fn view(&self) -> ProgressInfoModel {
        ProgressInfoModel {
            item_id: self.item_id@,
            position_ticks: self.position_ticks,
            is_paused: self.is_paused,
            play_method: self.play_method.deep_view(),
            volume_level: self.volume_level,
        }
    }
}

impl DeepView for PlaybackProgressInfo {
    type V = ProgressInfoModel;

    open spec fn deep_view(&self) -> ProgressInfoModel {
        self@
    }
}

/// The report that playback stopped.
#[derive(Debug)]
pub struct PlaybackStopInfo {
    pub item_id: String,
    pub position_ticks: Option<i64>,
}

/// The contents of a [`PlaybackStopInfo`].
#[verifier::ext_equal]
pub struct StopInfoModel {
    pub item_id: Seq<char>,
    pub position_ticks: Option<i64>,
}

impl View for PlaybackStopInfo {
    type V = StopInfoModel;

    open spec fn view(&self) -> StopInfoModel {
        StopInfoModel {
            item_id: self.item_id@,
            position_ticks: self.position_ticks,
        }
    }
}

impl DeepView for PlaybackStopInfo {
    type V = StopInfoModel;

    open spec fn deep_view(&self) -> StopInfoModel {
        self@
    }
}

/// What is known of the video that mpv plays.
#[derive(Debug)]
pub struct VideoSnapshot {
    pub item_id: String,
    pub title: String,
    pub position: Duration,
    pub run_time_ticks: Option<i64>,
}

/// The contents of a [`VideoSnapshot`].
#[verifier::ext_equal]
pub struct VideoSnapshotModel {
    pub item_id: Seq<char>,
    pub title: Seq<char>,
    pub position: Duration,
    pub run_time_ticks: Option<i64>,
}

impl View for VideoSnapshot {
    type V = VideoSnapshotModel;

    open spec fn view(&self) -> VideoSnapshotModel {
        VideoSnapshotModel {
            item_id: self.item_id@,
            title: self.title@,
            position: self.position,
            run_time_ticks: self.run_time_ticks,
        }
    }
}

impl DeepView for VideoSnapshot {
    type V = VideoSnapshotModel;

    open spec fn deep_view(&self) -> VideoSnapshotModel {
        self@
    }
}

/// What the audio engine plays.
#[derive(Debug)]
pub struct AudioSnapshot {
    pub item_id: String,
    pub title: String,
    pub subtitle: Option<String>,
    pub position: Duration,
    pub duration: Option<Duration>,
    pub paused: bool,
    pub volume: u8,
}

/// The contents of an [`AudioSnapshot`].
#[verifier::ext_equal]
pub struct AudioSnapshotModel {
    pub item_id: Seq<char>,
    pub title: Seq<char>,
    pub subtitle: Option<Seq<char>>,
    pub position: Duration,
    pub duration: Option<Duration>,
    pub paused: bool,
    pub volume: u8,
}

impl View for AudioSnapshot {
    type V = AudioSnapshotModel;

    open spec fn view(&self) -> AudioSnapshotModel {
        AudioSnapshotModel {
            item_id: self.item_id@,
            title: self.title@,
            subtitle: self.subtitle.deep_view(),
            position: self.position,
            duration: self.duration,
            paused: self.paused,
            volume: self.volume,
        }
    }
}

impl DeepView for AudioSnapshot {
    type V = AudioSnapshotModel;

    open spec fn deep_view(&self) -> AudioSnapshotModel {
        self@
    }
}

/// What the playback controller does for an intent.
pub open spec fn step_of(intent: IntentModel) -> PlaybackStepModel {
    match intent {
        IntentModel::Play { item, media, start_ticks } => match media {
            MediaKind::Video => PlaybackStepModel::PlayVideo { item, start_ticks },
            MediaKind::Audio => PlaybackStepModel::PlayAudio { item },
            MediaKind::Other => PlaybackStepModel::Nothing,
        },
        IntentModel::TogglePause => PlaybackStepModel::TogglePause,
        IntentModel::Stop => PlaybackStepModel::StopAudio,
        IntentModel::VolumeUp => PlaybackStepModel::NudgeVolume(VOLUME_STEP),
        IntentModel::VolumeDown => PlaybackStepModel::NudgeVolume((-VOLUME_STEP) as i16),
        IntentModel::OpenFolder { .. } => PlaybackStepModel::Nothing,
        IntentModel::SetTheme(_) => PlaybackStepModel::Nothing,
        _ => PlaybackStepModel::Other(intent),
    }
}

/// Decide what the playback controller does for one queued intent.
pub fn dispatch(intent: Intent) -> (step: PlaybackStep)
    ensures
        step@ == step_of(intent@),
{
    match intent {
        Intent::Play { item, media, start_ticks } => match media {
            MediaKind::Video => PlaybackStep::PlayVideo { item, start_ticks },
            MediaKind::Audio => PlaybackStep::PlayAudio { item },
            MediaKind::Other => PlaybackStep::Nothing,
        },
        Intent::TogglePause => PlaybackStep::TogglePause,
        Intent::Stop => PlaybackStep::StopAudio,
        Intent::VolumeUp => PlaybackStep::NudgeVolume(VOLUME_STEP),
        Intent::VolumeDown => PlaybackStep::NudgeVolume(-VOLUME_STEP),
        Intent::OpenFolder { .. } => PlaybackStep::Nothing,
        Intent::SetTheme(_) => PlaybackStep::Nothing,
        other => PlaybackStep::Other(other),
    }
}

// ---------------------------------------------------------------------------
// Queue steps, seeking, marks and the sleep timer

/// What the players, or the server, are asked for by an intent that is handed on.
#[derive(Debug)]
pub enum PlayerStep {
    /// Download a track that is queued already and play it.
    StartAudio(Item),
    /// Move mpv's position by this many seconds.
    Seek(i32),
    /// Start mpv on an address.
    Launch { url: String, item: Item },
    /// Tell the server about a mark.
    SetFavorite { item_id: String, favorite: bool },
    SetPlayed { item_id: String, played: bool },
    /// Stop playing after this time; `None` takes the deadline away.
    SleepAfter(Option<Duration>),
    Nothing,
}

/// The contents of a [`PlayerStep`].
#[verifier::ext_equal]
pub enum PlayerStepModel {
    StartAudio(ItemModel),
    Seek(i32),
    Launch { url: Seq<char>, item: ItemModel },
    SetFavorite { item_id: Seq<char>, favorite: bool },
    SetPlayed { item_id: Seq<char>, played: bool },
    SleepAfter(Option<Duration>),
    Nothing,
}

impl View for PlayerStep {
    type V = PlayerStepModel;

    open spec fn view(&self) -> PlayerStepModel {
        match self {
            PlayerStep::StartAudio(item) => PlayerStepModel::StartAudio(item@),
            PlayerStep::Seek(secs) => PlayerStepModel::Seek(*secs),
            PlayerStep::Launch { url, item } => PlayerStepModel::Launch { url: url@, item: item@ },
            PlayerStep::SetFavorite { item_id, favorite } => PlayerStepModel::SetFavorite {
                item_id: item_id@,
                favorite: *favorite,
            },
            PlayerStep::SetPlayed { item_id, played } => PlayerStepModel::SetPlayed {
                item_id: item_id@,
                played: *played,
            },
            PlayerStep::SleepAfter(span) => PlayerStepModel::SleepAfter(*span),
            PlayerStep::Nothing => PlayerStepModel::Nothing,
        }
    }
}

impl DeepView for PlayerStep {
    type V = PlayerStepModel;

    open spec fn deep_view(&self) -> PlayerStepModel {
        self@
    }
}

/// Play a track if there is one.
pub open spec fn started_if_any(track: Option<ItemModel>) -> PlayerStepModel {
    match track {
        Some(item) => PlayerStepModel::StartAudio(item),
        None => PlayerStepModel::Nothing,
    }
}

impl AppModel {
    /// What an intent that is handed on asks for.
    pub open spec fn player_step(self, intent: IntentModel) -> PlayerStepModel {
        match intent {
            IntentModel::PlayQueueCurrent { item } => PlayerStepModel::StartAudio(item),
            IntentModel::QueueNext => started_if_any(self.track_at(self.next_index())),
            IntentModel::QueuePrev => started_if_any(self.track_at(self.previous_index())),
            IntentModel::SeekForward => PlayerStepModel::Seek(SEEK_SECS),
            IntentModel::SeekBackward => PlayerStepModel::Seek((-SEEK_SECS) as i32),
            IntentModel::WatchTrailer { url, title } => PlayerStepModel::Launch {
                url,
                item: ItemModel { id: url, name: title, ..ItemModel::blank() },
            },
            IntentModel::SetFavorite { item_id, favorite } => PlayerStepModel::SetFavorite {
                item_id,
                favorite,
            },
            IntentModel::SetPlayed { item_id, played } => PlayerStepModel::SetPlayed {
                item_id,
                played,
            },
            IntentModel::SetSleepTimer(choice) => PlayerStepModel::SleepAfter(
                match choice.minutes() {
                    Some(minutes) => Some(Duration { secs: (minutes * 60) as u64, nanos: 0 }),
                    None => None,
                },
            ),
            _ => PlayerStepModel::Nothing,
        }
    }

    /// After an intent was handed on: a queue key moves the queue.
    pub open spec fn player_stepped(self, intent: IntentModel) -> AppModel {
        match intent {
            IntentModel::QueueNext => self.at_index(self.next_index()),
            IntentModel::QueuePrev => self.at_index(self.previous_index()),
            _ => self,
        }
    }

    /// After a track ended on its own: the queue goes on, unless sleep was due here.
    pub open spec fn track_ended(self) -> AppModel {
        if self.sleep_timer == SleepTimer::EndOfTrack {
            self.sleep_picked(SleepTimer::Off)
        } else {
            self.at_index(self.next_index())
        }
    }

    /// With so many seconds left to sleep. The timer is off once they are over.
    pub open spec fn sleep_counted(self, left: Option<u64>) -> AppModel {
        let counted = AppModel { sleep_remaining_secs: left, ..self };
        if left == Some(0u64) {
            counted.sleep_picked(SleepTimer::Off)
        } else {
            counted
        }
    }
}

fn start_if_any(track: Option<Item>) -> (step: PlayerStep)
    ensures
        step@ == started_if_any(track.deep_view()),
{
    match track {
        Some(item) => PlayerStep::StartAudio(item),
        None => PlayerStep::Nothing,
    }
}

impl App {
    /// Decide what an intent that was handed on asks for, and move the queue for it.
    pub fn step_players(&mut self, intent: Intent) -> (step: PlayerStep)
        ensures
            step@ == old(self)@.player_step(intent@),
            final(self)@ == old(self)@.player_stepped(intent@),
    {
        match intent {
            Intent::PlayQueueCurrent { item } => PlayerStep::StartAudio(item),
            Intent::QueueNext => start_if_any(self.advance_queue()),
            Intent::QueuePrev => start_if_any(self.previous_in_queue()),
            Intent::SeekForward => PlayerStep::Seek(SEEK_SECS),
            Intent::SeekBackward => PlayerStep::Seek(-SEEK_SECS),
            Intent::WatchTrailer { url, title } => {
                let mut item = Item::default();
                item.id = url.clone();
                item.name = title;
                PlayerStep::Launch { url, item }
            },
            Intent::SetFavorite { item_id, favorite } => PlayerStep::SetFavorite {
                item_id,
                favorite,
            },
            Intent::SetPlayed { item_id, played } => PlayerStep::SetPlayed { item_id, played },
            Intent::SetSleepTimer(choice) => PlayerStep::SleepAfter(choice.duration()),
            _ => PlayerStep::Nothing,
        }
    }

    /// A track ended on its own: the queue goes on, unless sleep was due here. Returns
    /// the track to play next.
    pub fn track_finished(&mut self) -> (next: Option<Item>)
        ensures
            next.deep_view() == (if old(self)@.sleep_timer == SleepTimer::EndOfTrack {
                None
            } else {
                old(self)@.track_at(old(self)@.next_index())
            }),
            final(self)@ == old(self)@.track_ended(),
    {
        if self.sleep_timer == SleepTimer::EndOfTrack {
            self.pick_sleep_timer(SleepTimer::Off);
            None
        } else {
            self.advance_queue()
        }
    }

    /// Show how many seconds are left to sleep. Returns whether to stop playing: once
    /// they are over, and the timer with them.
    pub fn count_down_sleep(&mut self, left: Option<u64>) -> (stop: bool)
        ensures
            stop == (left == Some(0u64)),
            final(self)@ == old(self)@.sleep_counted(left),
    {
        self.sleep_remaining_secs = left;
        let over = match left {
            Some(secs) => secs == 0,
            None => false,
        };
        if over {
            self.pick_sleep_timer(SleepTimer::Off);
        }
        over
    }

    /// The server refused a favorite change: take it back and say why.
    pub fn favorite_refused(&mut self, item_id: &str, favorite: bool, reason: &str)
        ensures
            final(self)@ == old(self)@.favorite_set(item_id@, !favorite).failed(reason@),
    {
        self.revert_favorite(item_id, !favorite);
        self.show_error(reason);
    }

    /// The server refused a played change: take it back and say why.
    pub fn played_refused(&mut self, item_id: &str, played: bool, reason: &str)
        ensures
            final(self)@ == old(self)@.played_set(item_id@, !played).failed(reason@),
    {
        self.revert_played(item_id, !played);
        self.show_error(reason);
    }
}

// ---------------------------------------------------------------------------
// What the user is told

impl AppModel {
    /// After mpv was started on an item, or failed to start.
    pub open spec fn video_started(
        self,
        name: Seq<char>,
        outcome: Result<(), VideoErrorModel>,
    ) -> AppModel {
        match outcome {
            Ok(_) => self.noted("Playing in mpv: "@ + name),
            Err(VideoErrorModel::MpvNotInstalled) => self.failed(
                "mpv is not installed or not on PATH. Install mpv to play video."@,
            ),
            Err(e) => self.failed("Couldn't start mpv: "@ + e.message()),
        }
    }

    /// After a track was asked for, with or without an output device.
    pub open spec fn audio_asked(self, name: Seq<char>, available: bool) -> AppModel {
        if available {
            self.noted("Loading: "@ + name)
        } else {
            self.failed("No audio output device is available."@)
        }
    }

    /// After a frame of the playback controller: late errors are surfaced, and the
    /// now-playing bar shows what plays.
    pub open spec fn playback_ticked(
        self,
        error: Option<Seq<char>>,
        playing: Option<NowPlayingModel>,
    ) -> AppModel {
        let told = match error {
            Some(message) => self.failed(message),
            None => self,
        };
        AppModel { now_playing: playing, ..told }
    }
}

impl App {
    /// Tell the user that mpv was started on an item, or why it wasn't.
    pub fn note_video_start(&mut self, name: &str, outcome: Result<(), VideoError>)
        ensures
            final(self)@ == old(self)@.video_started(
                name@,
                match outcome {
                    Ok(_) => Ok(()),
                    Err(e) => Err(e@),
                },
            ),
    {
        match outcome {
            Ok(_) => {
                let note = concat2("Playing in mpv: ", name);
                self.set_status(note.as_str());
            },
            Err(VideoError::MpvNotInstalled) => {
                self.show_error("mpv is not installed or not on PATH. Install mpv to play video.");
            },
            Err(e) => {
                let message = concat2("Couldn't start mpv: ", e.message().as_str());
                self.show_error(message.as_str());
            },
        }
    }

    /// Tell the user that a track is loading. Returns whether to load it: not without
    /// an output device.
    pub fn note_audio_start(&mut self, name: &str, available: bool) -> (load: bool)
        ensures
            load == available,
            final(self)@ == old(self)@.audio_asked(name@, available),
    {
        if !available {
            self.show_error("No audio output device is available.");
            return false;
        }
        let note = concat2("Loading: ", name);
        self.set_status(note.as_str());
        true
    }

    /// Tell the user that a track could not be downloaded.
    pub fn audio_failed(&mut self, reason: &str)
        ensures
            final(self)@ == old(self)@.failed("Couldn't load track: "@ + reason@),
    {
        let message = concat2("Couldn't load track: ", reason);
        self.show_error(message.as_str());
    }

    /// Refresh the now-playing snapshot, and surface a late error of the audio engine.
    pub fn playback_tick(&mut self, error: Option<String>, playing: Option<NowPlaying>)
        ensures
            final(self)@ == old(self)@.playback_ticked(error.deep_view(), playing.deep_view()),
    {
        if let Some(message) = error {
            self.show_error(message.as_str());
        }
        self.now_playing = playing;
    }
}

/// Which players are running.
#[derive(Debug, Clone, Copy, PartialEq, Eq, Structural)]
pub struct Sessions {
    pub video: bool,
    pub audio: bool,
}

impl Sessions {
    /// No player is running.
    pub fn new() -> (sessions: Sessions)
        ensures
            !sessions.video && !sessions.audio,
    {
        Sessions { video: false, audio: false }
    }

    /// A video was asked for: in-app audio stops, so that it doesn't play under the
    /// video. Returns whether a previous mpv is to be killed: only once the new one
    /// has started.
    pub fn play_video(&mut self, started: bool) -> (kill_previous: bool)
        ensures
            kill_previous == (old(self).video && started),
            *final(self) == (Sessions { video: old(self).video || started, audio: false }),
    {
        let kill_previous = self.video && started;
        self.video = self.video || started;
        self.audio = false;
        kill_previous
    }

    /// A track was downloaded and handed to the engine. Returns whether a previous
    /// reporter is to be stopped.
    pub fn begin_audio(&mut self) -> (stop_previous: bool)
        ensures
            stop_previous == old(self).audio,
            *final(self) == (Sessions { audio: true, ..*old(self) }),
    {
        let stop_previous = self.audio;
        self.audio = true;
        stop_previous
    }

    /// The track was stopped. Returns whether its reporter is to be stopped.
    pub fn stop_audio(&mut self) -> (stop_previous: bool)
        ensures
            stop_previous == old(self).audio,
            *final(self) == (Sessions { audio: false, ..*old(self) }),
    {
        let stop_previous = self.audio;
        self.audio = false;
        stop_previous
    }

    /// Which players are still running after a frame: mpv until it exits, the audio
    /// session until its track finishes or fails.
    pub fn tick(&mut self, video_exited: bool, audio_finished: bool, audio_failed: bool)
        ensures
            *final(self) == (Sessions {
                video: old(self).video && !video_exited,
                audio: old(self).audio && !audio_finished && !audio_failed,
            }),
    {
        self.video = self.video && !video_exited;
        self.audio = self.audio && !audio_finished && !audio_failed;
    }
}

impl Default for Sessions {
    fn default() -> (sessions: Sessions)
        ensures
            !sessions.video && !sessions.audio,
    {
        Sessions::new()
    }
}

// ---------------------------------------------------------------------------
// Reports to the server

/// How playback is reported: mpv plays the file itself, the audio engine a stream.
pub open spec fn method_of(video: bool) -> Seq<char> {
    if video {
        "DirectPlay"@
    } else {
        "DirectStream"@
    }
}

fn method_name(video: bool) -> (method: &'static str)
    ensures
        method@ == method_of(video),
{
    if video {
        "DirectPlay"
    } else {
        "DirectStream"
    }
}

/// The report that playback started. Only mpv can seek.
pub fn start_info(item_id: &str, video: bool) -> (info: PlaybackStartInfo)
    ensures
        info@ == (StartInfoModel {
            item_id: item_id@,
            position_ticks: Some(0i64),
            is_paused: false,
            can_seek: video,
            play_method: Some(method_of(video)),
        }),
{
    PlaybackStartInfo {
        item_id: item_id.to_owned(),
        position_ticks: Some(0),
        is_paused: false,
        can_seek: video,
        play_method: Some(method_name(video).to_owned()),
    }
}

/// The report of how far playback has come. mpv owns its own volume.
pub fn progress_info(item_id: &str, video: bool, ticks: i64, volume: Option<u8>) -> (info:
    PlaybackProgressInfo)
    ensures
        info@ == (ProgressInfoModel {
            item_id: item_id@,
            position_ticks: Some(ticks),
            is_paused: false,
            play_method: Some(method_of(video)),
            volume_level: match volume {
                Some(level) => Some(level as i32),
                None => None,
            },
        }),
{
    PlaybackProgressInfo {
        item_id: item_id.to_owned(),
        position_ticks: Some(ticks),
        is_paused: false,
        play_method: Some(method_name(video).to_owned()),
        volume_level: match volume {
            Some(level) => Some(level as i32),
            None => None,
        },
    }
}

/// The report that playback stopped.
pub fn stop_info(item_id: &str, ticks: i64) -> (info: PlaybackStopInfo)
    ensures
        info@ == (StopInfoModel { item_id: item_id@, position_ticks: Some(ticks) }),
{
    PlaybackStopInfo { item_id: item_id.to_owned(), position_ticks: Some(ticks) }
}

/// The positions to report as stopped on the way out, so that the server doesn't think
/// that something is still playing: the video's, then the track's.
pub fn shutdown_reports(video: Option<(String, i64)>, audio: Option<(String, i64)>) -> (reports: Vec<
    PlaybackStopInfo,
>)
    ensures
        reports.deep_view() == stops_of(video.deep_view()) + stops_of(audio.deep_view()),
{
    let mut reports: Vec<PlaybackStopInfo> = Vec::new();
    if let Some((item_id, ticks)) = video {
        reports.push(stop_info(item_id.as_str(), ticks));
    }
    if let Some((item_id, ticks)) = audio {
        reports.push(stop_info(item_id.as_str(), ticks));
    }
    assert(reports.deep_view() =~= stops_of(video.deep_view()) + stops_of(audio.deep_view()));
    reports
}

/// The stop report of what plays, if anything does.
pub open spec fn stops_of(playing: Option<(Seq<char>, i64)>) -> Seq<StopInfoModel> {
    match playing {
        Some((item_id, ticks)) => seq![StopInfoModel { item_id, position_ticks: Some(ticks) }],
        None => seq![],
    }
}

/// Milliseconds as ticks of 100 ns, as far as they fit.
pub fn millis_to_ticks(millis: u64) -> (ticks: i64)
    ensures
        ticks == if millis * 10_000 <= i64::MAX {
            millis * 10_000
        } else {
            i64::MAX as int
        },
{
    if millis <= 922_337_203_685_477 {
        (millis * 10_000) as i64
    } else {
        i64::MAX
    }
}

/// What a reporter learns in one second.
#[derive(Debug, Clone, Copy, PartialEq, Eq, Structural)]
pub enum Poll {
    /// The player is gone, or was told to stop.
    Gone,
    /// The player answers, but plays nothing yet.
    NotYet,
    /// The player is at this position, in ticks.
    At(i64),
}

/// What a reporter does next.
#[derive(Debug, Clone, Copy, PartialEq, Eq, Structural)]
pub enum ReportAction {
    /// Sleep for another second.
    Wait,
    /// Report progress at this position, then sleep.
    Progress(i64),
    /// Report the stop at this position, and end.
    Stop(i64),
}

/// A reporter's bookkeeping.
#[derive(Debug, Clone, Copy, PartialEq, Eq, Structural)]
pub struct Reporter {
    /// The last known position, in ticks.
    pub last_ticks: i64,
    /// Seconds since the start.
    pub elapsed: u64,
}

/// A reporter's bookkeeping one second later.
pub open spec fn reporter_after(reporter: Reporter, poll: Poll) -> Reporter {
    match poll {
        Poll::Gone => reporter,
        Poll::NotYet => Reporter { elapsed: (reporter.elapsed + 1) as u64, ..reporter },
        Poll::At(ticks) => Reporter {
            last_ticks: ticks,
            elapsed: (reporter.elapsed + 1) as u64,
        },
    }
}

/// What a reporter does after one second: it reports progress every ten seconds, as
/// far as a position is known then, and the stop at the last known position.
pub open spec fn report_action(reporter: Reporter, poll: Poll) -> ReportAction {
    match poll {
        Poll::Gone => ReportAction::Stop(reporter.last_ticks),
        Poll::NotYet => ReportAction::Wait,
        Poll::At(ticks) => if (reporter.elapsed + 1) % PROGRESS_INTERVAL_SECS as int == 0 {
            ReportAction::Progress(ticks)
        } else {
            ReportAction::Wait
        },
    }
}

impl Reporter {
    /// A reporter at the start of playback.
    pub fn new() -> (reporter: Reporter)
        ensures
            reporter == (Reporter { last_ticks: 0, elapsed: 0 }),
    {
        Reporter { last_ticks: 0, elapsed: 0 }
    }

    /// One second later.
    pub fn step(&mut self, poll: Poll) -> (action: ReportAction)
        requires
            old(self).elapsed < u64::MAX,
        ensures
            *final(self) == reporter_after(*old(self), poll),
            action == report_action(*old(self), poll),
    {
        match poll {
            Poll::Gone => ReportAction::Stop(self.last_ticks),
            Poll::NotYet => {
                self.elapsed = self.elapsed + 1;
                ReportAction::Wait
            },
            Poll::At(ticks) => {
                self.elapsed = self.elapsed + 1;
                self.last_ticks = ticks;
                if self.elapsed % PROGRESS_INTERVAL_SECS == 0 {
                    ReportAction::Progress(ticks)
                } else {
                    ReportAction::Wait
                }
            },
        }
    }
}

impl Default for Reporter {
    fn default() -> (reporter: Reporter)
        ensures
            reporter == (Reporter { last_ticks: 0, elapsed: 0 }),
    {
        Reporter::new()
    }
}

// ---------------------------------------------------------------------------
// Now-playing snapshot

/// Whether `now` is what the bar shows of a video.
pub open spec fn shows_video(now: NowPlayingModel, video: VideoSnapshotModel) -> bool {
    &&& now.item_id == video.item_id
    &&& now.kind == MediaKind::Video
    &&& now.title == video.title
    &&& now.subtitle == Some("Direct play in mpv"@)
    &&& now.artist is None && now.album is None && now.format_summary is None
    &&& now.position == video.position
    &&& match video.run_time_ticks {
        Some(ticks) => (ticks <= 0 <==> now.duration is None) && (now.duration matches Some(
            total,
        ) ==> total.total_nanos() == ticks * 100 && total.nanos < 1_000_000_000),
        None => now.duration is None,
    }
    &&& !now.paused
    &&& now.volume is None
}

/// What the bar shows of a track.
pub open spec fn audio_bar(track: AudioSnapshotModel) -> NowPlayingModel {
    NowPlayingModel {
        item_id: track.item_id,
        kind: MediaKind::Audio,
        title: track.title,
        subtitle: track.subtitle,
        artist: None,
        album: None,
        format_summary: None,
        position: track.position,
        duration: track.duration,
        paused: track.paused,
        volume: Some(track.volume),
    }
}

/// The now-playing snapshot: a video before a track, and nothing if neither plays.
pub fn now_playing(video: Option<VideoSnapshot>, audio: Option<AudioSnapshot>) -> (playing: Option<
    NowPlaying,
>)
    ensures
        match video {
            Some(shown) => playing is Some && shows_video(playing->0@, shown@),
            None => match audio {
                Some(track) => playing is Some && playing->0@ == audio_bar(track@),
                None => playing is None,
            },
        },
{
    if let Some(shown) = video {
        let duration = match shown.run_time_ticks {
            Some(ticks) => ticks_to_duration(ticks),
            None => None,
        };
        return Some(
            NowPlaying {
                item_id: shown.item_id,
                kind: MediaKind::Video,
                title: shown.title,
                subtitle: Some("Direct play in mpv".to_owned()),
                artist: None,
                album: None,
                format_summary: None,
                position: shown.position,
                duration,
                paused: false,
                volume: None,
            },
        );
    }
    if let Some(track) = audio {
        return Some(
            NowPlaying {
                item_id: track.item_id,
                kind: MediaKind::Audio,
                title: track.title,
                subtitle: track.subtitle,
                artist: None,
                album: None,
                format_summary: None,
                position: track.position,
                duration: track.duration,
                paused: track.paused,
                volume: Some(track.volume),
            },
        );
    }
    None
}

/// A reporter's bookkeeping after several seconds.
pub open spec fn reporter_run(reporter: Reporter, polls: Seq<Poll>) -> Reporter
    decreases polls.len(),
{
    if polls.len() == 0 {
        reporter
    } else {
        reporter_after(reporter_run(reporter, polls.drop_last()), polls.last())
    }
}

proof fn lemma_elapsed(reporter: Reporter, polls: Seq<Poll>)
    requires
        forall|i: int| 0 <= i < polls.len() ==> !(#[trigger] polls[i] is Gone),
        reporter.elapsed + polls.len() <= u64::MAX,
    ensures
        reporter_run(reporter, polls).elapsed == reporter.elapsed + polls.len(),
    decreases polls.len(),
{
    if polls.len() > 0 {
        assert forall|i: int| 0 <= i < polls.drop_last().len() implies !(
        #[trigger] polls.drop_last()[i] is Gone) by {
            assert(polls.drop_last()[i] == polls[i]);
        }
        lemma_elapsed(reporter, polls.drop_last());
        assert(polls.last() == polls[polls.len() - 1]);
    }
}

/// The server hears of progress every ten seconds: while the player answers, a
/// progress report is followed by another one ten seconds later, and by none before.
pub proof fn progress_is_reported_every_ten_seconds(
    reporter: Reporter,
    now: i64,
    polls: Seq<Poll>,
    later: i64,
)
    requires
        report_action(reporter, Poll::At(now)) == ReportAction::Progress(now),
        forall|i: int| 0 <= i < polls.len() ==> !(#[trigger] polls[i] is Gone),
        polls.len() < PROGRESS_INTERVAL_SECS,
        reporter.elapsed + PROGRESS_INTERVAL_SECS < u64::MAX,
    ensures
        report_action(
            reporter_run(reporter_after(reporter, Poll::At(now)), polls),
            Poll::At(later),
        ) == if polls.len() == PROGRESS_INTERVAL_SECS - 1 {
            ReportAction::Progress(later)
        } else {
            ReportAction::Wait
        },
{
    lemma_elapsed(reporter_after(reporter, Poll::At(now)), polls);
}

/// A reporter never forgets a position: the stop is reported where the last answer
/// saw the player.
pub proof fn the_stop_is_reported_at_the_last_position(reporter: Reporter, ticks: i64)
    ensures
        report_action(reporter_after(reporter, Poll::At(ticks)), Poll::Gone) == ReportAction::Stop(
            ticks,
        ),
        report_action(
            reporter_after(reporter_after(reporter, Poll::At(ticks)), Poll::NotYet),
            Poll::Gone,
        ) == ReportAction::Stop(ticks),
{
}

} // verus!
