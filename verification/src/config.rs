//! The part of the configuration file that the running client writes back.

use vstd::prelude::*;

use crate::sequences::copy_texts;
use crate::string_map::StringMap;
use crate::ui::app::RepeatMode;

verus! {

/// Equalizer presets. `Flat` is the equalizer switched off.
#[derive(Debug, Clone, Copy, PartialEq, Eq, Structural)]
pub enum EqPreset {
    Flat,
    BassBoost,
    Vocal,
    TrebleBoost,
    Custom,
}

/// The repeat mode as the config file names it.
#[derive(Debug, Clone, Copy, PartialEq, Eq, Structural)]
pub enum RepeatModePref {
    Off,
    All,
    One,
}

/// The equalizer in the config file.
#[derive(Debug, Clone, Copy, PartialEq, Eq, Structural)]
pub struct EqConfig {
    pub preset: EqPreset,
    pub enabled: bool,
}

/// The audio settings in the config file.
#[derive(Debug, Clone, Copy, PartialEq, Eq, Structural)]
pub struct AudioConfig {
    pub volume: u8,
    pub repeat_mode: RepeatModePref,
    pub shuffle: bool,
    pub gapless: bool,
    pub normalization: bool,
    pub eq: EqConfig,
}

/// What the config file remembers of the interface.
#[derive(Debug)]
pub struct UiConfig {
    /// Name of the active theme.
    pub theme: String,
    /// Ids of the visible libraries; `None` means all of them.
    pub visible_libraries: Option<Vec<String>>,
    /// Last-active section name per library id.
    pub section_memory: StringMap<String>,
    /// The library that was active last.
    pub last_library_id: Option<String>,
    /// Recent search queries, most recent first.
    pub search_history: Vec<String>,
}

/// The contents of a [`UiConfig`].
#[verifier::ext_equal]
pub struct UiModel {
    pub theme: Seq<char>,
    pub visible_libraries: Option<Seq<Seq<char>>>,
    pub section_memory: Map<Seq<char>, Seq<char>>,
    pub last_library_id: Option<Seq<char>>,
    pub search_history: Seq<Seq<char>>,
}

impl View for UiConfig {
    type V = UiModel;

    open spec fn view(&self) -> UiModel {
        UiModel {
            theme: self.theme@,
            visible_libraries: self.visible_libraries.deep_view(),
            section_memory: self.section_memory.deep_view(),
            last_library_id: self.last_library_id.deep_view(),
            search_history: self.search_history.deep_view(),
        }
    }
}

impl DeepView for UiConfig {
    type V = UiModel;

    open spec fn deep_view(&self) -> UiModel {
        self@
    }
}

/// The part of the config file that the running client changes.
#[derive(Debug)]
pub struct Config {
    pub audio: AudioConfig,
    pub ui: UiConfig,
}

/// The contents of a [`Config`].
#[verifier::ext_equal]
pub struct ConfigModel {
    pub audio: AudioConfig,
    pub ui: UiModel,
}

impl View for Config {
    type V = ConfigModel;

    open spec fn view(&self) -> ConfigModel {
        ConfigModel {
            audio: self.audio,
            ui: self.ui@,
        }
    }
}

impl DeepView for Config {
    type V = ConfigModel;

    open spec fn deep_view(&self) -> ConfigModel {
        self@
    }
}

/// One change that the running client makes to the config file.
#[derive(Debug)]
pub enum Setting {
    AudioPrefs { repeat_mode: RepeatMode, shuffle: bool },
    Gapless(bool),
    Normalization(bool),
    EqPreset(EqPreset),
    Volume(u8),
    SectionMemory(StringMap<String>),
    LastLibrary(String),
    SearchHistory(Vec<String>),
    Theme(String),
    VisibleLibraries(Vec<String>),
}

/// The contents of a [`Setting`].
#[verifier::ext_equal]
pub enum SettingModel {
    AudioPrefs { repeat_mode: RepeatMode, shuffle: bool },
    Gapless(bool),
    Normalization(bool),
    EqPreset(EqPreset),
    Volume(u8),
    SectionMemory(Map<Seq<char>, Seq<char>>),
    LastLibrary(Seq<char>),
    SearchHistory(Seq<Seq<char>>),
    Theme(Seq<char>),
    VisibleLibraries(Seq<Seq<char>>),
}

impl View for Setting {
    type V = SettingModel;

    open spec fn view(&self) -> SettingModel {
        match self {
            Setting::AudioPrefs { repeat_mode, shuffle } => SettingModel::AudioPrefs {
                repeat_mode: *repeat_mode,
                shuffle: *shuffle,
            },
            Setting::Gapless(value) => SettingModel::Gapless(*value),
            Setting::Normalization(value) => SettingModel::Normalization(*value),
            Setting::EqPreset(value) => SettingModel::EqPreset(*value),
            Setting::Volume(value) => SettingModel::Volume(*value),
            Setting::SectionMemory(value) => SettingModel::SectionMemory(value.deep_view()),
            Setting::LastLibrary(value) => SettingModel::LastLibrary(value@),
            Setting::SearchHistory(value) => SettingModel::SearchHistory(value.deep_view()),
            Setting::Theme(value) => SettingModel::Theme(value@),
            Setting::VisibleLibraries(value) => SettingModel::VisibleLibraries(value.deep_view()),
        }
    }
}

impl DeepView for Setting {
    type V = SettingModel;

    open spec fn deep_view(&self) -> SettingModel {
        self@
    }
}

impl ConfigModel {
    /// With other audio settings.
    pub open spec fn with_audio(self, audio: AudioConfig) -> ConfigModel {
        ConfigModel { audio, ..self }
    }

    /// With other interface settings.
    pub open spec fn with_ui(self, ui: UiModel) -> ConfigModel {
        ConfigModel { ui, ..self }
    }

    /// With one change made. Everything else in the file stays as it is.
    pub open spec fn changed(self, setting: SettingModel) -> ConfigModel {
        match setting {
            SettingModel::AudioPrefs { repeat_mode, shuffle } => self.with_audio(
                AudioConfig { repeat_mode: repeat_mode.as_pref(), shuffle, ..self.audio },
            ),
            SettingModel::Gapless(on) => self.with_audio(
                AudioConfig { gapless: on, ..self.audio },
            ),
            SettingModel::Normalization(on) => self.with_audio(
                AudioConfig { normalization: on, ..self.audio },
            ),
            SettingModel::EqPreset(preset) => self.with_audio(
                AudioConfig {
                    eq: EqConfig { preset, enabled: preset != EqPreset::Flat },
                    ..self.audio
                },
            ),
            SettingModel::Volume(volume) => self.with_audio(AudioConfig { volume, ..self.audio }),
            SettingModel::SectionMemory(memory) => self.with_ui(
                UiModel { section_memory: memory, ..self.ui },
            ),
            SettingModel::LastLibrary(id) => self.with_ui(
                UiModel { last_library_id: Some(id), ..self.ui },
            ),
            SettingModel::SearchHistory(history) => self.with_ui(
                UiModel { search_history: history, ..self.ui },
            ),
            SettingModel::Theme(name) => self.with_ui(UiModel { theme: name, ..self.ui }),
            SettingModel::VisibleLibraries(ids) => self.with_ui(
                UiModel { visible_libraries: Some(ids), ..self.ui },
            ),
        }
    }
}

/// Keep the queue prefs, so that they survive a restart.
pub fn persist_audio_prefs(config: &mut Config, repeat_mode: RepeatMode, shuffle: bool)
    ensures
        final(config)@ == old(config)@.changed(
            SettingModel::AudioPrefs { repeat_mode, shuffle },
        ),
{
    config.audio.repeat_mode = RepeatModePref::from(repeat_mode);
    config.audio.shuffle = shuffle;
}

/// Keep the gapless toggle.
pub fn persist_gapless(config: &mut Config, on: bool)
    ensures
        final(config)@ == old(config)@.changed(SettingModel::Gapless(on)),
{
    config.audio.gapless = on;
}

/// Keep the normalization toggle.
pub fn persist_normalization(config: &mut Config, on: bool)
    ensures
        final(config)@ == old(config)@.changed(SettingModel::Normalization(on)),
{
    config.audio.normalization = on;
}

/// Keep the equalizer preset. The flat one is the equalizer switched off.
pub fn persist_eq_preset(config: &mut Config, preset: EqPreset)
    ensures
        final(config)@ == old(config)@.changed(SettingModel::EqPreset(preset)),
{
    config.audio.eq.preset = preset;
    config.audio.eq.enabled = preset != EqPreset::Flat;
}

/// Keep the volume.
pub fn persist_volume(config: &mut Config, volume: u8)
    ensures
        final(config)@ == old(config)@.changed(SettingModel::Volume(volume)),
{
    config.audio.volume = volume;
}

/// Keep the section that was active last in each library.
pub fn persist_section_memory(config: &mut Config, memory: StringMap<String>)
    ensures
        final(config)@ == old(config)@.changed(SettingModel::SectionMemory(memory.deep_view())),
{
    config.ui.section_memory = memory;
}

/// Keep the library that was active last.
pub fn persist_last_library(config: &mut Config, id: String)
    ensures
        final(config)@ == old(config)@.changed(SettingModel::LastLibrary(id@)),
{
    config.ui.last_library_id = Some(id);
}

/// Keep the recent searches.
pub fn persist_search_history(config: &mut Config, history: Vec<String>)
    ensures
        final(config)@ == old(config)@.changed(SettingModel::SearchHistory(history.deep_view())),
{
    config.ui.search_history = history;
}

/// Keep the theme.
pub fn persist_theme(config: &mut Config, name: &str)
    ensures
        final(config)@ == old(config)@.changed(SettingModel::Theme(name@)),
{
    config.ui.theme = name.to_owned();
}

/// Keep the set of visible libraries.
pub fn persist_visible_libraries(config: &mut Config, visible: Vec<String>)
    ensures
        final(config)@ == old(config)@.changed(SettingModel::VisibleLibraries(visible.deep_view())),
{
    config.ui.visible_libraries = Some(visible);
}

/// Make one change to a config that was read from disk and is about to be written
/// back.
pub fn persist(config: &mut Config, setting: Setting)
    ensures
        final(config)@ == old(config)@.changed(setting@),
{
    match setting {
        Setting::AudioPrefs { repeat_mode, shuffle } => persist_audio_prefs(
            config,
            repeat_mode,
            shuffle,
        ),
        Setting::Gapless(on) => persist_gapless(config, on),
        Setting::Normalization(on) => persist_normalization(config, on),
        Setting::EqPreset(preset) => persist_eq_preset(config, preset),
        Setting::Volume(volume) => persist_volume(config, volume),
        Setting::SectionMemory(memory) => persist_section_memory(config, memory),
        Setting::LastLibrary(id) => persist_last_library(config, id),
        Setting::SearchHistory(history) => persist_search_history(config, history),
        Setting::Theme(name) => persist_theme(config, name.as_str()),
        Setting::VisibleLibraries(visible) => persist_visible_libraries(config, visible),
    }
}

/// The persisted visible-libraries list. `None` (also for an unreadable or missing
/// config) means that all libraries are visible.
pub fn current_visible_libraries(config: Option<&Config>) -> (visible: Option<Vec<String>>)
    ensures
        visible.deep_view() == (match config.deep_view() {
            Some(known) => known.ui.visible_libraries,
            None => None,
        }),
{
    match config {
        Some(known) => match &known.ui.visible_libraries {
            Some(ids) => Some(copy_texts(ids)),
            None => None,
        },
        None => None,
    }
}

/// The equalizer is on exactly when a preset other than the flat one was kept.
pub proof fn a_kept_preset_decides_the_equalizer(config: ConfigModel, preset: EqPreset)
    ensures
        config.changed(SettingModel::EqPreset(preset)).audio.eq.preset == preset,
        config.changed(SettingModel::EqPreset(preset)).audio.eq.enabled <==> preset
            != EqPreset::Flat,
{
}

/// A change of the interface leaves the audio settings alone, and the other way
/// round.
pub proof fn changes_stay_in_their_part(config: ConfigModel, setting: SettingModel)
    ensures
        config.changed(setting).audio == config.audio || config.changed(setting).ui == config.ui,
{
}

/// Making the same change twice is making it once.
pub proof fn keeping_a_setting_is_idempotent(config: ConfigModel, setting: SettingModel)
    ensures
        config.changed(setting).changed(setting) == config.changed(setting),
{
}

} // verus!
