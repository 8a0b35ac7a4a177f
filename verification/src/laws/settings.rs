//! The settings: each is kept under its own name and read back as it was kept.

use vstd::prelude::*;

use crate::config;
use crate::config::{
    AudioConfig, Config, ConfigModel, EqPreset, RepeatModePref, Setting, SettingModel, UiModel,
};
use crate::ui::app::types::RepeatMode;

verus! {

/// A kept audio setting has the value it was given, and every other setting stays.
pub proof fn audio_settings_are_kept(config: &mut Config, setting: Setting)
    requires
        call_ensures(config::persist, (config, setting), ()),
    ensures
        ({
            let before = old(config)@;
            let after = final(config)@;
            &&& setting@ matches SettingModel::Gapless(on) ==> after == (ConfigModel {
                audio: AudioConfig { gapless: on, ..before.audio },
                ..before
            })
            &&& setting@ matches SettingModel::Normalization(on) ==> after == (ConfigModel {
                audio: AudioConfig { normalization: on, ..before.audio },
                ..before
            })
            &&& setting@ matches SettingModel::Volume(volume) ==> after == (ConfigModel {
                audio: AudioConfig { volume, ..before.audio },
                ..before
            })
            &&& setting@ matches SettingModel::EqPreset(preset) ==> {
                &&& after.audio.eq.preset == preset
                &&& after.audio.eq.enabled <==> preset != EqPreset::Flat
                &&& after == (ConfigModel {
                    audio: AudioConfig { eq: after.audio.eq, ..before.audio },
                    ..before
                })
            }
        }),
{
}

/// Kept queue prefs are the mode and the shuffle that were given.
pub proof fn queue_prefs_are_kept(config: &mut Config, mode: RepeatMode, shuffle: bool)
    requires
        call_ensures(config::persist_audio_prefs, (config, mode, shuffle), ()),
    ensures
        final(config)@.audio.shuffle == shuffle,
        mode == RepeatMode::Off ==> final(config)@.audio.repeat_mode == RepeatModePref::Off,
        mode == RepeatMode::All ==> final(config)@.audio.repeat_mode == RepeatModePref::All,
        mode == RepeatMode::One ==> final(config)@.audio.repeat_mode == RepeatModePref::One,
        final(config)@ == (ConfigModel {
            audio: AudioConfig {
                shuffle,
                repeat_mode: final(config)@.audio.repeat_mode,
                ..old(config)@.audio
            },
            ..old(config)@
        }),
{
}

/// A repeat mode that was kept is the same mode when it is read again.
pub proof fn repeat_modes_survive_the_file(mode: RepeatMode, pref: RepeatModePref)
    ensures
        RepeatMode::of_pref(mode.as_pref()) == mode,
        RepeatMode::of_pref(pref).as_pref() == pref,
        mode.as_pref() is Off <==> mode is Off,
        mode.as_pref() is All <==> mode is All,
{
}

/// A kept setting of the interface has the value it was given, and every other setting
/// stays.
pub proof fn interface_settings_are_kept(config: &mut Config, setting: Setting)
    requires
        call_ensures(config::persist, (config, setting), ()),
    ensures
        ({
            let before = old(config)@;
            let after = final(config)@;
            &&& setting@ matches SettingModel::SectionMemory(memory) ==> after == (ConfigModel {
                ui: UiModel { section_memory: memory, ..before.ui },
                ..before
            })
            &&& setting@ matches SettingModel::LastLibrary(id) ==> after == (ConfigModel {
                ui: UiModel { last_library_id: Some(id), ..before.ui },
                ..before
            })
            &&& setting@ matches SettingModel::SearchHistory(history) ==> after == (ConfigModel {
                ui: UiModel { search_history: history, ..before.ui },
                ..before
            })
            &&& setting@ matches SettingModel::Theme(name) ==> after == (ConfigModel {
                ui: UiModel { theme: name, ..before.ui },
                ..before
            })
            &&& setting@ matches SettingModel::VisibleLibraries(ids) ==> after == (ConfigModel {
                ui: UiModel { visible_libraries: Some(ids), ..before.ui },
                ..before
            })
        }),
{
}

/// The visible libraries that are read are those that were kept.
pub proof fn visible_libraries_are_read_back(
    kept: &mut Config,
    ids: Vec<String>,
    config: Config,
    visible: Option<Vec<String>>,
)
    requires
        call_ensures(config::persist_visible_libraries, (kept, ids), ()),
        config@ == final(kept)@,
        call_ensures(config::current_visible_libraries, (Some(&config),), visible),
    ensures
        visible.deep_view() == Some(ids.deep_view()),
{
    assert(Some(&config).deep_view() == Some(config@));
}

/// Without a config every library is visible.
pub proof fn without_a_config_every_library_is_visible(visible: Option<Vec<String>>)
    requires
        call_ensures(config::current_visible_libraries, (None,), visible),
    ensures
        visible is None,
{
    let none: Option<&Config> = None;
    assert(none.deep_view() is None);
    assert(visible.deep_view() is None);
}

} // verus!
