//! Starting up: what the client shows first, and what is restored from the settings.

use vstd::prelude::*;
use vstd::string::*;

use crate::config::EqPreset;
use crate::sequences;
use crate::string_map::StringMap;
use crate::theme::Theme;
use crate::ui::app::sections;
use crate::ui::app::state;
use crate::ui::app::state::{App, AppModel};
use crate::ui::app::types::{Library, Pane, RepeatMode, SleepTimer};
use crate::ui::keymap::Keymap;

verus! {

/// A started client shows the first library's items, plays nothing, filters nothing, and
/// has nothing open and nothing to do.
pub proof fn a_started_client_is_at_rest(libraries: Vec<Library>, app: App)
    requires
        call_ensures(App::with_libraries, (libraries,), app),
    ensures
        ({
            let start = app@;
            &&& start.libraries == libraries.deep_view()
            &&& start.library_selected == 0
            &&& start.section_selected == 0
            &&& start.focus == Pane::LibraryItems
            &&& libraries@.len() == 0 ==> start.stack.len() == 0
            &&& libraries@.len() > 0 ==> {
                &&& start.stack.len() == 1
                &&& start.stack[0].items == libraries.deep_view()[0].items
                &&& start.stack[0].parent_id == libraries.deep_view()[0].id
                &&& start.stack[0].title == libraries.deep_view()[0].name
                &&& start.stack[0].selected == 0
                &&& !start.stack[0].loading
            }
            &&& start.queue.len() == 0 && start.queue_index is None && start.now_playing is None
            &&& start.repeat_mode == RepeatMode::Off && !start.shuffle
            &&& start.sleep_timer == SleepTimer::Off
            &&& start.pending.len() == 0
            &&& !start.should_quit && !start.show_help && !start.awaiting_go_to
            &&& start.error is None && start.popup is None && start.search_query is None
            &&& start.library_picker is None && start.playlist_picker is None
            &&& start.video_track_picker is None && start.theme_picker is None
            &&& start.media_options_view is None
            &&& start.section_filters.dom() == Set::<Seq<char>>::empty()
            &&& start.video_track_selections.dom() == Set::<Seq<char>>::empty()
        }),
{
    assert(libraries.deep_view().len() == libraries@.len());
    assert(app@.section_filters.dom() =~= Set::<Seq<char>>::empty());
    assert(app@.video_track_selections.dom() =~= Set::<Seq<char>>::empty());
}

/// Each setting that is restored at startup becomes the client's own, and changes nothing
/// else.
pub proof fn restored_settings_are_the_clients(
    app: App,
    keymap: Keymap,
    keyed: App,
    theme: Theme,
    themed: App,
    names: Vec<String>,
    listed: App,
    history: Vec<String>,
    searched: App,
)
    requires
        call_ensures(App::with_keymap, (app, keymap), keyed),
        call_ensures(App::with_theme, (app, theme), themed),
        call_ensures(App::with_available_themes, (app, names), listed),
        call_ensures(App::with_search_history, (app, history), searched),
    ensures
        keyed@ == (AppModel { keymap: keymap.bindings@, ..app@ }),
        themed@ == (AppModel { theme: theme@, ..app@ }),
        listed@ == (AppModel { available_themes: names.deep_view(), ..app@ }),
        searched@ == (AppModel { search_history: history.deep_view(), ..app@ }),
{
}

/// The audio settings are restored one for one.
pub proof fn restored_audio_settings_are_the_clients(
    app: App,
    gapless: bool,
    normalization: bool,
    preset: EqPreset,
    args: usize,
    heard: App,
    mode: RepeatMode,
    shuffle: bool,
    ordered: App,
)
    requires
        call_ensures(App::with_audio_features, (app, gapless, normalization, preset, args), heard),
        call_ensures(App::with_audio_prefs, (app, mode, shuffle), ordered),
    ensures
        heard@ == (AppModel {
            gapless,
            normalization,
            eq_preset: preset,
            mpv_arg_count: args,
            ..app@
        }),
        ordered@ == (AppModel { repeat_mode: mode, shuffle, ..app@ }),
{
}

/// The library that was open last is open again, wherever it now stands, with its own
/// items on display; one that is gone gives way to the first.
pub proof fn the_last_library_is_open_again(app: App, id: Option<String>, restored: App)
    requires
        call_ensures(App::with_last_library, (app, id), restored),
        app@.libraries.len() <= usize::MAX,
    ensures
        restored@.libraries == app@.libraries,
        id is None ==> restored@ == app@,
        id matches Some(wanted) ==> {
            let found = exists|i: int|
                0 <= i < app@.libraries.len() && (#[trigger] app@.libraries[i]).id == wanted@;
            &&& found ==> {
                &&& restored@.library_selected < app@.libraries.len()
                &&& app@.libraries[restored@.library_selected as int].id == wanted@
                &&& restored@.stack.len() == 1
                &&& restored@.stack[0].parent_id == wanted@
                &&& restored@.stack[0].items
                    == app@.libraries[restored@.library_selected as int].items
            }
            &&& !found ==> restored@.library_selected == 0
        },
        restored@.queue == app@.queue,
        restored@.pending == app@.pending,
{
    if let Some(wanted) = id {
        assert(id.deep_view() == Some(wanted@));
        let p = state::library_has_id(wanted@);
        sequences::lemma_first_index(app@.libraries, p);
        assert forall|i: int|
            0 <= i < app@.libraries.len() && (#[trigger] app@.libraries[i]).id
                == wanted@ implies p(app@.libraries[i]) by {
        }
    }
}

/// The remembered section of the active library is selected again.
pub proof fn the_remembered_section_is_selected_again(
    app: App,
    memory: StringMap<String>,
    restored: App,
    k: int,
)
    requires
        call_ensures(App::with_section_memory, (app, memory), restored),
        app@.library_selected < app@.libraries.len(),
        ({
            let library = app@.libraries[app@.library_selected as int];
            let list = sections::sections_of(library.collection_type);
            &&& memory.deep_view().dom().contains(library.id)
            &&& 0 <= k < list.len()
            &&& list[k].name == memory.deep_view()[library.id]
            &&& forall|j: int|
                0 <= j < k ==> (#[trigger] list[j]).name != memory.deep_view()[library.id]
        }),
    ensures
        restored@.section_memory == memory.deep_view(),
        restored@.section_selected == k,
        restored@.library_selected == app@.library_selected,
{
    let library = app@.libraries[app@.library_selected as int];
    let list = sections::sections_of(library.collection_type);
    sequences::lemma_first_index_found(
        list,
        state::section_has_name(memory.deep_view()[library.id]),
        k,
    );
}

} // verus!
