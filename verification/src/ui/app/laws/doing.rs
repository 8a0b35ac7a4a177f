//! What the client's own functions do, step by step.

use vstd::prelude::*;

use crate::time::Duration;
use crate::ui::app::navigation::CursorMove;
use crate::ui::app::sections;
use crate::ui::app::state::{App, AppModel};
use crate::ui::app::types::{
    ClientMenuAction, HomeRow, Intent, Item, ItemDetail, ItemMenuAction, Level, Library,
    MediaOptionsCursor, MediaOptionsModel, MediaOptionsViewState, RepeatMode, Section, SleepTimer,
    VideoTrackSelection,
};
use crate::ui::browse::BrowseResult;
use crate::ui::keymap;
use crate::ui::keymap::{Action, Binding, KeyEvent, Keymap};
use crate::ui::run::Command;
use crate::video::TrackChoice;

verus! {

// ---------------------------------------------------------------------------
// Lists

/// A list's cursor goes up and down by one row, stops at the ends, and jumps to them; the
/// list itself stays.
pub proof fn a_lists_cursor_goes_by_one_row(level: &mut Level, step: CursorMove)
    requires
        call_ensures(Level::move_cursor, (level, step), ()),
        0 < old(level).items@.len(),
        old(level).selected < old(level).items@.len(),
    ensures
        ({
            let row = old(level).selected;
            let len = old(level).items@.len();
            &&& step == CursorMove::Up && row > 0 ==> final(level).selected == row - 1
            &&& step == CursorMove::Up && row == 0 ==> final(level).selected == 0
            &&& step == CursorMove::Down && row + 1 < len ==> final(level).selected == row + 1
            &&& step == CursorMove::Down && row + 1 == len ==> final(level).selected == row
            &&& step == CursorMove::Top ==> final(level).selected == 0
            &&& step == CursorMove::Bottom ==> final(level).selected == len - 1
            &&& final(level).items.deep_view() == old(level).items.deep_view()
            &&& final(level).title@ == old(level).title@
            &&& final(level).parent_id@ == old(level).parent_id@
        }),
{
    assert(old(level)@.items.len() == old(level).items@.len());
    assert(old(level).items.len() <= usize::MAX);
    assert(final(level)@.items == final(level).items.deep_view());
    assert(final(level)@.title == final(level).title@);
    assert(final(level)@.parent_id == final(level).parent_id@);
    assert(final(level)@.selected == final(level).selected);
}

/// From any row but the last, Down and then Up is back on the row.
pub proof fn a_lists_steps_undo_each_other(down: &mut Level, up: &mut Level)
    requires
        call_ensures(Level::move_cursor, (down, CursorMove::Down), ()),
        call_ensures(Level::move_cursor, (up, CursorMove::Up), ()),
        *old(up) == *final(down),
        old(down).selected + 1 < old(down).items@.len(),
    ensures
        final(up).selected == old(down).selected,
{
    assert(old(down)@.items.len() == old(down).items@.len());
    assert(old(down).items.len() <= usize::MAX);
    assert(old(up)@ == final(down)@);
    assert(old(up)@.items == final(down)@.items);
}

/// The selected item is the one in the cursor's row.
pub proof fn a_lists_selected_item_is_in_its_row(level: Level, item: Option<&Item>)
    requires
        call_ensures(Level::selected_item, (&level,), item),
    ensures
        level.selected < level.items@.len() ==> item is Some && item->0@
            == level.items@[level.selected as int]@,
        level.selected >= level.items@.len() ==> item is None,
{
    assert(level@.items.len() == level.items@.len());
    if level.selected < level.items@.len() {
        assert(level@.items[level.selected as int] == level.items@[level.selected as int]@);
    }
    assert(item.deep_view() == match item {
        Some(found) => Some(found@),
        None => None,
    });
}

// ---------------------------------------------------------------------------
// The queue

/// Advancing plays the track right behind the current one; at the end it plays nothing
/// without repeat, the first track with repeat, and the same one where one track repeats.
pub proof fn advancing_plays_the_next_track(app: &mut App, track: Option<Item>, current: usize)
    requires
        call_ensures(App::advance_queue, (app,), track),
        old(app)@.queue_index == Some(current),
        current < old(app)@.queue.len() <= usize::MAX,
    ensures
        ({
            let before = old(app)@;
            let after = final(app)@;
            let last = current + 1 == before.queue.len();
            &&& before.repeat_mode == RepeatMode::One ==> track.deep_view() == Some(
                before.queue[current as int],
            ) && after.queue_index == Some(current)
            &&& before.repeat_mode != RepeatMode::One && !last ==> track.deep_view() == Some(
                before.queue[current + 1],
            ) && after.queue_index == Some((current + 1) as usize)
            &&& before.repeat_mode == RepeatMode::All && last ==> track.deep_view() == Some(
                before.queue[0],
            ) && after.queue_index == Some(0usize)
            &&& before.repeat_mode == RepeatMode::Off && last ==> track is None
            &&& after.queue == before.queue
            &&& after.repeat_mode == before.repeat_mode
        }),
{
    assert(track is None <==> track.deep_view() is None);
    let len = old(app)@.queue.len();
    if current + 1 < len {
        vstd::arithmetic::div_mod::lemma_small_mod((current + 1) as nat, len);
    } else {
        vstd::arithmetic::div_mod::lemma_mod_self_0(len as int);
    }
}

/// Going back plays the track right before the current one.
pub proof fn going_back_plays_the_previous_track(app: &mut App, track: Option<Item>, current: usize)
    requires
        call_ensures(App::previous_in_queue, (app,), track),
        old(app)@.queue_index == Some(current),
        0 < current < old(app)@.queue.len() <= usize::MAX,
        old(app)@.repeat_mode != RepeatMode::One,
    ensures
        track.deep_view() == Some(old(app)@.queue[current - 1]),
        final(app)@.queue_index == Some((current - 1) as usize),
        final(app)@.queue == old(app)@.queue,
{
}

/// What is coming up is what stands behind the current track, in order.
pub proof fn what_comes_up_is_behind_the_current_track(
    app: App,
    upcoming: &[Item],
    current: usize,
)
    requires
        call_ensures(App::upcoming_queue, (&app,), upcoming),
        app@.queue_index == Some(current),
        current < app@.queue.len(),
    ensures
        upcoming@.len() == app@.queue.len() - current - 1,
        forall|i: int|
            0 <= i < upcoming@.len() ==> (#[trigger] upcoming@[i])@ == app@.queue[current + 1 + i],
{
    let shown = upcoming@.map_values(|track: Item| track@);
    assert(shown =~= app@.upcoming());
    assert forall|i: int| 0 <= i < upcoming@.len() implies (#[trigger] upcoming@[i])@
        == app@.queue[current + 1 + i] by {
        assert(shown[i] == upcoming@[i]@);
    }
}

/// A cleared queue is empty and has no current track.
pub proof fn a_cleared_queue_is_empty(app: &mut App)
    requires
        call_ensures(App::clear_queue, (app,), ()),
    ensures
        final(app)@.queue.len() == 0,
        final(app)@.queue_index is None,
        final(app)@.stack == old(app)@.stack,
{
}

// ---------------------------------------------------------------------------
// Options

/// What the options come to is what is selected in each list: the version's source, the
/// audio choice and the subtitle choice; outside a list nothing is picked.
pub proof fn the_selection_is_what_is_selected(
    view: MediaOptionsViewState,
    picked: VideoTrackSelection,
)
    requires
        call_ensures(MediaOptionsViewState::selection, (&view,), picked),
    ensures
        view.selected_version < view.versions@.len() ==> picked.media_source_id.deep_view() == Some(
            view.versions@[view.selected_version as int].source_id@,
        ),
        view.selected_version >= view.versions@.len() ==> picked.media_source_id is None,
        view.selected_audio < view.audio_entries@.len() ==> picked.audio
            == view.audio_entries@[view.selected_audio as int].choice,
        view.selected_audio >= view.audio_entries@.len() ==> picked.audio == TrackChoice::Auto,
        view.selected_subtitle < view.subtitle_entries@.len() ==> picked.subtitle
            == view.subtitle_entries@[view.selected_subtitle as int].choice,
        view.selected_subtitle >= view.subtitle_entries@.len() ==> picked.subtitle
            == TrackChoice::Auto,
{
    assert(view@.versions.len() == view.versions@.len());
    assert(view@.audio_entries.len() == view.audio_entries@.len());
    assert(view@.subtitle_entries.len() == view.subtitle_entries@.len());
    if view.selected_version < view.versions@.len() {
        assert(view@.versions[view.selected_version as int]
            == view.versions@[view.selected_version as int]@);
    }
    if view.selected_audio < view.audio_entries@.len() {
        assert(view@.audio_entries[view.selected_audio as int]
            == view.audio_entries@[view.selected_audio as int]@);
    }
    if view.selected_subtitle < view.subtitle_entries@.len() {
        assert(view@.subtitle_entries[view.selected_subtitle as int]
            == view.subtitle_entries@[view.selected_subtitle as int]@);
    }
    assert(picked@.media_source_id == picked.media_source_id.deep_view());
    assert(picked@.audio == picked.audio);
    assert(picked@.subtitle == picked.subtitle);
}

/// Enter on a version, and Enter on Play once the cursor is there: the source remembered
/// for the item is that version's.
pub proof fn the_chosen_version_is_remembered(pick: &mut App, play: &mut App, n: usize)
    requires
        call_ensures(App::commit_media_options_cursor, (pick,), ()),
        call_ensures(App::commit_media_options_cursor, (play,), ()),
        old(pick)@.media_options_view is Some,
        old(pick)@.media_options_view->0.cursor == MediaOptionsCursor::Version(n),
        n < old(pick)@.media_options_view->0.versions.len(),
        old(play)@ == (AppModel {
            media_options_view: Some(
                MediaOptionsModel {
                    cursor: MediaOptionsCursor::Play,
                    ..final(pick)@.media_options_view->0
                },
            ),
            ..final(pick)@
        }),
    ensures
        ({
            let view = old(pick)@.media_options_view->0;
            let remembered = final(play)@.video_track_selections;
            &&& remembered.dom().contains(view.item_id)
            &&& remembered[view.item_id].media_source_id == Some(
                view.versions[n as int].source_id,
            )
        }),
{
}

// ---------------------------------------------------------------------------
// Keys, intents and answers

/// A pressed key does what the key laws say of it.
pub proof fn keys_take_their_course(app: &mut App, key: KeyEvent, now: Option<Duration>)
    requires
        call_ensures(App::handle_key_at, (app, key, now), ()),
    ensures
        final(app)@ == old(app)@.on_key(key, now),
{
}

/// An action is looked up in the bindings of the keymap.
pub proof fn actions_come_from_the_keymap(keymap: Keymap, key: KeyEvent, action: Option<Action>)
    requires
        call_ensures(Keymap::action_for, (&keymap, key), action),
    ensures
        action matches Some(found) ==> exists|i: int|
            0 <= i < keymap.bindings@.len() && (#[trigger] keymap.bindings@[i]).action == found
                && keymap.bindings@[i].code == key.code && keymap.bindings@[i].control
                == key.modifiers.control && keymap.bindings@[i].alt == key.modifiers.alt,
        action is None ==> forall|i: int|
            0 <= i < keymap.bindings@.len() ==> !(#[trigger] keymap.bindings@[i]).triggered_by(key),
{
    lemma_bound(keymap.bindings@, key);
    if action is Some {
        let i = choose|i: int|
            0 <= i < keymap.bindings@.len() && (#[trigger] keymap.bindings@[i]).triggered_by(key)
                && keymap.bindings@[i].action == action->0;
        assert(keymap.bindings@[i].action == action->0);
    }
}

proof fn lemma_bound(bindings: Seq<Binding>, key: KeyEvent)
    ensures
        match keymap::bound_action(bindings, key) {
            Some(found) => exists|i: int|
                0 <= i < bindings.len() && (#[trigger] bindings[i]).triggered_by(key)
                    && bindings[i].action == found,
            None => forall|i: int|
                0 <= i < bindings.len() ==> !(#[trigger] bindings[i]).triggered_by(key),
        },
    decreases bindings.len(),
{
    if bindings.len() > 0 {
        let rest = bindings.drop_first();
        lemma_bound(rest, key);
        if bindings[0].triggered_by(key) {
            assert(bindings[0].action == bindings[0].action);
        } else {
            match keymap::bound_action(rest, key) {
                Some(found) => {
                    let i = choose|i: int|
                        0 <= i < rest.len() && (#[trigger] rest[i]).triggered_by(key)
                            && rest[i].action == found;
                    assert(bindings[i + 1].triggered_by(key));
                },
                None => {
                    assert forall|i: int| 0 <= i < bindings.len() implies !(
                    #[trigger] bindings[i]).triggered_by(key) by {
                        if i > 0 {
                            assert(rest[i - 1] == bindings[i]);
                        }
                    }
                },
            }
        }
    }
}

/// An answer is delivered as the answer laws say of it.
pub proof fn answers_take_their_course(app: &mut App, result: BrowseResult)
    requires
        call_ensures(App::apply_result, (app, result), ()),
    ensures
        final(app)@ == old(app)@.result_applied(result@),
{
}

/// Queued intents come out in the order they went in, each once.
pub proof fn intents_come_out_in_order(app: &mut App, later: &mut App, first: Intent, next: Intent)
    requires
        call_ensures(App::queue_intent, (app, first), ()),
        call_ensures(App::queue_intent, (later, next), ()),
        old(later)@ == final(app)@,
    ensures
        final(later)@.pending == old(app)@.pending.push(first@).push(next@),
        final(later)@ == (AppModel { pending: final(later)@.pending, ..old(app)@ }),
{
}

/// Draining hands every queued intent over and leaves none behind.
pub proof fn draining_leaves_no_intent(app: &mut App, intents: Vec<Intent>)
    requires
        call_ensures(App::take_intents, (app,), intents),
    ensures
        intents.deep_view() == old(app)@.pending,
        final(app)@.pending.len() == 0,
        final(app)@ == (AppModel { pending: Seq::empty(), ..old(app)@ }),
{
}

// ---------------------------------------------------------------------------
// The queue's own functions

/// A set queue holds the tracks it was given and plays from the place that was asked for,
/// or from the last one where that is past the end.
pub proof fn a_set_queue_holds_its_tracks(app: &mut App, items: Vec<Item>, start: usize)
    requires
        call_ensures(App::set_play_queue, (app, items, start), ()),
    ensures
        final(app)@.queue == items.deep_view(),
        items@.len() == 0 ==> final(app)@.queue_index is None,
        start < items@.len() ==> final(app)@.queue_index == Some(start),
        0 < items@.len() <= start ==> final(app)@.queue_index == Some((items@.len() - 1) as usize),
        final(app)@.stack == old(app)@.stack,
        final(app)@.pending == old(app)@.pending,
{
    assert(items.deep_view().len() == items@.len());
    assert(items.len() <= usize::MAX);
}

/// A track that is added goes right behind the current one or to the end, and the others
/// keep their order.
pub proof fn an_added_track_goes_next_or_last(
    next: &mut App,
    last: &mut App,
    item: Item,
    current: usize,
)
    requires
        call_ensures(App::enqueue, (next, item, true), ()),
        call_ensures(App::enqueue, (last, item, false), ()),
        old(next)@ == old(last)@,
        old(next)@.queue_index == Some(current),
        current < old(next)@.queue.len(),
    ensures
        final(next)@.queue == old(next)@.queue.insert(current + 1, item@),
        final(last)@.queue == old(last)@.queue.push(item@),
        final(next)@.queue_index == Some(current),
        final(last)@.queue_index == Some(current),
{
}

/// A queue is built from the level on display, for the track that was started.
pub proof fn a_queue_is_built_for_the_started_track(app: &mut App, started: Item)
    requires
        call_ensures(App::build_queue_for, (app, &started), ()),
    ensures
        final(app)@ == old(app)@.queue_built(started@),
{
}

/// The current track is the one at the queue's place.
pub proof fn the_current_track_is_at_its_place(app: App, track: Option<&Item>)
    requires
        call_ensures(App::current_queue_track, (&app,), track),
    ensures
        app@.queue_index is None ==> track is None,
        app@.queue_index matches Some(i) ==> {
            &&& i < app@.queue.len() ==> track is Some && track->0@ == app@.queue[i as int]
            &&& i >= app@.queue.len() ==> track is None
        },
{
    assert(track.deep_view() == match track {
        Some(found) => Some(found@),
        None => None,
    });
}

// ---------------------------------------------------------------------------
// What is read off the client

/// The lists that are read off the client are the outermost one, the innermost one, and
/// the innermost one below a library's root.
pub proof fn levels_are_read_off_the_stack(
    app: App,
    root: Option<&Level>,
    current: Option<&Level>,
    drilled: Option<&Level>,
)
    requires
        call_ensures(App::root_level, (&app,), root),
        call_ensures(App::current_level, (&app,), current),
        call_ensures(App::drilled_level, (&app,), drilled),
    ensures
        app@.stack.len() == 0 ==> root is None && current is None && drilled is None,
        app@.stack.len() > 0 ==> root is Some && root->0@ == app@.stack[0] && current is Some
            && current->0@ == app@.stack.last(),
        app@.stack.len() == 1 ==> drilled is None,
        app@.stack.len() > 1 ==> drilled is Some && drilled->0@ == app@.stack.last(),
{
    assert(root.deep_view() == match root {
        Some(level) => Some(level@),
        None => None,
    });
    assert(current.deep_view() == match current {
        Some(level) => Some(level@),
        None => None,
    });
    assert(drilled.deep_view() == match drilled {
        Some(level) => Some(level@),
        None => None,
    });
}

/// What the menus, Home and the details show is what the laws on them speak of.
pub proof fn menus_and_rows_are_read_off_the_client(
    app: App,
    items: Vec<(String, ItemMenuAction)>,
    client: Vec<(String, ClientMenuAction)>,
    timers: Vec<(String, SleepTimer)>,
    rows: Vec<HomeRow>,
    item: Option<&Item>,
    detail: Option<&ItemDetail>,
    path: String,
)
    requires
        call_ensures(App::item_menu_entries, (&app,), items),
        call_ensures(App::client_menu_entries, (&app,), client),
        call_ensures(App::sleep_timer_entries, (&app,), timers),
        call_ensures(App::home_rows, (&app,), rows),
        call_ensures(App::current_item, (&app,), item),
        call_ensures(App::current_detail, (&app,), detail),
        call_ensures(App::breadcrumb, (&app,), path),
    ensures
        items.deep_view() == app@.item_menu(),
        client.deep_view() == app@.client_menu(),
        timers.deep_view() == app@.sleep_menu(),
        rows.deep_view() == app@.home_rows(),
        item.deep_view() == app@.current_item(),
        detail.deep_view() == app@.shown_detail(),
        path@ == app@.path(),
{
}

/// The active library is the selected one, and its sections go by its kind.
pub proof fn the_active_library_is_the_selected_one(
    app: App,
    library: Option<&Library>,
    sections: Vec<Section>,
    section: Option<Section>,
)
    requires
        call_ensures(App::current_library, (&app,), library),
        call_ensures(App::current_sections, (&app,), sections),
        call_ensures(App::current_section, (&app,), section),
        app@.library_selected < app@.libraries.len(),
    ensures
        ({
            let active = app@.libraries[app@.library_selected as int];
            let list = sections::sections_of(active.collection_type);
            &&& library is Some && library->0@ == active
            &&& sections.deep_view() == list
            &&& app@.section_selected < list.len() ==> section.deep_view() == Some(
                list[app@.section_selected as int],
            )
        }),
{
    assert(library.deep_view() == match library {
        Some(found) => Some(found@),
        None => None,
    });
}

/// A fetched detail reaches the client as the detail laws say; clearing takes it away.
pub proof fn details_come_and_go(
    shown: &mut App,
    cleared: &mut App,
    id: &str,
    detail: ItemDetail,
)
    requires
        call_ensures(App::set_current_detail, (shown, id, detail), ()),
        call_ensures(App::clear_current_detail, (cleared,), ()),
    ensures
        final(shown)@ == old(shown)@.detail_arrived(id@, detail@),
        final(cleared)@.current_detail is None,
        final(cleared)@.revealed_item_id is None,
        final(cleared)@.media_options_view is None,
        final(cleared)@.stack == old(cleared)@.stack,
        final(cleared)@.queue == old(cleared)@.queue,
{
}

/// An intent is routed as the routing laws say.
pub proof fn intents_take_their_course(app: &mut App, intent: Intent, commands: Vec<Command>)
    requires
        call_ensures(App::route, (app, intent), commands),
    ensures
        commands.deep_view() == old(app)@.commands_for(intent@),
        final(app)@ == old(app)@.routed(intent@),
{
}

} // verus!
