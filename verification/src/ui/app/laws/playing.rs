//! The play queue: its order, its steps, and what shuffle and the sleep timer do to it.

use vstd::prelude::*;
use vstd::string::*;

use crate::sequences;
use crate::time::Duration;
use crate::ui::app::queue;
use crate::ui::app::state::AppModel;
use crate::ui::app::types;
use crate::ui::app::types::{
    IntentModel, ItemModel, LevelModel, MediaKind, PopupMenu, RepeatMode, SleepTimer,
};

verus! {

// ---------------------------------------------------------------------------
// Steps

/// Without repeat the next track is the one right behind the current one, the previous
/// track the one right before it, and there is nothing past either end.
pub proof fn the_queue_is_played_in_order(app: AppModel, current: usize)
    requires
        app.queue_index == Some(current),
        current < app.queue.len(),
        app.queue.len() <= usize::MAX,
        app.repeat_mode == RepeatMode::Off,
    ensures
        current + 1 < app.queue.len() ==> {
            &&& app.next_index() == Some((current + 1) as usize)
            &&& app.track_at(app.next_index()) == Some(app.queue[current + 1])
            &&& app.at_index(app.next_index()).queue_index == Some((current + 1) as usize)
        },
        current + 1 == app.queue.len() ==> {
            &&& app.track_at(app.next_index()) is None
            &&& app.at_index(app.next_index()) == app
        },
        current > 0 ==> {
            &&& app.track_at(app.previous_index()) == Some(app.queue[current - 1])
            &&& app.at_index(app.previous_index()).queue_index == Some((current - 1) as usize)
        },
        current == 0 ==> {
            &&& app.track_at(app.previous_index()) is None
            &&& app.at_index(app.previous_index()) == app
        },
{
}

/// While the whole queue repeats, the last track is followed by the first one and the
/// first one is preceded by the last.
pub proof fn a_repeating_queue_comes_round(app: AppModel, current: usize)
    requires
        app.queue_index == Some(current),
        current < app.queue.len(),
        app.queue.len() <= usize::MAX,
        app.repeat_mode == RepeatMode::All,
    ensures
        current + 1 < app.queue.len() ==> app.track_at(app.next_index()) == Some(
            app.queue[current + 1],
        ) && app.at_index(app.next_index()).queue_index == Some((current + 1) as usize),
        current + 1 == app.queue.len() ==> app.track_at(app.next_index()) == Some(app.queue[0])
            && app.at_index(app.next_index()).queue_index == Some(0usize),
        current > 0 ==> app.track_at(app.previous_index()) == Some(app.queue[current - 1])
            && app.at_index(app.previous_index()).queue_index == Some((current - 1) as usize),
        current == 0 ==> app.track_at(app.previous_index()) == Some(app.queue.last())
            && app.at_index(app.previous_index()).queue_index == Some(
            (app.queue.len() - 1) as usize,
        ),
{
    let len = app.queue.len() as int;
    if current + 1 < len {
        vstd::arithmetic::div_mod::lemma_small_mod((current + 1) as nat, len as nat);
    } else {
        vstd::arithmetic::div_mod::lemma_mod_self_0(len);
    }
}

/// A repeated track follows itself and has no previous one.
pub proof fn a_repeated_track_follows_itself(app: AppModel, current: usize)
    requires
        app.queue_index == Some(current),
        current < app.queue.len(),
        app.repeat_mode == RepeatMode::One,
    ensures
        app.track_at(app.next_index()) == Some(app.queue[current as int]),
        app.at_index(app.next_index()) == app,
        app.track_at(app.previous_index()) is None,
{
}

/// The queue after `steps` steps to the next track.
pub open spec fn stepped(app: AppModel, steps: nat) -> AppModel
    decreases steps,
{
    if steps == 0 {
        app
    } else {
        let before = stepped(app, (steps - 1) as nat);
        before.at_index(before.next_index())
    }
}

/// Started on its first track and not repeating, a queue plays every track once and in
/// order: after so many steps the track of that number plays, and behind the last one
/// there is nothing left.
pub proof fn every_track_is_played_once_and_in_order(app: AppModel, steps: nat)
    requires
        app.queue_index == Some(0usize),
        app.repeat_mode == RepeatMode::Off,
        steps < app.queue.len(),
        app.queue.len() <= usize::MAX,
    ensures
        stepped(app, steps).queue == app.queue,
        stepped(app, steps).repeat_mode == RepeatMode::Off,
        stepped(app, steps).queue_index == Some(steps as usize),
        stepped(app, steps).track_at(stepped(app, steps).queue_index) == Some(
            app.queue[steps as int],
        ),
        steps + 1 == app.queue.len() ==> stepped(app, steps).next_index() is None,
    decreases steps,
{
    if steps > 0 {
        every_track_is_played_once_and_in_order(app, (steps - 1) as nat);
        the_queue_is_played_in_order(stepped(app, (steps - 1) as nat), (steps - 1) as usize);
    }
    the_queue_is_played_in_order(stepped(app, steps), steps as usize);
}

/// Stepping moves the place in the queue and nothing else.
pub proof fn stepping_keeps_the_queue(app: AppModel, index: Option<usize>)
    ensures
        app.at_index(index) == (AppModel { queue_index: app.at_index(index).queue_index, ..app }),
        index is Some ==> app.at_index(index).queue_index == index,
        index is None ==> app.at_index(index) == app,
        app.queue.len() == 0 || app.queue_index is None ==> app.next_index() is None
            && app.previous_index() is None,
{
}

/// The current track and the upcoming ones are the rest of the queue.
pub proof fn upcoming_tracks_follow_the_current_one(app: AppModel, current: usize)
    requires
        app.queue_index == Some(current),
        current < app.queue.len(),
    ensures
        app.queue == app.queue.take(current as int) + seq![app.queue[current as int]]
            + app.upcoming(),
        app.track_at(app.queue_index) == Some(app.queue[current as int]),
{
    assert(app.queue =~= app.queue.take(current as int) + seq![app.queue[current as int]]
        + app.upcoming());
}

/// Nothing is upcoming while nothing is current.
pub proof fn nothing_is_upcoming_without_a_current_track(app: AppModel)
    requires
        app.queue_index is None,
    ensures
        app.upcoming().len() == 0,
        app.track_at(app.queue_index) is None,
{
}

// ---------------------------------------------------------------------------
// Filling the queue

/// A queue that is set holds the given tracks in the given order and plays the one asked
/// for, or the last one if there are fewer.
pub proof fn a_set_queue_plays_what_was_asked_for(
    app: AppModel,
    items: Seq<ItemModel>,
    start: usize,
)
    requires
        items.len() <= usize::MAX,
    ensures
        app.with_queue(items, start).queue == items,
        start < items.len() ==> app.with_queue(items, start).track_at(
            app.with_queue(items, start).queue_index,
        ) == Some(items[start as int]),
        start >= items.len() && items.len() > 0 ==> app.with_queue(items, start).track_at(
            app.with_queue(items, start).queue_index,
        ) == Some(items.last()),
        items.len() == 0 ==> app.with_queue(items, start).queue_index is None,
        app.with_queue(items, start) == (AppModel {
            queue: items,
            queue_index: app.with_queue(items, start).queue_index,
            ..app
        }),
{
    if items.len() == 0 {
        assert(app.with_queue(items, start).queue =~= items);
    }
}

/// A track to be played next comes right behind the current one, without a step skipping
/// it; the other tracks keep their order, and the current one stays current.
pub proof fn play_next_comes_next(app: AppModel, item: ItemModel, current: usize)
    requires
        app.queue_index == Some(current),
        current < app.queue.len() < usize::MAX,
    ensures
        ({
            let after = app.enqueued(item, true);
            &&& after.queue.len() == app.queue.len() + 1
            &&& after.queue[current + 1] == item
            &&& forall|i: int|
                0 <= i <= current ==> #[trigger] after.queue[i] == app.queue[i]
            &&& forall|i: int|
                current < i < app.queue.len() ==> after.queue[i + 1] == #[trigger] app.queue[i]
            &&& after.queue_index == app.queue_index
            &&& after.repeat_mode == RepeatMode::Off ==> after.track_at(after.next_index())
                == Some(item)
            &&& after == (AppModel { queue: after.queue, ..app })
        }),
{
}

/// A track that is added comes behind all others, which keep their places.
pub proof fn added_tracks_come_last(app: AppModel, item: ItemModel)
    requires
        app.queue.len() > 0,
    ensures
        ({
            let after = app.enqueued(item, false);
            &&& after.queue.len() == app.queue.len() + 1
            &&& after.queue.last() == item
            &&& forall|i: int|
                0 <= i < app.queue.len() ==> #[trigger] after.queue[i] == app.queue[i]
            &&& after == (AppModel { queue: after.queue, ..app })
        }),
{
}

/// With nothing current a track to be played next comes last, and an empty queue takes
/// nothing in.
pub proof fn play_next_without_a_current_track(app: AppModel, item: ItemModel, play_next: bool)
    ensures
        app.queue.len() == 0 ==> app.enqueued(item, play_next) == app,
        app.queue.len() > 0 && app.queue_index is None ==> app.enqueued(item, true).queue.last()
            == item && app.enqueued(item, true).queue.len() == app.queue.len() + 1,
{
}

/// A built queue holds exactly the tracks of the innermost level.
pub proof fn a_built_queue_holds_the_tracks_of_the_level(
    app: AppModel,
    started: ItemModel,
    item: ItemModel,
)
    requires
        app.stack.len() > 0,
        exists|i: int|
            0 <= i < app.stack.last().items.len() && (#[trigger] app.stack.last().items[i]).media()
                == MediaKind::Audio,
    ensures
        app.queue_built(started).queue.contains(item) <==> app.stack.last().items.contains(item)
            && item.media() == MediaKind::Audio,
{
    let items = app.stack.last().items;
    let p = queue::is_audio();
    let audio = items.filter(p);
    let i = choose|i: int|
        0 <= i < items.len() && (#[trigger] items[i]).media() == MediaKind::Audio;
    items.lemma_filter_contains(p, i);
    if items.contains(item) && item.media() == MediaKind::Audio {
        let place = choose|k: int| 0 <= k < items.len() && items[k] == item;
        items.lemma_filter_contains(p, place);
    }
    if audio.contains(item) {
        let place = choose|k: int| 0 <= k < audio.len() && audio[k] == item;
        items.lemma_filter_pred(p, place);
        items.lemma_filter_contains_rev(p, item);
    }
}

/// A built queue keeps the order of the level: one more track at the end of the list is
/// one more track at the end of the queue, and what is no track changes nothing.
pub proof fn a_built_queue_keeps_the_order(app: AppModel, started: ItemModel, more: ItemModel)
    requires
        app.stack.len() > 0,
        exists|i: int|
            0 <= i < app.stack.last().items.len() && (#[trigger] app.stack.last().items[i]).media()
                == MediaKind::Audio,
    ensures
        ({
            let longer = AppModel {
                stack: app.stack.update(
                    app.stack.len() - 1,
                    LevelModel { items: app.stack.last().items.push(more), ..app.stack.last() },
                ),
                ..app
            };
            &&& more.media() == MediaKind::Audio ==> longer.queue_built(started).queue
                == app.queue_built(started).queue.push(more)
            &&& more.media() != MediaKind::Audio ==> longer.queue_built(started).queue
                == app.queue_built(started).queue
        }),
{
    let items = app.stack.last().items;
    let i = choose|i: int|
        0 <= i < items.len() && (#[trigger] items[i]).media() == MediaKind::Audio;
    items.lemma_filter_contains(queue::is_audio(), i);
    sequences::lemma_filter_push(items, more, queue::is_audio());
}

/// Without a track in the list the started item is queued alone.
pub proof fn a_lone_track_is_queued_alone(app: AppModel, started: ItemModel)
    requires
        app.stack.len() > 0,
        forall|i: int|
            0 <= i < app.stack.last().items.len() ==> (#[trigger] app.stack.last().items[i]).media()
                != MediaKind::Audio,
    ensures
        app.queue_built(started).queue == seq![started],
        app.queue_built(started).queue_index == Some(0usize),
{
    let items = app.stack.last().items;
    let p = queue::is_audio();
    let audio = items.filter(p);
    if audio.len() > 0 {
        items.lemma_filter_pred(p, 0);
        items.lemma_filter_contains_rev(p, audio[0]);
        assert(items.contains(audio[0]));
        let k = choose|k: int| 0 <= k < items.len() && items[k] == audio[0];
        assert(items[k].media() != MediaKind::Audio);
        assert(false);
    }
}

/// Playing a track of a list where no id comes twice starts the queue on that very track.
pub proof fn a_built_queue_starts_on_the_track(app: AppModel, started: ItemModel, place: int)
    requires
        app.stack.len() > 0,
        app.stack.last().items.len() <= usize::MAX,
        0 <= place < app.stack.last().items.len(),
        app.stack.last().items[place] == started,
        started.media() == MediaKind::Audio,
        forall|i: int|
            0 <= i < app.stack.last().items.len() && (#[trigger] app.stack.last().items[i]).id
                == started.id ==> i == place,
    ensures
        ({
            let after = app.queue_built(started);
            after.track_at(after.queue_index) == Some(started)
        }),
{
    let items = app.stack.last().items;
    let p = queue::is_audio();
    let audio = items.filter(p);
    queue::built_queue_plays_what_was_started(app, started, place);
    let index = app.queue_built(started).queue_index->0 as int;
    items.lemma_filter_contains(p, place);
    items.lemma_filter_contains_rev(p, audio[index]);
    let k = choose|k: int| 0 <= k < items.len() && items[k] == audio[index];
    assert(items[k].id == started.id);
}

/// Where the started track is in the queue more than once, its last copy is the current
/// one.
pub proof fn of_equal_tracks_the_last_is_current(app: AppModel, started: ItemModel, k: int)
    requires
        app.stack.len() > 0,
        app.stack.last().items.len() <= usize::MAX,
        0 <= k < app.queue_built(started).queue.len(),
        app.queue_built(started).queue[k].id == started.id,
    ensures
        ({
            let after = app.queue_built(started);
            &&& after.queue_index matches Some(i)
            &&& k <= i < after.queue.len()
            &&& after.queue[i as int].id == started.id
        }),
{
    let audio = app.stack.last().items.filter(queue::is_audio());
    app.stack.last().items.lemma_filter_len(queue::is_audio());
    if audio.len() > 0 {
        lemma_last_copy(audio, started.id, k);
    }
}

proof fn lemma_last_copy(items: Seq<ItemModel>, id: Seq<char>, k: int)
    requires
        0 <= k < items.len() <= usize::MAX,
        items[k].id == id,
    ensures
        k <= queue::last_with_id(items, id) < items.len(),
        items[queue::last_with_id(items, id) as int].id == id,
    decreases items.len(),
{
    if items.last().id != id {
        let rest = items.drop_last();
        assert(rest[k] == items[k]);
        lemma_last_copy(rest, id, k);
    }
}

// ---------------------------------------------------------------------------
// Shuffle

proof fn lemma_any_random(wanted: u64)
    ensures
        exists|seed: u64| #[trigger] queue::next_random(seed) == wanted,
{
    let modulus: int = 0x1_0000_0000_0000_0000;
    let factor: int = 6364136223846793005;
    let step: int = 1442695040888963407;
    let inverse: int = 13877824140714322085;
    let turns: int = 4787856489426250814;
    assert(factor * inverse == 1 + turns * modulus);
    let shifted = wanted - step;
    let seed = (shifted * inverse) % modulus;
    vstd::arithmetic::div_mod::lemma_fundamental_div_mod(shifted * inverse, modulus);
    let q = (shifted * inverse) / modulus;
    assert(shifted * inverse == modulus * q + seed);
    assert(seed * factor + step == wanted + modulus * (shifted * turns - q * factor))
        by (nonlinear_arith)
        requires
            shifted * inverse == modulus * q + seed,
            factor * inverse == 1 + turns * modulus,
            shifted == wanted - step,
    ;
    let rounds = shifted * turns - q * factor;
    vstd::arithmetic::div_mod::lemma_mod_multiples_vanish(rounds, wanted as int, modulus);
    vstd::arithmetic::div_mod::lemma_small_mod(wanted as nat, modulus as nat);
    assert((seed * factor + step) % modulus == wanted);
    vstd::arithmetic::div_mod::lemma_mod_bound(shifted * inverse, modulus);
    assert(queue::next_random(seed as u64) == wanted);
}

/// A shuffle really shuffles: for every element there is a seed that puts it last.
pub proof fn a_shuffle_can_put_any_element_last<A>(s: Seq<A>, place: int)
    requires
        2 <= s.len() <= 0x7fff_ffff,
        0 <= place < s.len(),
    ensures
        exists|seed: u64| #[trigger] queue::shuffled(s, seed).last() == s[place],
{
    let wanted = (place * 0x2_0000_0000) as u64;
    lemma_any_random(wanted);
    let seed = choose|seed: u64| #[trigger] queue::next_random(seed) == wanted;
    let i = (s.len() - 1) as nat;
    assert((wanted as nat / 0x2_0000_0000) == place);
    vstd::arithmetic::div_mod::lemma_small_mod(place as nat, i + 1);
    let first = queue::swapped(s, i as int, place);
    assert(queue::shuffled(s, seed) == queue::shuffled_from(first, (i - 1) as nat, wanted));
    lemma_shuffle_keeps_the_tail(first, (i - 1) as nat, wanted, i as int);
    assert(queue::shuffled(s, seed).last() == s[place]);
}

proof fn lemma_shuffle_keeps_the_tail<A>(s: Seq<A>, i: nat, state: u64, place: int)
    requires
        i < place < s.len(),
    ensures
        queue::shuffled_from(s, i, state).len() == s.len(),
        queue::shuffled_from(s, i, state)[place] == s[place],
    decreases i,
{
    if i != 0 {
        let next = queue::next_random(state);
        let j = (next as nat / 0x2_0000_0000) % (i + 1);
        vstd::arithmetic::div_mod::lemma_mod_bound(
            (next as nat / 0x2_0000_0000) as int,
            (i + 1) as int,
        );
        lemma_shuffle_keeps_the_tail(
            queue::swapped(s, i as int, j as int),
            (i - 1) as nat,
            next,
            place,
        );
    }
}

/// Turning shuffle on or off flips the switch, says so, and saves it along with the
/// repeat mode.
pub proof fn the_shuffle_switch_is_flipped_and_saved(app: AppModel, seed: u64)
    ensures
        ({
            let after = app.shuffle_toggled(seed);
            &&& after.shuffle == !app.shuffle
            &&& after.status_message == Some(
                if after.shuffle {
                    "Shuffle on"@
                } else {
                    "Shuffle off"@
                },
            )
            &&& after.pending == app.pending.push(
                IntentModel::SaveAudioPrefs {
                    repeat_mode: app.repeat_mode,
                    shuffle: !app.shuffle,
                },
            )
            &&& after.repeat_mode == app.repeat_mode
            &&& app.queue.len() == 0 ==> after.queue == app.queue && after.queue_index
                == app.queue_index
            &&& after.stack == app.stack
            &&& after.focus == app.focus
        }),
{
}

/// Clock readings less than five centuries apart give different seeds.
pub proof fn clock_readings_give_different_seeds(a: Duration, b: Duration)
    requires
        a.total_nanos() < b.total_nanos() < a.total_nanos() + 0x1_0000_0000_0000_0000,
    ensures
        queue::seed_of(Some(a)) != queue::seed_of(Some(b)),
{
    let modulus: int = 0x1_0000_0000_0000_0000;
    let x = a.total_nanos() as int;
    let y = b.total_nanos() as int;
    vstd::arithmetic::div_mod::lemma_fundamental_div_mod(x, modulus);
    vstd::arithmetic::div_mod::lemma_fundamental_div_mod(y, modulus);
    if x % modulus == y % modulus {
        let d = y / modulus - x / modulus;
        assert(y - x == modulus * d) by (nonlinear_arith)
            requires
                x == modulus * (x / modulus) + x % modulus,
                y == modulus * (y / modulus) + y % modulus,
                x % modulus == y % modulus,
                d == y / modulus - x / modulus,
        ;
        assert(false) by (nonlinear_arith)
            requires
                y - x == modulus * d,
                0 < y - x < modulus,
                modulus > 0,
        ;
    }
}

// ---------------------------------------------------------------------------
// Repeat and sleep

/// The repeat key goes from off to the whole queue to one track and back to off, says
/// which, and saves it.
pub proof fn the_repeat_key_cycles_and_saves(app: AppModel)
    ensures
        ({
            let after = app.repeat_cycled();
            &&& app.repeat_mode == RepeatMode::Off ==> after.repeat_mode == RepeatMode::All
            &&& app.repeat_mode == RepeatMode::All ==> after.repeat_mode == RepeatMode::One
            &&& app.repeat_mode == RepeatMode::One ==> after.repeat_mode == RepeatMode::Off
            &&& after.pending == app.pending.push(
                IntentModel::SaveAudioPrefs {
                    repeat_mode: after.repeat_mode,
                    shuffle: app.shuffle,
                },
            )
            &&& after.status_message is Some
            &&& after.queue == app.queue
            &&& after.queue_index == app.queue_index
            &&& after.shuffle == app.shuffle
        }),
{
}

/// A picked sleep timer is the active one and is armed anew, without an old countdown.
pub proof fn a_picked_sleep_timer_is_armed(app: AppModel, choice: SleepTimer)
    ensures
        ({
            let after = app.sleep_picked(choice);
            &&& after.sleep_timer == choice
            &&& after.sleep_remaining_secs is None
            &&& after.pending == app.pending.push(IntentModel::SetSleepTimer(choice))
            &&& choice == SleepTimer::Off ==> after.status_message == Some("Sleep timer off"@)
            &&& choice == SleepTimer::EndOfTrack ==> after.status_message == Some(
                "Sleep timer: stop at end of track"@,
            )
            &&& choice != SleepTimer::Off && choice != SleepTimer::EndOfTrack
                ==> after.status_message == Some("Sleep timer: "@ + choice.text())
            &&& after.queue == app.queue
            &&& after.popup == app.popup
        }),
{
}

/// The sleep-timer overlay opens on the active choice.
pub proof fn the_sleep_overlay_opens_on_the_active_choice(app: AppModel)
    ensures
        app.sleep_picker_open().popup matches Some(PopupMenu::SleepTimer(i)) && i
            < types::sleep_presets().len() && types::sleep_presets()[i as int] == app.sleep_timer,
        app.sleep_picker_open().sleep_timer == app.sleep_timer,
{
    types::presets_cover_every_choice(app.sleep_timer);
    let p = |preset: SleepTimer| preset == app.sleep_timer;
    let presets = types::sleep_presets();
    sequences::lemma_first_index(presets, p);
    let k = choose|k: int| 0 <= k < presets.len() && presets[k] == app.sleep_timer;
    assert(p(presets[k]));
}

/// The timed choices grow from five minutes to two hours, in the order they are listed.
pub proof fn sleep_choices_are_listed_from_short_to_long(i: int, j: int)
    requires
        0 < i < j < 10,
    ensures
        types::sleep_presets().len() == 11,
        types::sleep_presets()[0] == SleepTimer::Off,
        types::sleep_presets()[10] == SleepTimer::EndOfTrack,
        types::sleep_presets()[i].minutes() is Some,
        types::sleep_presets()[j].minutes() is Some,
        5 <= types::sleep_presets()[i].minutes()->0 < types::sleep_presets()[j].minutes()->0 <= 120,
        SleepTimer::Off.minutes() is None,
        SleepTimer::EndOfTrack.minutes() is None,
{
}

} // verus!
