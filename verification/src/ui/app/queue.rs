//! The audio play queue: building it, walking it, shuffling it, and the sleep
//! timer that ends it.

use vstd::prelude::*;
use vstd::string::*;

use super::state::{App, AppModel};
use super::types;
use super::types::{
    Intent, IntentModel, Item, ItemModel, MediaKind, PopupMenu, RepeatMode, SleepTimer,
};
use crate::sequences;
use crate::sequences::{insert_deep, push_deep};
use crate::text::{concat2, same_text};
use crate::time;
use crate::time::Duration;

verus! {

/// Whether an item plays as audio.
pub open spec fn is_audio() -> spec_fn(ItemModel) -> bool {
    |item: ItemModel| item.media() == MediaKind::Audio
}

/// The index of the last item with the given id; the first item without one.
pub open spec fn last_with_id(items: Seq<ItemModel>, id: Seq<char>) -> usize
    decreases items.len(),
{
    if items.len() == 0 {
        0
    } else if items.last().id == id {
        (items.len() - 1) as usize
    } else {
        last_with_id(items.drop_last(), id)
    }
}

/// `std`'s `slice::swap`: exchanges the elements at two positions of the list and
/// leaves the others where they are. It panics outside the list.
#[verifier::external_body]
fn swap_elements<T>(items: &mut Vec<T>, a: usize, b: usize)
    requires
        a < old(items)@.len(),
        b < old(items)@.len(),
    ensures
        final(items)@ == old(items)@.update(a as int, old(items)@[b as int]).update(
            b as int,
            old(items)@[a as int],
        ),
{
    items.swap(a, b)
}

/// One step of the generator behind the shuffle (Knuth's linear congruential
/// constants, modulo 2 to the 64).
pub open spec fn next_random(state: u64) -> u64 {
    ((state as nat * 6364136223846793005 + 1442695040888963407)
        % 0x1_0000_0000_0000_0000) as u64
}

/// Two elements exchanged.
pub open spec fn swapped<A>(s: Seq<A>, i: int, j: int) -> Seq<A> {
    s.update(i, s[j]).update(j, s[i])
}

/// Fisher-Yates from position `i` downwards: each position is exchanged with a
/// random one at or before it.
pub open spec fn shuffled_from<A>(s: Seq<A>, i: nat, state: u64) -> Seq<A>
    decreases i,
{
    if i == 0 || i >= s.len() {
        s
    } else {
        let next = next_random(state);
        let j = (next as nat / 0x2_0000_0000) % (i + 1);
        shuffled_from(swapped(s, i as int, j as int), (i - 1) as nat, next)
    }
}

/// The whole sequence shuffled from a seed.
pub open spec fn shuffled<A>(s: Seq<A>, seed: u64) -> Seq<A> {
    if s.len() == 0 {
        s
    } else {
        shuffled_from(s, (s.len() - 1) as nat, seed)
    }
}

/// In-place Fisher-Yates shuffle backed by a tiny linear-congruential generator
/// started from `seed`. Not cryptographic — fine for a play queue.
pub fn shuffle_in_place<T>(items: &mut Vec<T>, seed: u64)
    ensures
        final(items)@ == shuffled(old(items)@, seed),
{
    let len: usize = items.len();
    let mut state: u64 = seed;
    if len < 2 {
        return ;
    }
    let mut i: usize = len - 1;
    let ghost goal = shuffled(items@, seed);
    while i > 0
        invariant
            i < len,
            items@.len() == len,
            goal == shuffled_from(items@, i as nat, state),
        decreases i,
    {
        let ghost before = items@;
        let ghost previous = state;
        state = state.wrapping_mul(6364136223846793005).wrapping_add(1442695040888963407);
        proof {
            lemma_random_step(previous);
        }
        let high: u64 = state >> 33;
        assert(high == state / 0x2_0000_0000 && high < 0x8000_0000) by (bit_vector)
            requires
                high == state >> 33,
        ;
        let j: usize = high as usize % (i + 1);
        swap_elements(items, i, j);
        assert(items@ == swapped(before, i as int, j as int));
        i = i - 1;
    }
}

proof fn lemma_random_step(state: u64)
    ensures
        next_random(state) == state.wrapping_mul(6364136223846793005).wrapping_add(
            1442695040888963407,
        ),
{
    let product = state as nat * 6364136223846793005;
    let modulus: nat = 0x1_0000_0000_0000_0000;
    assert((product % modulus + 1442695040888963407) % modulus == (product + 1442695040888963407)
        % modulus) by {
        vstd::arithmetic::div_mod::lemma_add_mod_noop(
            product as int,
            1442695040888963407,
            modulus as int,
        );
    }
}

proof fn lemma_swap_keeps_elements<A>(s: Seq<A>, i: int, j: int)
    requires
        0 <= i < s.len(),
        0 <= j < s.len(),
    ensures
        swapped(s, i, j).to_multiset() == s.to_multiset(),
        swapped(s, i, j).len() == s.len(),
{
    broadcast use vstd::seq_lib::group_to_multiset_ensures;

    let once = s.update(i, s[j]);
    assert(once.to_multiset() == s.to_multiset().remove(s[i]).insert(s[j]));
    assert(swapped(s, i, j).to_multiset() == once.to_multiset().remove(once[j]).insert(s[i]));
    assert(swapped(s, i, j).to_multiset() =~= s.to_multiset());
}

proof fn lemma_shuffle_keeps_elements<A>(s: Seq<A>, i: nat, state: u64)
    ensures
        shuffled_from(s, i, state).to_multiset() == s.to_multiset(),
        shuffled_from(s, i, state).len() == s.len(),
    decreases i,
{
    if i != 0 && i < s.len() {
        let next = next_random(state);
        let j = (next as nat / 0x2_0000_0000) % (i + 1);
        lemma_swap_keeps_elements(s, i as int, j as int);
        lemma_shuffle_keeps_elements(swapped(s, i as int, j as int), (i - 1) as nat, next);
    }
}

/// A shuffle neither loses nor invents anything: it only changes the order,
/// whatever the seed.
pub proof fn shuffling_only_reorders<A>(s: Seq<A>, seed: u64)
    ensures
        shuffled(s, seed).to_multiset() == s.to_multiset(),
        shuffled(s, seed).len() == s.len(),
{
    if s.len() > 0 {
        lemma_shuffle_keeps_elements(s, (s.len() - 1) as nat, seed);
    }
}

/// Shuffling does not look at the elements: it commutes with viewing them.
proof fn lemma_shuffle_of_views(s: Seq<Item>, t: Seq<ItemModel>, i: nat, state: u64)
    requires
        s.len() == t.len(),
        forall|k: int| 0 <= k < s.len() ==> (#[trigger] s[k])@ == t[k],
    ensures
        shuffled_from(s, i, state).len() == shuffled_from(t, i, state).len(),
        forall|k: int|
            0 <= k < shuffled_from(s, i, state).len() ==> (#[trigger] shuffled_from(
                s,
                i,
                state,
            )[k])@ == shuffled_from(t, i, state)[k],
    decreases i,
{
    if i != 0 && i < s.len() {
        let next = next_random(state);
        let j = (next as nat / 0x2_0000_0000) % (i + 1);
        let s2 = swapped(s, i as int, j as int);
        let t2 = swapped(t, i as int, j as int);
        assert forall|k: int| 0 <= k < s2.len() implies (#[trigger] s2[k])@ == t2[k] by {}
        lemma_shuffle_of_views(s2, t2, (i - 1) as nat, next);
    }
}

fn shuffle_items(items: &mut Vec<Item>, seed: u64)
    ensures
        final(items).deep_view() == shuffled(old(items).deep_view(), seed),
{
    let ghost before = items@;
    let ghost views = items.deep_view();
    shuffle_in_place(items, seed);
    proof {
        if before.len() > 0 {
            lemma_shuffle_of_views(before, views, (before.len() - 1) as nat, seed);
        }
        assert(items.deep_view() =~= shuffled(views, seed));
    }
}

/// Puts the element at `current` first and shuffles the others behind it.
fn pin_and_shuffle(items: &mut Vec<Item>, current: usize, seed: u64)
    requires
        current < old(items)@.len(),
    ensures
        final(items).deep_view() == shuffled(
            old(items).deep_view().remove(current as int),
            seed,
        ).insert(0, old(items).deep_view()[current as int]),
{
    let ghost before = items.deep_view();
    let track = items.remove(current);
    assert(items.deep_view() =~= before.remove(current as int));
    shuffle_items(items, seed);
    let ghost rest = items.deep_view();
    items.insert(0, track);
    assert(items.deep_view() =~= rest.insert(0, before[current as int]));
}

/// The seed that a clock reading gives.
pub open spec fn seed_of(now: Option<Duration>) -> u64 {
    match now {
        Some(span) => (span.total_nanos() % 0x1_0000_0000_0000_0000) as u64,
        None => 0x9E3779B97F4A7C15,
    }
}

/// The shuffle seed for a clock reading: its nanoseconds, or a fixed number when
/// the clock cannot be read.
pub fn shuffle_seed(now: Option<Duration>) -> (seed: u64)
    ensures
        seed == seed_of(now),
{
    match now {
        Some(span) => {
            let nanos: u128 = span.as_nanos();
            (nanos % 0x1_0000_0000_0000_0000) as u64
        },
        None => 0x9E3779B97F4A7C15,
    }
}

impl AppModel {
    /// With `items` as the queue, playing from `start` or the last item before it.
    pub open spec fn with_queue(self, items: Seq<ItemModel>, start: usize) -> AppModel {
        if items.len() == 0 {
            AppModel { queue: Seq::empty(), queue_index: None, ..self }
        } else {
            AppModel {
                queue: items,
                queue_index: Some(
                    if start < items.len() {
                        start
                    } else {
                        (items.len() - 1) as usize
                    },
                ),
                ..self
            }
        }
    }

    /// With the audio items of the active level as the queue, playing `started`.
    pub open spec fn queue_built(self, started: ItemModel) -> AppModel {
        match self.current_level() {
            None => AppModel { queue: Seq::empty(), queue_index: None, ..self },
            Some(level) => {
                let audio = level.items.filter(is_audio());
                if audio.len() == 0 {
                    AppModel { queue: seq![started], queue_index: Some(0), ..self }
                } else {
                    AppModel {
                        queue: audio,
                        queue_index: Some(last_with_id(audio, started.id)),
                        ..self
                    }
                }
            },
        }
    }

    /// Where an item to be played next goes: right behind the current track.
    pub open spec fn next_slot(self) -> int {
        match self.queue_index {
            Some(i) => if i < self.queue.len() {
                i + 1
            } else {
                self.queue.len() as int
            },
            None => self.queue.len() as int,
        }
    }

    /// With `item` added to a queue that is under way.
    pub open spec fn enqueued(self, item: ItemModel, play_next: bool) -> AppModel {
        if self.queue.len() == 0 {
            self
        } else if play_next {
            AppModel { queue: self.queue.insert(self.next_slot(), item), ..self }
        } else {
            AppModel { queue: self.queue.push(item), ..self }
        }
    }

    /// The index of the track after the current one, as the repeat mode has it.
    pub open spec fn next_index(self) -> Option<usize> {
        match self.queue_index {
            Some(current) => if self.queue.len() == 0 {
                None
            } else {
                match self.repeat_mode {
                    RepeatMode::One => Some(current),
                    RepeatMode::All => Some(((current + 1) % (self.queue.len() as int)) as usize),
                    RepeatMode::Off => if current + 1 < self.queue.len() {
                        Some((current + 1) as usize)
                    } else {
                        None
                    },
                }
            },
            None => None,
        }
    }

    /// The index of the track before the current one, as the repeat mode has it.
    /// Repeating one track has no notion of "previous".
    pub open spec fn previous_index(self) -> Option<usize> {
        match self.queue_index {
            Some(current) => if self.queue.len() == 0 {
                None
            } else {
                match self.repeat_mode {
                    RepeatMode::One => None,
                    RepeatMode::All => Some(
                        if current == 0 {
                            (self.queue.len() - 1) as usize
                        } else {
                            (current - 1) as usize
                        },
                    ),
                    RepeatMode::Off => if current == 0 {
                        None
                    } else {
                        Some((current - 1) as usize)
                    },
                }
            },
            None => None,
        }
    }

    /// At another place of the queue, if there is one to go to.
    pub open spec fn at_index(self, index: Option<usize>) -> AppModel {
        match index {
            Some(i) => AppModel { queue_index: Some(i), ..self },
            None => self,
        }
    }

    /// The queued track at an index.
    pub open spec fn track_at(self, index: Option<usize>) -> Option<ItemModel> {
        match index {
            Some(i) => if i < self.queue.len() {
                Some(self.queue[i as int])
            } else {
                None
            },
            None => None,
        }
    }

    /// With the queue preferences about to be saved.
    pub open spec fn prefs_saved(self) -> AppModel {
        self.queued(
            IntentModel::SaveAudioPrefs { repeat_mode: self.repeat_mode, shuffle: self.shuffle },
        )
    }

    /// Whether turning shuffle on can pin the current track: it has to be one.
    pub open spec fn shuffle_ready(self) -> bool {
        !self.shuffle && self.queue.len() > 0 && self.queue_index is Some ==> self.queue_index->0
            < self.queue.len()
    }

    /// With shuffle flipped. Turning it on reorders what is left of the queue
    /// behind the current track.
    pub open spec fn shuffle_toggled(self, seed: u64) -> AppModel {
        let on = !self.shuffle;
        let flipped = AppModel { shuffle: on, ..self }.noted(
            if on {
                "Shuffle on"@
            } else {
                "Shuffle off"@
            },
        );
        let reordered = if on && self.queue.len() > 0 {
            let current = match self.queue_index {
                Some(i) => i as int,
                None => 0,
            };
            AppModel {
                queue: shuffled(self.queue.remove(current), seed).insert(0, self.queue[current]),
                queue_index: Some(0),
                ..flipped
            }
        } else {
            flipped
        };
        reordered.prefs_saved()
    }

    /// With the next repeat mode.
    pub open spec fn repeat_cycled(self) -> AppModel {
        let next = self.repeat_mode.next();
        AppModel { repeat_mode: next, ..self }.noted("Repeat: "@ + next.text()).prefs_saved()
    }

    /// With a sleep-timer choice made.
    pub open spec fn sleep_picked(self, choice: SleepTimer) -> AppModel {
        AppModel { sleep_timer: choice, sleep_remaining_secs: None, ..self }.noted(
            match choice {
                SleepTimer::Off => "Sleep timer off"@,
                SleepTimer::EndOfTrack => "Sleep timer: stop at end of track"@,
                other => "Sleep timer: "@ + other.text(),
            },
        ).queued(IntentModel::SetSleepTimer(choice))
    }

    /// With the sleep-timer overlay open on the active choice.
    pub open spec fn sleep_picker_open(self) -> AppModel {
        AppModel {
            popup: Some(
                PopupMenu::SleepTimer(
                    match sequences::first_index(
                        types::sleep_presets(),
                        |preset: SleepTimer| preset == self.sleep_timer,
                    ) {
                        Some(i) => i as usize,
                        None => 0,
                    },
                ),
            ),
            ..self
        }
    }

    /// The tracks behind the current one.
    pub open spec fn upcoming(self) -> Seq<ItemModel> {
        match self.queue_index {
            Some(i) => if i + 1 < self.queue.len() {
                self.queue.skip(i + 1)
            } else {
                Seq::empty()
            },
            None => Seq::empty(),
        }
    }
}

impl App {
    /// Replace the queue wholesale (used by Instant Mix). The caller passes
    /// the index of the track that should start playing.
    pub fn set_play_queue(&mut self, items: Vec<Item>, start_index: usize)
        ensures
            final(self)@ == old(self)@.with_queue(items.deep_view(), start_index),
    {
        if items.len() == 0 {
            self.clear_queue();
            return ;
        }
        let index: usize = if start_index < items.len() {
            start_index
        } else {
            items.len() - 1
        };
        self.queue = items;
        self.queue_index = Some(index);
    }

    /// Build the audio queue from the active level: every audio item in the
    /// current list, with the started item as the current one. Replaces any prior
    /// queue.
    pub fn build_queue_for(&mut self, started: &Item)
        ensures
            final(self)@ == old(self)@.queue_built(started@),
    {
        let n: usize = self.stack.len();
        if n == 0 {
            self.clear_queue();
            return ;
        }
        let mut queue: Vec<Item> = Vec::new();
        let mut start_index: usize = 0;
        let mut i: usize = 0;
        let ghost p = is_audio();
        let ghost items = self.stack@[n - 1].items.deep_view();
        proof {
            assert(items.take(0) =~= Seq::empty());
            sequences::lemma_filter_empty(p);
            assert(queue.deep_view() =~= Seq::empty());
        }
        while i < self.stack[n - 1].items.len()
            invariant
                n == self.stack@.len(),
                n > 0,
                self@ == old(self)@,
                items == self.stack@[n - 1].items.deep_view(),
                p == is_audio(),
                i <= items.len(),
                queue.deep_view() == items.take(i as int).filter(p),
                start_index == last_with_id(queue.deep_view(), started@.id),
            decreases items.len() - i,
        {
            let item = &self.stack[n - 1].items[i];
            proof {
                sequences::lemma_take_push(items, i as int);
                sequences::lemma_filter_push(items.take(i as int), items[i as int], p);
            }
            if item.media() == MediaKind::Audio {
                let ghost before = queue.deep_view();
                if same_text(item.id.as_str(), started.id.as_str()) {
                    start_index = queue.len();
                }
                push_deep(&mut queue, item.clone());
                assert(queue.deep_view().drop_last() =~= before);
            }
            i = i + 1;
        }
        proof {
            sequences::lemma_take_all(items);
        }
        if queue.len() == 0 {
            push_deep(&mut queue, started.clone());
            start_index = 0;
            assert(queue.deep_view() =~= seq![started@]);
        }
        self.queue = queue;
        self.queue_index = Some(start_index);
    }

    /// Insert `item` right after the currently-playing track (Play next) or
    /// at the queue tail (Add to queue). No-op when the queue is empty (the
    /// caller already issues a normal Play in that case).
    pub fn enqueue(&mut self, item: Item, play_next: bool)
        ensures
            final(self)@ == old(self)@.enqueued(item@, play_next),
    {
        let len: usize = self.queue.len();
        if len == 0 {
            return ;
        }
        if play_next {
            let slot: usize = match self.queue_index {
                Some(i) => if i < len {
                    i + 1
                } else {
                    len
                },
                None => len,
            };
            insert_deep(&mut self.queue, slot, item);
        } else {
            push_deep(&mut self.queue, item);
        }
    }

    /// A copy of the queued track at `index`.
    fn queued_track(&self, index: usize) -> (track: Option<Item>)
        ensures
            track.deep_view() == self@.track_at(Some(index)),
    {
        if index < self.queue.len() {
            Some(self.queue[index].clone())
        } else {
            None
        }
    }

    /// Advance to the next track in the queue, honoring [`RepeatMode`].
    /// `None` when no further tracks remain (queue ends with repeat off).
    pub fn advance_queue(&mut self) -> (track: Option<Item>)
        ensures
            final(self)@ == old(self)@.at_index(old(self)@.next_index()),
            track.deep_view() == old(self)@.track_at(old(self)@.next_index()),
    {
        let current: usize = match self.queue_index {
            Some(i) => i,
            None => {
                return None;
            },
        };
        let len: usize = self.queue.len();
        if len == 0 {
            return None;
        }
        let next: usize = match self.repeat_mode {
            RepeatMode::One => current,
            RepeatMode::All => {
                let place: usize = current % len;
                proof {
                    vstd::arithmetic::div_mod::lemma_add_mod_noop(current as int, 1, len as int);
                    if len == 1 {
                        assert((current + 1) % 1 == 0);
                    } else {
                        vstd::arithmetic::div_mod::lemma_small_mod(1, len as nat);
                        if place + 1 < len {
                            vstd::arithmetic::div_mod::lemma_small_mod((place + 1) as nat, len as nat);
                        } else {
                            vstd::arithmetic::div_mod::lemma_mod_self_0(len as int);
                        }
                    }
                }
                if place + 1 == len {
                    0
                } else {
                    place + 1
                }
            },
            RepeatMode::Off => {
                if current >= len - 1 {
                    return None;
                }
                current + 1
            },
        };
        self.queue_index = Some(next);
        self.queued_track(next)
    }

    /// Step back to the previous track. Returns `None` when already at the
    /// start (or repeat is one, which has no notion of "previous").
    pub fn previous_in_queue(&mut self) -> (track: Option<Item>)
        ensures
            final(self)@ == old(self)@.at_index(old(self)@.previous_index()),
            track.deep_view() == old(self)@.track_at(old(self)@.previous_index()),
    {
        let current: usize = match self.queue_index {
            Some(i) => i,
            None => {
                return None;
            },
        };
        let len: usize = self.queue.len();
        if len == 0 {
            return None;
        }
        let previous: usize = match self.repeat_mode {
            RepeatMode::One => {
                return None;
            },
            RepeatMode::All => if current == 0 {
                len - 1
            } else {
                current - 1
            },
            RepeatMode::Off => {
                if current == 0 {
                    return None;
                }
                current - 1
            },
        };
        self.queue_index = Some(previous);
        self.queued_track(previous)
    }

    /// [`App::toggle_shuffle`] with the order decided by `seed`.
    pub fn toggle_shuffle_seeded(&mut self, seed: u64)
        requires
            old(self)@.shuffle_ready(),
        ensures
            final(self)@ == old(self)@.shuffle_toggled(seed),
    {
        self.shuffle = !self.shuffle;
        if self.shuffle {
            self.set_status("Shuffle on");
        } else {
            self.set_status("Shuffle off");
        }
        if self.shuffle && self.queue.len() > 0 {
            let current: usize = match self.queue_index {
                Some(i) => i,
                None => 0,
            };
            pin_and_shuffle(&mut self.queue, current, seed);
            self.queue_index = Some(0);
        }
        self.queue_save_intent();
    }

    /// Toggle shuffle. Turning shuffle ON reorders the queue with the current
    /// track pinned at index 0 so playback continues without jumping. Emits a
    /// `SaveAudioPrefs` intent so the new state survives a restart.
    pub fn toggle_shuffle(&mut self)
        requires
            old(self)@.shuffle_ready(),
        ensures
            exists|seed: u64| final(self)@ == #[trigger] old(self)@.shuffle_toggled(seed),
    {
        let seed: u64 = shuffle_seed(time::since_epoch());
        self.toggle_shuffle_seeded(seed);
    }

    /// Cycle the repeat mode (Off → All → One → Off), flash the new mode in
    /// the status bar, and persist it.
    pub fn cycle_repeat(&mut self)
        ensures
            final(self)@ == old(self)@.repeat_cycled(),
    {
        self.repeat_mode = self.repeat_mode.cycle();
        let note = concat2("Repeat: ", self.repeat_mode.label());
        self.set_status(note.as_str());
        self.queue_save_intent();
    }

    /// Apply a sleep-timer choice picked from the overlay.
    pub fn pick_sleep_timer(&mut self, choice: SleepTimer)
        ensures
            final(self)@ == old(self)@.sleep_picked(choice),
    {
        self.sleep_timer = choice;
        self.sleep_remaining_secs = None;
        match choice {
            SleepTimer::Off => self.set_status("Sleep timer off"),
            SleepTimer::EndOfTrack => self.set_status("Sleep timer: stop at end of track"),
            other => {
                let note = concat2("Sleep timer: ", other.label());
                self.set_status(note.as_str());
            },
        }
        self.queue_intent(Intent::SetSleepTimer(choice));
    }

    /// Open the sleep-timer overlay with the cursor on the active preset.
    pub fn open_sleep_timer_picker(&mut self)
        ensures
            final(self)@ == old(self)@.sleep_picker_open(),
    {
        let presets = SleepTimer::presets();
        let choice = self.sleep_timer;
        let mut i: usize = 0;
        while i < presets.len() && presets[i] != choice
            invariant
                i <= presets@.len(),
                forall|j: int| 0 <= j < i ==> presets@[j] != choice,
            decreases presets@.len() - i,
        {
            i = i + 1;
        }
        if i == presets.len() {
            i = 0;
        }
        proof {
            types::presets_cover_every_choice(choice);
            sequences::lemma_first_index(
                types::sleep_presets(),
                |preset: SleepTimer| preset == old(self)@.sleep_timer,
            );
        }
        self.popup = Some(PopupMenu::SleepTimer(i));
    }

    fn queue_save_intent(&mut self)
        ensures
            final(self)@ == old(self)@.prefs_saved(),
    {
        self.queue_intent(
            Intent::SaveAudioPrefs { repeat_mode: self.repeat_mode, shuffle: self.shuffle },
        );
    }

    /// Clear the queue (used when audio stops without advancing).
    pub fn clear_queue(&mut self)
        ensures
            final(self)@ == (AppModel { queue: Seq::empty(), queue_index: None, ..old(self)@ }),
    {
        self.queue = Vec::new();
        self.queue_index = None;
        assert(self.queue.deep_view() =~= Seq::empty());
    }

    /// Slice of upcoming tracks (the ones after the current). Used by the
    /// queue pane's renderer.
    pub fn upcoming_queue(&self) -> (tracks: &[Item])
        ensures
            tracks@.map_values(|track: Item| track@) == self@.upcoming(),
    {
        let len: usize = self.queue.len();
        let from: usize = match self.queue_index {
            Some(i) => if i < len {
                i + 1
            } else {
                len
            },
            None => len,
        };
        let tracks = vstd::slice::slice_subrange(self.queue.as_slice(), from, len);
        assert(tracks@.map_values(|track: Item| track@) =~= self@.upcoming());
        tracks
    }

    /// The currently-playing queued track, if any.
    pub fn current_queue_track(&self) -> (track: Option<&Item>)
        ensures
            track.deep_view() == self@.track_at(self@.queue_index),
    {
        match self.queue_index {
            Some(i) => if i < self.queue.len() {
                Some(&self.queue[i])
            } else {
                None
            },
            None => None,
        }
    }
}

/// Turning shuffle on keeps exactly the queued tracks and puts the current one
/// first, so that playback goes on without a jump.
pub proof fn shuffle_pins_the_current_track(app: AppModel, seed: u64)
    requires
        app.shuffle_ready(),
        !app.shuffle,
        app.queue.len() > 0,
    ensures
        app.shuffle_toggled(seed).shuffle,
        app.shuffle_toggled(seed).queue.to_multiset() == app.queue.to_multiset(),
        app.shuffle_toggled(seed).queue_index == Some(0usize),
        app.shuffle_toggled(seed).queue[0] == app.queue[match app.queue_index {
            Some(i) => i as int,
            None => 0,
        }],
{
    broadcast use vstd::seq_lib::group_to_multiset_ensures;

    let current = match app.queue_index {
        Some(i) => i as int,
        None => 0,
    };
    let rest = app.queue.remove(current);
    shuffling_only_reorders(rest, seed);
    let order = shuffled(rest, seed);
    assert(order.insert(0, app.queue[current]).to_multiset() =~= order.to_multiset().insert(
        app.queue[current],
    ));
    assert(rest.to_multiset() =~= app.queue.to_multiset().remove(app.queue[current]));
    assert(app.queue.to_multiset().contains(app.queue[current]));
    assert(order.insert(0, app.queue[current]).to_multiset() =~= app.queue.to_multiset());
}

/// Turning shuffle off leaves the queue as it is.
pub proof fn unshuffling_keeps_the_order(app: AppModel, seed: u64)
    requires
        app.shuffle,
    ensures
        !app.shuffle_toggled(seed).shuffle,
        app.shuffle_toggled(seed).queue == app.queue,
        app.shuffle_toggled(seed).queue_index == app.queue_index,
{
}

/// While the whole queue repeats, the next track's previous one is the current
/// one, and the previous track's next one is too.
pub proof fn repeating_queue_steps_are_inverse(app: AppModel)
    requires
        app.repeat_mode == RepeatMode::All,
        app.queue_index is Some,
        app.queue_index->0 < app.queue.len(),
        app.queue.len() <= usize::MAX,
    ensures
        app.at_index(app.next_index()).previous_index() == app.queue_index,
        app.at_index(app.previous_index()).next_index() == app.queue_index,
{
    let current = app.queue_index->0 as int;
    let len = app.queue.len() as int;
    if current + 1 < len {
        vstd::arithmetic::div_mod::lemma_small_mod((current + 1) as nat, len as nat);
    } else {
        vstd::arithmetic::div_mod::lemma_mod_self_0(len);
    }
    if current > 0 {
        vstd::arithmetic::div_mod::lemma_small_mod(current as nat, len as nat);
    } else {
        vstd::arithmetic::div_mod::lemma_mod_self_0(len);
    }
}

/// Walking the queue never leaves it: from a track of the queue, both steps end on
/// a track of the queue or do not happen.
pub proof fn queue_steps_stay_in_the_queue(app: AppModel)
    requires
        app.queue_index is Some,
        app.queue_index->0 < app.queue.len(),
        app.queue.len() <= usize::MAX,
    ensures
        app.next_index() matches Some(i) ==> i < app.queue.len(),
        app.previous_index() matches Some(i) ==> i < app.queue.len(),
{
    let current = app.queue_index->0 as int;
    let len = app.queue.len() as int;
    assert(0 <= (current + 1) % len < len);
}

/// Repeating one track replays it; without repeat the last track is the end.
pub proof fn repeat_modes_decide_the_end(app: AppModel)
    requires
        app.queue_index is Some,
        app.queue_index->0 < app.queue.len(),
    ensures
        app.repeat_mode == RepeatMode::One ==> app.next_index() == app.queue_index,
        app.repeat_mode == RepeatMode::Off ==> (app.next_index() is None <==> app.queue_index->0
            == app.queue.len() - 1),
{
}

/// A queue built for an audio item of the active level plays that item.
pub proof fn built_queue_plays_what_was_started(app: AppModel, started: ItemModel, place: int)
    requires
        app.current_level() is Some,
        0 <= place < app.current_level()->0.items.len(),
        app.current_level()->0.items[place] == started,
        started.media() == MediaKind::Audio,
        app.current_level()->0.items.len() <= usize::MAX,
    ensures
        app.queue_built(started).track_at(app.queue_built(started).queue_index) is Some,
        app.queue_built(started).track_at(app.queue_built(started).queue_index)->0.id
            == started.id,
{
    let items = app.current_level()->0.items;
    let audio = items.filter(is_audio());
    items.lemma_filter_contains(is_audio(), place);
    items.lemma_filter_len(is_audio());
    let i = choose|i: int| 0 <= i < audio.len() && audio[i] == started;
    lemma_last_with_id(audio, started.id, i);
}

proof fn lemma_last_with_id(items: Seq<ItemModel>, id: Seq<char>, place: int)
    requires
        0 <= place < items.len(),
        items[place].id == id,
        items.len() <= usize::MAX,
    ensures
        last_with_id(items, id) < items.len(),
        items[last_with_id(items, id) as int].id == id,
    decreases items.len(),
{
    if items.last().id != id {
        lemma_last_with_id(items.drop_last(), id, place);
    }
}

} // verus!
