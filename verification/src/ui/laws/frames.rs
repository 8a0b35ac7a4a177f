//! A turn of the event loop: following the selection, and what a frame fetches.

use vstd::prelude::*;

use crate::ui::app::state::App;
use crate::ui::run::{FramePlan, SelectionWatch};

verus! {

/// A selection that stays counts its frames; another one starts anew.
pub proof fn a_steady_selection_counts_its_frames(
    watch: &mut SelectionWatch,
    app: &mut App,
    plan: FramePlan,
)
    requires
        call_ensures(SelectionWatch::frame, (watch, app), plan),
    ensures
        ({
            let id = old(app)@.current_id();
            let before = old(watch)@;
            let after = final(watch)@;
            &&& after.last_item_id == id
            &&& id != before.last_item_id ==> after.stable_ticks == 0
            &&& id == before.last_item_id && before.stable_ticks < 255 ==> after.stable_ticks
                == before.stable_ticks + 1
            &&& id == before.last_item_id && before.stable_ticks == 255 ==> after.stable_ticks
                == 255
        }),
{
}

/// A frame fetches the details of the current item once it has been there for two frames,
/// its cover where it has one and is on display, and the cover of what plays always.
pub proof fn a_frame_fetches_for_a_settled_selection(
    watch: &mut SelectionWatch,
    app: &mut App,
    plan: FramePlan,
)
    requires
        call_ensures(SelectionWatch::frame, (watch, app), plan),
    ensures
        ({
            let shown = final(app)@;
            let settled = final(watch)@.stable_ticks >= 2;
            &&& plan@.detail is Some <==> settled && shown.current_item() is Some
            &&& plan@.detail matches Some(wanted) ==> wanted.0 == shown.current_item()->0.id
                && wanted.1 == shown.current_item()->0.kind
            &&& plan@.cover is Some <==> settled && shown.current_item() is Some
                && shown.current_item()->0.primary_image_tag is Some && shown.revealed_item_id
                == Some(shown.current_item()->0.id)
            &&& plan@.cover matches Some(id) ==> id == shown.current_item()->0.id
            &&& shown.now_playing matches Some(playing) ==> plan@.playing_cover == Some(
                playing.item_id,
            )
            &&& shown.now_playing is None ==> plan@.playing_cover is None
        }),
{
}

/// A moved selection is put on display, and nothing else of the client moves.
pub proof fn a_moved_selection_is_shown(
    watch: &mut SelectionWatch,
    app: &mut App,
    plan: FramePlan,
)
    requires
        call_ensures(SelectionWatch::frame, (watch, app), plan),
    ensures
        ({
            let before = old(app)@;
            let after = final(app)@;
            let moved = before.current_id() != old(watch)@.last_item_id;
            &&& !moved ==> after == before
            &&& moved && before.current_item() is Some ==> after.revealed_item_id == Some(
                before.current_item()->0.id,
            )
            &&& moved ==> after.context_top_scroll == 0 && after.context_bottom_scroll == 0
                && after.media_options_view is None
            &&& after.stack == before.stack
            &&& after.focus == before.focus
            &&& after.queue == before.queue
            &&& after.pending == before.pending
            &&& after.now_playing == before.now_playing
        }),
{
}

} // verus!
