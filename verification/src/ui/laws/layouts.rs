//! Where things stand on screen, and what the key overview lists.

use vstd::prelude::*;
use vstd::string::*;

use crate::sequences;
use crate::ui::cheatsheet;
use crate::ui::cheatsheet::{KeyContext, KeyGroupModel};
use crate::ui::keymap::{Action, Binding, KeyCode};
use crate::ui::layout;
use crate::ui::layout::{Area, Regions};

verus! {

// ---------------------------------------------------------------------------
// The screen

/// The three panes fill the width side by side; the now-playing bar and the status row
/// stand below them, five rows and one row high, at the bottom.
pub proof fn the_screen_is_filled(area: Area, regions: Regions)
    requires
        call_ensures(layout::compute, (area,), regions),
        area.x + area.width <= u16::MAX,
        area.y + area.height <= u16::MAX,
        area.height >= 6,
    ensures
        regions.sidebar.x == area.x,
        regions.list.x == regions.sidebar.x + regions.sidebar.width,
        regions.detail.x == regions.list.x + regions.list.width,
        regions.detail.x + regions.detail.width == area.x + area.width,
        regions.sidebar.y == area.y,
        regions.sidebar.height + 6 == area.height,
        regions.now_playing.y == regions.sidebar.y + regions.sidebar.height,
        regions.now_playing.height == 5,
        regions.now_playing.width == area.width,
        regions.status.y == regions.now_playing.y + 5,
        regions.status.height == 1,
        regions.status.width == area.width,
        regions.status.y + 1 == area.y + area.height,
{
}

/// A quarter of the width is the sidebar's and two fifths the list's, to the nearest cell.
pub proof fn the_columns_have_their_shares(area: Area, regions: Regions)
    requires
        call_ensures(layout::compute, (area,), regions),
        area.x + area.width <= u16::MAX,
    ensures
        -100 <= 100 * regions.sidebar.width - 25 * area.width <= 100,
        -100 <= 100 * (regions.sidebar.width + regions.list.width) - 65 * area.width <= 100,
{
}

/// The parts of a split are given to the panes they are meant for.
pub proof fn regions_are_the_parts(rows: Vec<Area>, columns: Vec<Area>, regions: Regions)
    requires
        call_ensures(layout::regions_of, (&rows, &columns), regions),
        rows@.len() == 3,
        columns@.len() == 3,
    ensures
        regions.sidebar == columns@[0],
        regions.list == columns@[1],
        regions.detail == columns@[2],
        regions.now_playing == rows@[1],
        regions.status == rows@[2],
{
}

/// The key overview has room for its lines and its border wherever the screen does, and
/// never sticks out of it.
pub proof fn the_overview_fits(lines: u16, area: Area, center: Area)
    requires
        call_ensures(layout::sized_center, (lines, area), center),
        lines <= u16::MAX - 2,
        area.x + area.width <= u16::MAX,
        area.y + area.height <= u16::MAX,
    ensures
        lines + 2 <= area.height ==> center.height == lines + 2,
        lines + 2 > area.height ==> center.height == area.height,
        center.x >= area.x && center.x + center.width <= area.x + area.width,
        center.y >= area.y && center.y + center.height <= area.y + area.height,
        5 * center.width + 5 > 3 * area.width,
{
}

// ---------------------------------------------------------------------------
// The key overview

/// A group lists the bindings of its own context in the order of the keymap; one more
/// binding is one more line at the end of its group and of no other.
pub proof fn bindings_are_listed_in_their_group(
    bindings: Seq<Binding>,
    next: Binding,
    context: KeyContext,
)
    ensures
        ({
            let before = cheatsheet::group_of(bindings, context);
            let after = cheatsheet::group_of(bindings.push(next), context);
            &&& after.title == before.title
            &&& cheatsheet::context_of(next.action) == context ==> after.bindings
                == before.bindings.push(cheatsheet::help_of(next))
            &&& cheatsheet::context_of(next.action) != context ==> after.bindings
                == before.bindings
        }),
{
    let p = |b: Binding| cheatsheet::context_of(b.action) == context;
    let f = |b: Binding| cheatsheet::help_of(b);
    sequences::lemma_filter_push(bindings, next, p);
    let kept = bindings.filter(p);
    if cheatsheet::context_of(next.action) == context {
        assert(kept.push(next).map_values(f) =~= kept.map_values(f).push(
            cheatsheet::help_of(next),
        ));
    }
}

/// The groups come in a fixed order: navigation, playback, queue, library, the rest, and
/// the top bar's own keys.
pub proof fn groups_come_in_order(bindings: Seq<Binding>)
    ensures
        ({
            let groups = cheatsheet::groups_of(bindings);
            &&& groups.len() == 6
            &&& groups[0].title == "Navigation"@
            &&& groups[1].title == "Playback"@
            &&& groups[2].title == "Queue"@
            &&& groups[3].title == "Library"@
            &&& groups[4].title == "General"@
            &&& groups[5].title == "Top bar"@
            &&& groups[0] == cheatsheet::group_of(bindings, KeyContext::Navigation)
            &&& groups[1] == cheatsheet::group_of(bindings, KeyContext::Playback)
            &&& groups[2] == cheatsheet::group_of(bindings, KeyContext::Queue)
            &&& groups[3] == cheatsheet::group_of(bindings, KeyContext::Library)
            &&& groups[4] == cheatsheet::group_of(bindings, KeyContext::General)
        }),
{
}

/// A binding's line names its key, with the modifiers that have to be held.
pub proof fn bindings_name_their_key(binding: Binding, c: char)
    ensures
        ({
            let named = cheatsheet::help_of(binding).keys;
            let key = cheatsheet::code_name_of(binding.code);
            &&& !binding.control && !binding.alt ==> named == key
            &&& binding.control && !binding.alt ==> named == "Ctrl+"@ + key
            &&& !binding.control && binding.alt ==> named == "Alt+"@ + key
            &&& binding.control && binding.alt ==> named == "Ctrl+"@ + "Alt+"@ + key
            &&& binding.code == KeyCode::Char(c) && c != ' ' ==> key == seq![c]
            &&& binding.code == KeyCode::Char(' ') ==> key == "Space"@
        }),
{
    reveal_strlit("");
    let key = cheatsheet::code_name_of(binding.code);
    assert(""@ + ""@ + key =~= key);
    assert("Ctrl+"@ + ""@ + key =~= "Ctrl+"@ + key);
    assert(""@ + "Alt+"@ + key =~= "Alt+"@ + key);
}

/// The overview shows every group under its title, line by line, with an empty line after
/// it.
pub proof fn the_overview_lists_the_groups(
    groups: Seq<KeyGroupModel>,
    next: KeyGroupModel,
    i: int,
)
    ensures
        ({
            let before = cheatsheet::overview_rows(groups);
            let after = cheatsheet::overview_rows(groups.push(next));
            let start = before.len() as int;
            &&& cheatsheet::overview_rows(Seq::empty()).len() == 0
            &&& after.len() == start + next.bindings.len() + 2
            &&& after.take(start) == before
            &&& after[start].len() == 1 && after[start][0].text == next.title
            &&& 0 <= i < next.bindings.len() ==> {
                &&& after[start + 1 + i].len() == 2
                &&& after[start + 1 + i][0].text == "  "@ + cheatsheet::pad_end(
                    next.bindings[i].keys,
                    cheatsheet::KEY_COLUMN as nat,
                )
                &&& after[start + 1 + i][1].text == next.bindings[i].desc
            }
        }),
{
    assert(groups.push(next).drop_last() =~= groups);
    let before = cheatsheet::overview_rows(groups);
    let after = cheatsheet::overview_rows(groups.push(next));
    assert(after.take(before.len() as int) =~= before);
}

/// Playback keys are listed under playback, queue keys under the queue, and so on.
pub proof fn actions_belong_to_their_context(action: Action)
    ensures
        action == Action::PlayPause || action == Action::Stop || action == Action::VolumeUp
            || action == Action::VolumeDown || action == Action::SeekForward || action
            == Action::SeekBackward ==> cheatsheet::context_of(action) == KeyContext::Playback,
        action == Action::QueueNext || action == Action::QueuePrev || action
            == Action::QueueShuffle || action == Action::QueueRepeat ==> cheatsheet::context_of(
            action,
        ) == KeyContext::Queue,
        action == Action::Up || action == Action::Down || action == Action::Left || action
            == Action::Right || action == Action::Top || action == Action::Bottom || action
            == Action::FocusNext || action == Action::FocusPrev || action == Action::GoTo
            ==> cheatsheet::context_of(action) == KeyContext::Navigation,
        action == Action::Quit || action == Action::Help || action == Action::Themes
            ==> cheatsheet::context_of(action) == KeyContext::General,
{
}

/// Every action is described by what it does.
pub proof fn actions_are_described(action: Action)
    ensures
        action == Action::Up ==> cheatsheet::described_as(action) == "Move up"@,
        action == Action::Down ==> cheatsheet::described_as(action) == "Move down"@,
        action == Action::Left ==> cheatsheet::described_as(action) == "Back"@,
        action == Action::Right ==> cheatsheet::described_as(action) == "Open or play"@,
        action == Action::FocusNext ==> cheatsheet::described_as(action) == "Next pane"@,
        action == Action::FocusPrev ==> cheatsheet::described_as(action) == "Previous pane"@,
        action == Action::Top ==> cheatsheet::described_as(action) == "Jump to top"@,
        action == Action::Bottom ==> cheatsheet::described_as(action) == "Jump to bottom"@,
        action == Action::Back ==> cheatsheet::described_as(action) == "Back"@,
        action == Action::GoTo ==> cheatsheet::described_as(action) == "Go to…"@,
        action == Action::InfoScrollUp ==> cheatsheet::described_as(action) == "Scroll info up"@,
        action == Action::InfoScrollDown ==> cheatsheet::described_as(action) == "Scroll info down"@,
        action == Action::Play ==> cheatsheet::described_as(action) == "Open or play"@,
        action == Action::PlayPause ==> cheatsheet::described_as(action) == "Play or pause"@,
        action == Action::Stop ==> cheatsheet::described_as(action) == "Stop"@,
        action == Action::VolumeUp ==> cheatsheet::described_as(action) == "Volume up"@,
        action == Action::VolumeDown ==> cheatsheet::described_as(action) == "Volume down"@,
        action == Action::SeekForward ==> cheatsheet::described_as(action) == "Seek forward"@,
        action == Action::SeekBackward ==> cheatsheet::described_as(action) == "Seek backward"@,
        action == Action::QueueNext ==> cheatsheet::described_as(action) == "Next track"@,
        action == Action::QueuePrev ==> cheatsheet::described_as(action) == "Previous track"@,
        action == Action::QueueShuffle ==> cheatsheet::described_as(action) == "Toggle shuffle"@,
        action == Action::QueueRepeat ==> cheatsheet::described_as(action) == "Cycle repeat mode"@,
        action == Action::Favorite ==> cheatsheet::described_as(action) == "Toggle favorite"@,
        action == Action::ItemMenu ==> cheatsheet::described_as(action) == "Item menu"@,
        action == Action::ClientMenu ==> cheatsheet::described_as(action) == "Client settings"@,
        action == Action::Themes ==> cheatsheet::described_as(action) == "Theme picker"@,
        action == Action::Help ==> cheatsheet::described_as(action) == "Key overview"@,
        action == Action::Cancel ==> cheatsheet::described_as(action) == "Cancel"@,
        action == Action::Quit ==> cheatsheet::described_as(action) == "Quit"@,
{
}

/// Keys without a character are called by their names.
pub proof fn keys_are_called_by_their_names(code: KeyCode)
    ensures
        code == KeyCode::Backspace ==> cheatsheet::code_name_of(code) == "Backspace"@,
        code == KeyCode::Enter ==> cheatsheet::code_name_of(code) == "Enter"@,
        code == KeyCode::Left ==> cheatsheet::code_name_of(code) == "Left"@,
        code == KeyCode::Right ==> cheatsheet::code_name_of(code) == "Right"@,
        code == KeyCode::Up ==> cheatsheet::code_name_of(code) == "Up"@,
        code == KeyCode::Down ==> cheatsheet::code_name_of(code) == "Down"@,
        code == KeyCode::Home ==> cheatsheet::code_name_of(code) == "Home"@,
        code == KeyCode::End ==> cheatsheet::code_name_of(code) == "End"@,
        code == KeyCode::PageUp ==> cheatsheet::code_name_of(code) == "PgUp"@,
        code == KeyCode::PageDown ==> cheatsheet::code_name_of(code) == "PgDn"@,
        code == KeyCode::Tab ==> cheatsheet::code_name_of(code) == "Tab"@,
        code == KeyCode::BackTab ==> cheatsheet::code_name_of(code) == "Shift+Tab"@,
        code == KeyCode::Delete ==> cheatsheet::code_name_of(code) == "Del"@,
        code == KeyCode::Insert ==> cheatsheet::code_name_of(code) == "Ins"@,
        code == KeyCode::Null ==> cheatsheet::code_name_of(code) == "Null"@,
        code == KeyCode::Esc ==> cheatsheet::code_name_of(code) == "Esc"@,
        code == KeyCode::Other ==> cheatsheet::code_name_of(code) == "?"@,
{
}

/// A key's name stands at the left of its column with blanks behind it, and a longer one
/// is kept whole.
pub proof fn key_names_stand_on_the_left(name: Seq<char>, width: nat)
    ensures
        ({
            let padded = cheatsheet::pad_end(name, width);
            &&& name.len() >= width ==> padded == name
            &&& name.len() < width ==> {
                &&& padded.len() == width
                &&& padded.take(name.len() as int) == name
                &&& forall|i: int| name.len() <= i < width ==> #[trigger] padded[i] == ' '
            }
        }),
{
    if name.len() < width {
        assert(cheatsheet::pad_end(name, width).take(name.len() as int) =~= name);
    }
}

/// A centered rectangle lies inside its area and is as large as its percentage of it, to
/// less than a cell.
pub proof fn centered_rectangles_have_their_share(x: u16, y: u16, area: Area, center: Area)
    requires
        call_ensures(layout::centered_rect, (x, y, area), center),
        x <= 100,
        y <= 100,
        area.x + area.width <= u16::MAX,
        area.y + area.height <= u16::MAX,
    ensures
        center.x >= area.x && center.x + center.width <= area.x + area.width,
        center.y >= area.y && center.y + center.height <= area.y + area.height,
        -100 < 100 * center.width - area.width * x < 100,
        -100 < 100 * center.height - area.height * y < 100,
{
    layout::centered_rectangles_are_centered(x, y, area);
}

/// The key overview is never narrower than its columns need, as far as the screen allows.
pub proof fn the_overview_is_wide_enough(width: u16)
    ensures
        layout::overview_width(width) <= width,
        width >= layout::CHEATSHEET_MIN_WIDTH ==> layout::overview_width(width)
            >= layout::CHEATSHEET_MIN_WIDTH,
        width < layout::CHEATSHEET_MIN_WIDTH ==> layout::overview_width(width) == width,
{
}

} // verus!
