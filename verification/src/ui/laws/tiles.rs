//! Home and search on screen: greetings, carousels, tiles and results.

use vstd::prelude::*;
use vstd::string::*;

use crate::text;
use crate::time::Duration;
use crate::ui::app::types::{
    GlobalSearchModel, HomeDataModel, HomeLibraryModel, HomeRowKind, HomeRowModel, ItemModel,
};
use crate::ui::durations;
use crate::ui::layout::Area;
use crate::ui::lines::Tone;
use crate::ui::panes::global_search;
use crate::ui::panes::home;
use crate::ui::panes::home::TileBorder;

verus! {

// ---------------------------------------------------------------------------
// The welcome strip

/// The hour is that of the day in UTC, and noon without a clock.
pub proof fn the_hour_is_that_of_the_day(span: Duration, days: nat, h: nat, rest: nat, hour: u32)
    requires
        call_ensures(home::hour_at, (Some(span),), hour),
        span.secs == days * 86_400 + h * 3600 + rest,
        h < 24,
        rest < 3600,
    ensures
        hour == h,
        home::hour_of(None) == 12,
{
    assert((span.secs % 86_400) / 3600 == h) by (nonlinear_arith)
        requires
            span.secs == days * 86_400 + h * 3600 + rest,
            h < 24,
            rest < 3600,
    ;
}

/// The greeting follows the time of day, and the glyph follows the greeting.
pub proof fn the_greeting_follows_the_hour(h: u32, greeting: &'static str, glyph: &'static str)
    requires
        call_ensures(home::greeting_for_hour, (h,), greeting),
        call_ensures(home::greeting_glyph, (h,), glyph),
    ensures
        5 <= h < 12 ==> greeting@ == "Good morning"@ && glyph@ == "☼"@,
        12 <= h < 18 ==> greeting@ == "Good afternoon"@ && glyph@ == "✦"@,
        18 <= h < 23 ==> greeting@ == "Good evening"@ && glyph@ == "☾"@,
        h < 5 || h >= 23 ==> greeting@ == "Welcome back"@ && glyph@ == "✧"@,
{
}

/// The items of all libraries are added up.
pub proof fn items_are_added_up(summaries: Seq<HomeLibraryModel>, next: HomeLibraryModel)
    ensures
        home::item_total(Seq::empty()) == 0,
        home::item_total(summaries.push(next)) == home::item_total(summaries) + next.item_count,
{
    assert(summaries.push(next).drop_last() =~= summaries);
}

/// What stands in place of the carousels says why there are none.
pub proof fn an_empty_home_says_why(data: HomeDataModel, rows: nat)
    ensures
        rows > 0 <==> home::placeholder_of(data, rows) is None,
        rows == 0 && data.loading ==> home::placeholder_of(data, rows) == Some(
            "  Loading your library…"@,
        ),
        rows == 0 && !data.loading && data.recent_per_library.len() == 0 ==> home::placeholder_of(
            data,
            rows,
        ) == Some("  No libraries yet. Run `aquafin --setup` to connect a server."@),
        rows == 0 && !data.loading && data.recent_per_library.len() > 0 ==> home::placeholder_of(
            data,
            rows,
        ) == Some("  Nothing to show yet. Pick a library with the digit keys."@),
{
}

// ---------------------------------------------------------------------------
// Carousels

/// The carousels on display follow one another without a gap, each ten rows high and as
/// wide as the screen, and start with the first as long as the focused one is in view.
pub proof fn carousels_follow_one_another(count: int, cursor: int, rest: Area, k: int)
    requires
        0 <= cursor < count <= usize::MAX,
        rest.y + rest.height <= u16::MAX,
        0 <= k < home::row_areas(count, cursor, rest).len(),
    ensures
        ({
            let rows = home::row_areas(count, cursor, rest);
            &&& rows[k].0 == home::first_row(cursor, rest.height as int) + k
            &&& rows[k].1.x == rest.x
            &&& rows[k].1.y == rest.y + 10 * k
            &&& rows[k].1.width == rest.width
            &&& rows[k].1.height == 10
            &&& rows[k].1.y + 10 <= rest.y + rest.height
            &&& rows[k].0 < count
            &&& cursor * 10 + 10 <= rest.height ==> rows[0].0 == 0
        }),
{
    let room = rest.height as int / 10;
    let rows = home::row_areas(count, cursor, rest);
    let first = home::first_row(cursor, rest.height as int);
    assert(rows.len() == home::shown_rows(count, cursor, rest.height as int));
    assert(k < room);
    assert(first + k < count);
    assert(10 * k + 10 <= rest.height);
}

/// A carousel's heading names the row and counts its tiles; the focused one has an arrow.
pub proof fn headings_name_and_count(row: HomeRowModel, focused: bool)
    ensures
        ({
            let spans = home::row_header_of(row, focused);
            &&& spans.len() == 3
            &&& focused ==> spans[0].text == "▶ "@
            &&& !focused ==> spans[0].text == "▎ "@
            &&& spans[1].text == row.title
            &&& spans[2].text == "   ("@ + text::decimal(row.items.len()) + ")"@
        }),
{
}

/// The tiles of a carousel lie inside it, below its heading.
pub proof fn tiles_lie_below_the_heading(area: Area, band: Area)
    requires
        call_ensures(home::tile_band, (area,), band),
        area.x + area.width <= u16::MAX,
        area.y + area.height <= u16::MAX,
        area.width >= 4,
        area.height >= 2,
    ensures
        band.y == area.y + 1,
        band.x == area.x + 2,
        band.width == area.width - 4,
        band.height == area.height - 2,
{
}

/// Tiles stand side by side with the same gap, and none sticks out of the band.
pub proof fn tiles_stand_side_by_side(total: int, cursor: Option<usize>, band: Area, k: int)
    requires
        0 < total <= usize::MAX,
        band.x + band.width <= u16::MAX,
        0 <= k < home::tile_areas(total, cursor, band).len(),
    ensures
        ({
            let tiles = home::tile_areas(total, cursor, band);
            &&& tiles[k].0 == home::first_tile(total, cursor, band.width as int) + k
            &&& tiles[k].1.x == band.x + 20 * k
            &&& tiles[k].1.y == band.y
            &&& tiles[k].1.width == 18
            &&& tiles[k].1.x + 18 <= band.x + band.width
            &&& tiles[k].1.height <= band.height
            &&& tiles[k].0 < total
            &&& cursor is None ==> tiles[0].0 == 0
        }),
{
    let room = (band.width + 2) / 20;
    assert(k < room);
    assert(20 * k + 18 <= band.width);
}

/// More tiles to the right are announced exactly where there are more than fit.
pub proof fn more_tiles_are_announced(total: int, band: Area)
    requires
        band.width >= 18,
    ensures
        ({
            let room = (band.width + 2) / 20;
            home::more_sign_of(total, None, band) is Some <==> total > room
        }),
{
}

// ---------------------------------------------------------------------------
// Tiles

/// A tile is marked as focused in the focused row, and stands out in another.
pub proof fn borders_show_the_focus(tile: bool, row: bool, border: TileBorder)
    requires
        call_ensures(home::tile_border, (tile, row), border),
    ensures
        tile && row ==> border == TileBorder::Focused,
        tile && !row ==> border == TileBorder::Bold,
        !tile ==> border == TileBorder::Unfocused,
{
}

/// The initials are those of the first two words.
pub proof fn initials_are_those_of_the_first_words(word: Seq<char>, rest: Seq<char>)
    requires
        word.len() > 0,
        forall|i: int| 0 <= i < word.len() ==> !text::is_white_space(#[trigger] word[i]),
    ensures
        home::raw_initials(word) == seq![word[0]],
        home::raw_initials(Seq::empty()) == seq!['•'],
        rest.len() > 0 && !text::is_white_space(rest[0]) ==> home::word_initials(
            word + seq![' '] + rest,
        ).len() >= 2 && home::raw_initials(word + seq![' '] + rest) == seq![word[0], rest[0]],
{
    lemma_one_word(word);
    assert(home::word_initials(Seq::<char>::empty()) =~= Seq::empty());
    if rest.len() > 0 && !text::is_white_space(rest[0]) {
        let spaced = word.push(' ');
        assert(spaced.drop_last() =~= word);
        assert(home::word_initials(spaced) == seq![word[0]]);
        let two = spaced.push(rest[0]);
        assert(two.drop_last() =~= spaced);
        assert(home::word_initials(two) == seq![word[0]].push(rest[0]));
        let whole = word + seq![' '] + rest;
        assert(whole =~= two + rest.drop_first());
        lemma_initials_grow(two, rest.drop_first());
        let initials = home::word_initials(whole);
        assert(initials.take(2) =~= home::word_initials(two));
        assert(initials[0] == initials.take(2)[0]);
        assert(initials[1] == initials.take(2)[1]);
    }
}

proof fn lemma_one_word(word: Seq<char>)
    requires
        word.len() > 0,
        forall|i: int| 0 <= i < word.len() ==> !text::is_white_space(#[trigger] word[i]),
    ensures
        home::word_initials(word) == seq![word[0]],
    decreases word.len(),
{
    let before = word.drop_last();
    assert(!text::is_white_space(word[word.len() - 1]));
    if before.len() == 0 {
        assert(home::word_initials(before) =~= Seq::empty());
        assert(home::word_initials(word) =~= seq![word[0]]);
    } else {
        assert forall|i: int| 0 <= i < before.len() implies !text::is_white_space(
            #[trigger] before[i],
        ) by {
            assert(before[i] == word[i]);
        }
        lemma_one_word(before);
        assert(!text::is_white_space(before[before.len() - 1]));
    }
}

proof fn lemma_initials_grow(s: Seq<char>, more: Seq<char>)
    ensures
        home::word_initials(s + more).len() >= home::word_initials(s).len(),
        home::word_initials(s + more).take(home::word_initials(s).len() as int)
            == home::word_initials(s),
    decreases more.len(),
{
    let known = home::word_initials(s);
    if more.len() == 0 {
        assert(s + more =~= s);
        assert(known.take(known.len() as int) =~= known);
    } else {
        lemma_initials_grow(s, more.drop_last());
        assert((s + more).drop_last() =~= s + more.drop_last());
        let shorter = home::word_initials(s + more.drop_last());
        let longer = home::word_initials(s + more);
        assert(longer.take(known.len() as int) =~= shorter.take(known.len() as int));
    }
}

/// A tile's second line: a library's kind, what is left of a video, or the year.
pub proof fn subtitles_say_kind_length_or_year(item: ItemModel)
    ensures
        item.kind is Some && item.kind->0.len() > 0 ==> home::subtitle_of(
            HomeRowKind::Libraries,
            item,
        ) == text::lowercase(item.kind->0),
        item.kind is None ==> home::subtitle_of(HomeRowKind::Libraries, item) == "library"@,
        item.run_time_ticks is Some && item.run_time_ticks->0 > 0 ==> Some(
            home::subtitle_of(HomeRowKind::Resume, item),
        ) == durations::duration_text(item.run_time_ticks),
        item.production_year matches Some(year) ==> home::subtitle_of(HomeRowKind::NextUp, item)
            == text::signed_decimal(year as int) && home::subtitle_of(HomeRowKind::Recent, item)
            == text::signed_decimal(year as int),
        item.production_year is None && item.kind is Some ==> home::subtitle_of(
            HomeRowKind::Recent,
            item,
        ) == item.kind->0,
{
}

/// A text that is too long keeps its beginning and ends in an ellipsis; any other is kept
/// whole.
pub proof fn long_texts_end_in_an_ellipsis(s: &str, max: usize, cut: String)
    requires
        call_ensures(home::clip, (s, max), cut),
        max > 0,
    ensures
        s@.len() <= max ==> cut@ == s@,
        s@.len() > max ==> cut@.len() == max && cut@.last() == '…' && cut@.drop_last() == s@.take(
            max - 1,
        ),
{
    if s@.len() > max {
        assert(cut@.drop_last() =~= s@.take(max - 1));
    }
}

/// A tile shows its item's name and its row's glyph; the name stands out where the tile
/// has the focus.
pub proof fn a_tile_shows_its_item(
    kind: HomeRowKind,
    item: ItemModel,
    area: Area,
    tile: bool,
    row: bool,
)
    ensures
        ({
            let shown = home::tile_of(kind, item, area, tile, row);
            &&& item.name.len() <= area.width && area.width > 0 ==> shown.title.len() == 1
                && shown.title[0].text == item.name
            &&& tile && row ==> shown.title[0].tone == Tone::AccentBold
            &&& !tile || !row ==> shown.title[0].tone == Tone::ListItem
            &&& shown.icon[0].text == "  "@ + home::tile_glyph(kind, item.kind) + "  "@
            &&& shown.icon[1].text == text::uppercase(home::raw_initials(item.name))
            &&& area.height >= 4 <==> shown.subtitle is Some
            &&& kind == HomeRowKind::Resume && item.run_time_ticks is Some
                && item.run_time_ticks->0 > 0 ==> home::extra_of(kind, item, area.width as int)
                == "⏱  "@ + durations::duration_text(item.run_time_ticks)->0
        }),
{
}

/// Rows and kinds have their glyphs.
pub proof fn rows_have_their_glyphs(kind: Option<Seq<char>>)
    ensures
        home::tile_glyph(HomeRowKind::Resume, kind) == "▶"@,
        home::tile_glyph(HomeRowKind::NextUp, kind) == "»"@,
        kind == Some("movies"@) ==> home::tile_glyph(HomeRowKind::Libraries, kind) == "▣"@,
        kind == Some("Movie"@) ==> home::tile_glyph(HomeRowKind::Recent, kind) == "▣"@,
{
}

// ---------------------------------------------------------------------------
// Search results

/// The results on display are those from the first shown on, in order, and exactly the
/// selected one is marked, unless the query is being typed.
pub proof fn results_are_shown_in_order(view: GlobalSearchModel, height: int, focused: bool, k: int)
    requires
        height > 0,
        view.selected < view.results.len(),
        0 <= k < view.result_rows(height, focused).len(),
    ensures
        ({
            let rows = view.result_rows(height, focused);
            let i = view.first_shown(height) + k;
            let item = view.results[i];
            let here = !view.input_focused && i == view.selected;
            &&& rows[k].len() == 4
            &&& rows[k][2].text == item.name
            &&& here ==> rows[k][0].text == " ▶ "@
            &&& !here ==> rows[k][0].text == "   "@
            &&& item.kind matches Some(kind) ==> rows[k][3].text == "   ·  "@ + kind
            &&& here && focused ==> rows[k][2].tone == Tone::Selected
            &&& !here ==> rows[k][2].tone == Tone::ListItem
            &&& view.input_focused ==> i == k
            &&& view.selected < height ==> i == k
            &&& rows.len() <= height
        }),
{
}

/// The input shows the query, and a cursor while it has the focus.
pub proof fn the_input_shows_the_query(view: GlobalSearchModel, focused: bool)
    ensures
        global_search::input_spans(view, focused)[1].text == view.query,
        view.input_focused ==> global_search::input_spans(view, focused).len() == 3,
        !view.input_focused ==> global_search::input_spans(view, focused).len() == 2,
{
}

/// Without results the view says whether it is searching, found nothing, or waits.
pub proof fn missing_results_are_explained(view: GlobalSearchModel)
    ensures
        view.loading ==> global_search::no_results_of(view) == "  …"@,
        !view.loading && view.submitted ==> global_search::no_results_of(view)
            == "  No matches for that query."@,
        !view.loading && !view.submitted && view.query.len() == 0 ==> global_search::no_results_of(
            view,
        ) == "  Start typing, then press Enter."@,
        !view.loading && !view.submitted && view.query.len() > 0 ==> global_search::no_results_of(
            view,
        ) == "  Press Enter to search."@,
        view.loading ==> global_search::hint_of(view) == "  Searching…"@,
{
}

// ---------------------------------------------------------------------------
// What the strip says

/// The welcome strip greets by the hour and counts the libraries, the items and what is in
/// progress, each as far as there is any.
pub proof fn the_welcome_strip_counts(data: HomeDataModel, hour: u32)
    ensures
        ({
            let strip = home::welcome_of(data, None, hour);
            let facts = strip[1];
            let libraries: int = if data.recent_per_library.len() > 0 {
                2
            } else {
                0
            };
            let total = home::item_total(data.recent_per_library);
            let items: int = if total > 0 {
                2
            } else {
                0
            };
            &&& strip.len() == 4
            &&& strip[0][1].text == home::greeting_glyph_of(hour)
            &&& strip[0][3].text == home::greeting_of(hour)
            &&& facts[0].text == "  aquafin"@
            &&& libraries > 0 ==> facts[2].text == text::decimal(data.recent_per_library.len())
                + " libraries"@
            &&& total > 0 ==> facts[2 + libraries].text == text::decimal(total as nat) + " items"@
            &&& data.resume.len() > 0 ==> facts[2 + libraries + items].text == text::decimal(
                data.resume.len(),
            ) + " in progress"@
        }),
{
}

/// The strip names the server where its name is known.
pub proof fn the_welcome_strip_names_the_server(data: HomeDataModel, name: Seq<char>, hour: u32)
    requires
        name.len() > 0,
    ensures
        home::welcome_of(data, Some(name), hour)[1][2].text == name,
        home::welcome_of(data, Some(name), hour)[1].len() == home::welcome_of(
            data,
            None,
            hour,
        )[1].len() + 2,
{
}

/// Results get the glyph of their kind.
pub proof fn results_get_their_glyph(kind: Seq<char>)
    ensures
        kind == "Movie"@ ==> global_search::result_glyph(kind) == "▣"@,
        kind == "Series"@ || kind == "Episode"@ || kind == "Season"@ ==> global_search::result_glyph(
            kind,
        ) == "◫"@,
        kind == "Audio"@ || kind == "MusicAlbum"@ || kind == "MusicArtist"@
            ==> global_search::result_glyph(kind) == "♪"@,
{
    reveal_strlit("Movie");
    reveal_strlit("Series");
    reveal_strlit("Episode");
    reveal_strlit("Season");
    reveal_strlit("Audio");
    reveal_strlit("MusicAlbum");
    reveal_strlit("MusicArtist");
    assert("Movie"@.len() == 5 && "Series"@.len() == 6 && "Episode"@.len() == 7);
    assert("Season"@.len() == 6 && "Audio"@.len() == 5 && "MusicAlbum"@.len() == 10);
    assert("MusicArtist"@.len() == 11);
    assert("Movie"@[0] != "Audio"@[0]);
}

} // verus!
