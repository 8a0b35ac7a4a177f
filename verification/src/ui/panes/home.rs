//! Home dashboard: welcome strip + horizontal carousels (Continue, Next Up,
//! Libraries, New in <library>). Tiles are unicode placeholders so the layout
//! works on every terminal regardless of image-protocol support.

use vstd::prelude::*;

use crate::sequences;
use crate::sequences::push_deep;
use crate::text;
use crate::text::{
    as_slice, chars_of, concat2, concat3, decimal_text, is_text, signed_decimal_text, white_space,
};
use crate::time;
use crate::time::Duration;
use crate::ui::app::types::{
    HomeData, HomeDataModel, HomeLibraryModel, HomeLibrarySummary, HomeRow, HomeRowKind,
    HomeRowModel, Item, ItemModel,
};
use crate::ui::durations;
use crate::ui::durations::format_duration;
use crate::ui::layout::Area;
use crate::ui::lines;
use crate::ui::lines::{line, span, Span, SpanModel, Tone};

verus! {

/// Height of the welcome strip (top of Home).
pub const WELCOME_HEIGHT: u16 = 4;

/// Height reserved for a single carousel row: 1 row header + tile body +
/// 1 row title + 1 row meta/progress + 1 row spacer.
pub const ROW_HEIGHT: u16 = 10;

/// Width of a tile.
pub const TILE_WIDTH: u16 = 18;

/// Height of a tile.
pub const TILE_HEIGHT: u16 = 5;

/// Columns between two tiles.
pub const TILE_GAP: u16 = 2;

/// Columns from one tile to the next.
pub const TILE_STRIDE: u16 = 20;

/// Whether Home has room to draw anything.
pub fn fits(width: u16, height: u16) -> (fits: bool)
    ensures
        fits == (width >= 20 && height >= 6),
{
    width >= 20 && height >= 6
}

// ---------------------------------------------------------------------------
// Welcome strip

/// The hour of a clock reading in UTC; noon without one.
pub open spec fn hour_of(now: Option<Duration>) -> u32 {
    match now {
        Some(span) => ((span.secs % 86_400) / 3600) as u32,
        None => 12,
    }
}

/// The hour of a clock reading in UTC: coarse, but good enough for
/// "morning/evening". Noon without one.
pub fn hour_at(now: Option<Duration>) -> (hour: u32)
    ensures
        hour == hour_of(now),
        hour < 24,
{
    match now {
        Some(span) => ((span.secs % 86_400) / 3600) as u32,
        None => 12,
    }
}

/// 0–23 hour right now, best-effort. Falls back to noon if the system clock is
/// somehow unreadable.
pub fn local_hour() -> (hour: u32)
    ensures
        hour < 24,
        exists|now: Option<Duration>| hour == #[trigger] hour_of(now),
{
    let now = time::since_epoch();
    hour_at(now)
}

/// The greeting at an hour.
pub open spec fn greeting_of(h: u32) -> Seq<char> {
    if 5 <= h <= 11 {
        "Good morning"@
    } else if 12 <= h <= 17 {
        "Good afternoon"@
    } else if 18 <= h <= 22 {
        "Good evening"@
    } else {
        "Welcome back"@
    }
}

/// The greeting at an hour.
pub fn greeting_for_hour(h: u32) -> (greeting: &'static str)
    ensures
        greeting@ == greeting_of(h),
{
    if 5 <= h && h <= 11 {
        "Good morning"
    } else if 12 <= h && h <= 17 {
        "Good afternoon"
    } else if 18 <= h && h <= 22 {
        "Good evening"
    } else {
        "Welcome back"
    }
}

/// The glyph at an hour.
pub open spec fn greeting_glyph_of(h: u32) -> Seq<char> {
    if 5 <= h <= 11 {
        "☼"@
    } else if 12 <= h <= 17 {
        "✦"@
    } else if 18 <= h <= 22 {
        "☾"@
    } else {
        "✧"@
    }
}

/// The glyph at an hour.
pub fn greeting_glyph(h: u32) -> (glyph: &'static str)
    ensures
        glyph@ == greeting_glyph_of(h),
{
    if 5 <= h && h <= 11 {
        "☼"
    } else if 12 <= h && h <= 17 {
        "✦"
    } else if 18 <= h && h <= 22 {
        "☾"
    } else {
        "✧"
    }
}

/// How many items the libraries have, together.
pub open spec fn item_total(summaries: Seq<HomeLibraryModel>) -> int
    decreases summaries.len(),
{
    if summaries.len() == 0 {
        0
    } else {
        item_total(summaries.drop_last()) + summaries.last().item_count
    }
}

/// Whether the item counts can be added up.
pub open spec fn countable(summaries: Seq<HomeLibraryModel>) -> bool {
    forall|i: int|
        0 <= i <= summaries.len() ==> i64::MIN <= #[trigger] item_total(summaries.take(i))
            <= i64::MAX
}

fn total_items(summaries: &Vec<HomeLibrarySummary>) -> (total: i64)
    requires
        countable(summaries.deep_view()),
    ensures
        total == item_total(summaries.deep_view()),
{
    let ghost models = summaries.deep_view();
    let mut total: i64 = 0;
    let mut i: usize = 0;
    while i < summaries.len()
        invariant
            i <= summaries@.len(),
            models == summaries.deep_view(),
            countable(models),
            total == item_total(models.take(i as int)),
        decreases summaries@.len() - i,
    {
        proof {
            sequences::lemma_take_push(models, i as int);
            assert(models.take(i + 1).drop_last() =~= models.take(i as int));
            assert(item_total(models.take(i + 1)) == total + models[i as int].item_count);
        }
        total = total + summaries[i].item_count;
        i = i + 1;
    }
    proof {
        sequences::lemma_take_all(models);
    }
    total
}

/// One fact of the welcome strip, behind its separator.
pub open spec fn fact(show: bool, tone: Tone, words: Seq<char>) -> Seq<SpanModel> {
    if show {
        seq![lines::styled(Tone::Muted, "  ·  "@), lines::styled(tone, words)]
    } else {
        Seq::empty()
    }
}

/// The welcome strip's second line: what there is.
pub open spec fn meta_spans(home: HomeDataModel, server_name: Option<Seq<char>>) -> Seq<SpanModel> {
    let libraries = home.recent_per_library.len();
    let total = item_total(home.recent_per_library);
    seq![lines::styled(Tone::Muted, "  aquafin"@)] + (match server_name {
        Some(name) => fact(name.len() > 0, Tone::Accent, name),
        None => Seq::empty(),
    }) + fact(libraries > 0, Tone::Muted, text::decimal(libraries) + " libraries"@) + fact(
        total > 0,
        Tone::Muted,
        text::decimal(total as nat) + " items"@,
    ) + fact(
        home.resume.len() > 0,
        Tone::Accent,
        text::decimal(home.resume.len()) + " in progress"@,
    )
}

/// The welcome strip.
pub open spec fn welcome_of(
    home: HomeDataModel,
    server_name: Option<Seq<char>>,
    hour: u32,
) -> Seq<Seq<SpanModel>> {
    seq![
        seq![
            lines::styled(Tone::Header, "  "@),
            lines::styled(Tone::AccentBold, greeting_glyph_of(hour)),
            lines::styled(Tone::Plain, "  "@),
            lines::styled(Tone::HeaderBold, greeting_of(hour)),
        ],
        meta_spans(home, server_name),
        lines::line_of(Tone::Plain, ""@),
        lines::line_of(
            Tone::Dim,
            "  arrows move · Enter open · digit jumps to library · g h returns Home"@,
        ),
    ]
}

fn add_fact(spans: &mut Vec<Span>, show: bool, tone: Tone, words: &str)
    ensures
        final(spans).deep_view() == old(spans).deep_view() + fact(show, tone, words@),
{
    if show {
        push_deep(spans, span(Tone::Muted, "  ·  "));
        push_deep(spans, span(tone, words));
    }
    assert(spans.deep_view() =~= old(spans).deep_view() + fact(show, tone, words@));
}

fn meta_line(home: &HomeData, server_name: Option<&str>) -> (spans: Vec<Span>)
    requires
        countable(home@.recent_per_library),
    ensures
        spans.deep_view() == meta_spans(home@, server_name.deep_view()),
{
    let mut spans = line(Tone::Muted, "  aquafin");
    if let Some(name) = server_name {
        add_fact(&mut spans, !name.is_empty(), Tone::Accent, name);
    }
    let ghost named = spans.deep_view();
    assert(named =~= seq![lines::styled(Tone::Muted, "  aquafin"@)] + (match server_name.deep_view() {
        Some(name) => fact(name.len() > 0, Tone::Accent, name),
        None => Seq::empty(),
    }));
    let libraries: usize = home.recent_per_library.len();
    add_fact(
        &mut spans,
        libraries > 0,
        Tone::Muted,
        concat2(decimal_text(libraries as u64).as_str(), " libraries").as_str(),
    );
    let total: i64 = total_items(&home.recent_per_library);
    let shown_total: u64 = if total > 0 {
        total as u64
    } else {
        0
    };
    add_fact(
        &mut spans,
        total > 0,
        Tone::Muted,
        concat2(decimal_text(shown_total).as_str(), " items").as_str(),
    );
    let in_progress: usize = home.resume.len();
    add_fact(
        &mut spans,
        in_progress > 0,
        Tone::Accent,
        concat2(decimal_text(in_progress as u64).as_str(), " in progress").as_str(),
    );
    assert(spans.deep_view() =~= meta_spans(home@, server_name.deep_view()));
    spans
}

/// Greeting + server tag + counts, and a key hint, at a given hour.
pub fn welcome_lines(home: &HomeData, server_name: Option<&str>, hour: u32) -> (shown: Vec<
    Vec<Span>,
>)
    requires
        countable(home@.recent_per_library),
    ensures
        shown.deep_view() == welcome_of(home@, server_name.deep_view(), hour),
{
    let mut top: Vec<Span> = Vec::new();
    push_deep(&mut top, span(Tone::Header, "  "));
    push_deep(&mut top, span(Tone::AccentBold, greeting_glyph(hour)));
    push_deep(&mut top, span(Tone::Plain, "  "));
    push_deep(&mut top, span(Tone::HeaderBold, greeting_for_hour(hour)));
    assert(top.deep_view() =~= welcome_of(home@, server_name.deep_view(), hour)[0]);
    let mut shown: Vec<Vec<Span>> = Vec::new();
    push_deep(&mut shown, top);
    push_deep(&mut shown, meta_line(home, server_name));
    push_deep(&mut shown, line(Tone::Plain, ""));
    push_deep(
        &mut shown,
        line(
            Tone::Dim,
            "  arrows move · Enter open · digit jumps to library · g h returns Home",
        ),
    );
    assert(shown.deep_view() =~= welcome_of(home@, server_name.deep_view(), hour));
    shown
}

/// What stands in place of the carousels, if there are none.
pub open spec fn placeholder_of(home: HomeDataModel, row_count: nat) -> Option<Seq<char>> {
    if row_count > 0 {
        None
    } else if home.loading {
        Some("  Loading your library…"@)
    } else if home.recent_per_library.len() == 0 {
        Some("  No libraries yet. Run `aquafin --setup` to connect a server."@)
    } else {
        Some("  Nothing to show yet. Pick a library with the digit keys."@)
    }
}

/// What stands in place of the carousels, if there are none.
pub fn placeholder(home: &HomeData, rows: &Vec<HomeRow>) -> (text: Option<&'static str>)
    ensures
        text.deep_view() == placeholder_of(home@, rows@.len()),
{
    if rows.len() > 0 {
        None
    } else if home.loading {
        Some("  Loading your library…")
    } else if home.recent_per_library.len() == 0 {
        Some("  No libraries yet. Run `aquafin --setup` to connect a server.")
    } else {
        Some("  Nothing to show yet. Pick a library with the digit keys.")
    }
}

// ---------------------------------------------------------------------------
// Carousel rows

/// The first carousel on display: the focused one stays visible.
pub open spec fn first_row(cursor_row: int, height: int) -> int {
    let room = if height / ROW_HEIGHT as int > 1 {
        height / ROW_HEIGHT as int
    } else {
        1
    };
    if cursor_row + 1 > room {
        cursor_row + 1 - room
    } else {
        0
    }
}

/// How many carousels are on display.
pub open spec fn shown_rows(row_count: int, cursor_row: int, height: int) -> int {
    let left = row_count - first_row(cursor_row, height);
    let room = height / ROW_HEIGHT as int;
    if left < 0 {
        0
    } else if left < room {
        left
    } else {
        room
    }
}

/// The carousels on display, each with its place on screen.
pub open spec fn row_areas(row_count: int, cursor_row: int, rest: Area) -> Seq<(usize, Area)> {
    let first = first_row(cursor_row, rest.height as int);
    Seq::new(
        shown_rows(row_count, cursor_row, rest.height as int) as nat,
        |k: int|
            (
                (first + k) as usize,
                Area {
                    x: rest.x,
                    y: (rest.y + k * ROW_HEIGHT) as u16,
                    width: rest.width,
                    height: ROW_HEIGHT,
                },
            ),
    )
}

/// Which carousels are on display below the welcome strip, and where. The list
/// scrolls so the focused row stays visible.
pub fn visible_rows(row_count: usize, cursor_row: usize, rest: Area) -> (rows: Vec<(usize, Area)>)
    requires
        cursor_row < usize::MAX,
        rest.y + rest.height <= u16::MAX,
    ensures
        rows@ == row_areas(row_count as int, cursor_row as int, rest),
{
    let room: usize = (rest.height / ROW_HEIGHT) as usize;
    let per_view: usize = if room > 1 {
        room
    } else {
        1
    };
    let first: usize = if cursor_row + 1 > per_view {
        cursor_row + 1 - per_view
    } else {
        0
    };
    let left: usize = if first < row_count {
        row_count - first
    } else {
        0
    };
    let count: usize = if left < room {
        left
    } else {
        room
    };
    let ghost goal = row_areas(row_count as int, cursor_row as int, rest);
    assert(first == first_row(cursor_row as int, rest.height as int));
    assert(count == shown_rows(row_count as int, cursor_row as int, rest.height as int));
    let mut rows: Vec<(usize, Area)> = Vec::new();
    let mut k: usize = 0;
    while k < count
        invariant
            k <= count,
            count <= room,
            count <= left,
            left == if first < row_count {
                row_count - first
            } else {
                0
            },
            room == rest.height / ROW_HEIGHT,
            rest.y + rest.height <= u16::MAX,
            first == first_row(cursor_row as int, rest.height as int),
            count == shown_rows(row_count as int, cursor_row as int, rest.height as int),
            goal == row_areas(row_count as int, cursor_row as int, rest),
            rows@ =~= goal.take(k as int),
        decreases count - k,
    {
        assert(k < rest.height / ROW_HEIGHT);
        assert(k * ROW_HEIGHT + ROW_HEIGHT <= rest.height) by (nonlinear_arith)
            requires
                k < rest.height / ROW_HEIGHT,
                ROW_HEIGHT == 10,
        ;
        let y: u16 = rest.y + k as u16 * ROW_HEIGHT;
        rows.push((first + k, Area { x: rest.x, y, width: rest.width, height: ROW_HEIGHT }));
        k = k + 1;
    }
    proof {
        sequences::lemma_take_all(goal);
    }
    rows
}

/// A carousel's heading.
pub open spec fn row_header_of(row: HomeRowModel, focused: bool) -> Seq<SpanModel> {
    seq![
        lines::styled(
            Tone::AccentBold,
            if focused {
                "▶ "@
            } else {
                "▎ "@
            },
        ),
        lines::styled(Tone::Header, row.title),
        lines::styled(Tone::Dim, "   ("@ + text::decimal(row.items.len()) + ")"@),
    ]
}

/// A carousel's heading: a left accent bar + the row title + tile count.
pub fn row_header(row: &HomeRow, focused: bool) -> (spans: Vec<Span>)
    ensures
        spans.deep_view() == row_header_of(row@, focused),
{
    let chevron = if focused {
        "▶ "
    } else {
        "▎ "
    };
    let count = concat3("   (", decimal_text(row.items.len() as u64).as_str(), ")");
    let mut spans: Vec<Span> = Vec::new();
    push_deep(&mut spans, span(Tone::AccentBold, chevron));
    push_deep(&mut spans, span(Tone::Header, row.title.as_str()));
    push_deep(&mut spans, span(Tone::Dim, count.as_str()));
    assert(spans.deep_view() =~= row_header_of(row@, focused));
    spans
}

/// The part of a carousel that holds the tiles.
pub open spec fn band_of(area: Area) -> Area {
    Area {
        x: (area.x + 2) as u16,
        y: (area.y + 1) as u16,
        width: if area.width > 4 {
            (area.width - 4) as u16
        } else {
            0
        },
        height: if area.height > 2 {
            (area.height - 2) as u16
        } else {
            0
        },
    }
}

/// The part of a carousel that holds the tiles: one line below the heading.
pub fn tile_band(area: Area) -> (band: Area)
    requires
        area.x + 2 <= u16::MAX,
        area.y < u16::MAX,
    ensures
        band == band_of(area),
{
    Area {
        x: area.x + 2,
        y: area.y + 1,
        width: if area.width > 4 {
            area.width - 4
        } else {
            0
        },
        height: if area.height > 2 {
            area.height - 2
        } else {
            0
        },
    }
}

/// How many tiles a band has room for; at least one is counted.
pub open spec fn tiles_per_band(width: int) -> int {
    let room = (width + TILE_GAP) / TILE_STRIDE as int;
    if room > 1 {
        room
    } else {
        1
    }
}

/// The first tile on display: the focused one stays visible.
pub open spec fn first_tile(total: int, cursor_col: Option<usize>, width: int) -> int {
    match cursor_col {
        Some(col) => {
            let focused = if total == 0 {
                0
            } else if col < total {
                col as int
            } else {
                total - 1
            };
            if focused + 1 > tiles_per_band(width) {
                focused + 1 - tiles_per_band(width)
            } else {
                0
            }
        },
        None => 0,
    }
}

/// How many tiles are on display: as many as fit whole.
pub open spec fn shown_tiles(total: int, cursor_col: Option<usize>, width: int) -> int {
    let left = total - first_tile(total, cursor_col, width);
    let room = (width + TILE_GAP) / TILE_STRIDE as int;
    if left < room {
        left
    } else {
        room
    }
}

/// The tiles on display, each with its place on screen.
pub open spec fn tile_areas(total: int, cursor_col: Option<usize>, band: Area) -> Seq<
    (usize, Area),
> {
    let first = first_tile(total, cursor_col, band.width as int);
    Seq::new(
        shown_tiles(total, cursor_col, band.width as int) as nat,
        |k: int|
            (
                (first + k) as usize,
                Area {
                    x: (band.x + k * TILE_STRIDE) as u16,
                    y: band.y,
                    width: TILE_WIDTH,
                    height: if band.height < TILE_HEIGHT {
                        band.height
                    } else {
                        TILE_HEIGHT
                    },
                },
            ),
    )
}

fn tiles_room(width: u16) -> (room: u16)
    requires
        width <= u16::MAX - TILE_GAP,
    ensures
        room == (width + TILE_GAP) / TILE_STRIDE as int,
{
    (width + TILE_GAP) / TILE_STRIDE
}

fn first_tile_at(total: usize, cursor_col: Option<usize>, width: u16) -> (first: usize)
    requires
        width <= u16::MAX - TILE_GAP,
    ensures
        first == first_tile(total as int, cursor_col, width as int),
        total > 0 ==> first < total,
        total == 0 ==> first == 0,
{
    let room: usize = tiles_room(width) as usize;
    let most: usize = if room > 1 {
        room
    } else {
        1
    };
    match cursor_col {
        Some(col) => {
            let focused: usize = if total == 0 {
                0
            } else if col < total {
                col
            } else {
                total - 1
            };
            if focused >= most {
                focused - most + 1
            } else {
                0
            }
        },
        None => 0,
    }
}

/// Which tiles of a carousel are on display, and where. The carousel scrolls so the
/// focused tile stays visible.
pub fn visible_tiles(total: usize, cursor_col: Option<usize>, band: Area) -> (tiles: Vec<
    (usize, Area),
>)
    requires
        band.width <= u16::MAX - TILE_GAP,
        band.x + band.width <= u16::MAX,
    ensures
        tiles@ == tile_areas(total as int, cursor_col, band),
{
    let room: usize = tiles_room(band.width) as usize;
    let first: usize = first_tile_at(total, cursor_col, band.width);
    let count: usize = if total - first < room {
        total - first
    } else {
        room
    };
    let height: u16 = if band.height < TILE_HEIGHT {
        band.height
    } else {
        TILE_HEIGHT
    };
    let ghost goal = tile_areas(total as int, cursor_col, band);
    assert(count == shown_tiles(total as int, cursor_col, band.width as int));
    let mut tiles: Vec<(usize, Area)> = Vec::new();
    let mut k: usize = 0;
    while k < count
        invariant
            k <= count,
            count <= room,
            first + count <= total,
            room == (band.width + TILE_GAP) / TILE_STRIDE as int,
            band.x + band.width <= u16::MAX,
            height == (if band.height < TILE_HEIGHT {
                band.height
            } else {
                TILE_HEIGHT
            }),
            first == first_tile(total as int, cursor_col, band.width as int),
            count == shown_tiles(total as int, cursor_col, band.width as int),
            goal == tile_areas(total as int, cursor_col, band),
            tiles@ =~= goal.take(k as int),
        decreases count - k,
    {
        assert(k * TILE_STRIDE + TILE_WIDTH <= band.width) by (nonlinear_arith)
            requires
                k < (band.width + TILE_GAP) / TILE_STRIDE as int,
                TILE_STRIDE == 20,
                TILE_GAP == 2,
                TILE_WIDTH == 18,
        ;
        let x: u16 = band.x + k as u16 * TILE_STRIDE;
        tiles.push((first + k, Area { x, y: band.y, width: TILE_WIDTH, height }));
        k = k + 1;
    }
    proof {
        sequences::lemma_take_all(goal);
    }
    tiles
}

/// Where the sign stands that there are more tiles to the right, if there are.
pub open spec fn more_sign_of(total: int, cursor_col: Option<usize>, band: Area) -> Option<Area> {
    let width = band.width as int;
    if total > first_tile(total, cursor_col, width) + tiles_per_band(width) {
        Some(
            Area {
                x: (band.x + (if width > 2 {
                    width - 2
                } else {
                    0
                })) as u16,
                y: (band.y + TILE_HEIGHT / 2) as u16,
                width: 2,
                height: 1,
            },
        )
    } else {
        None
    }
}

/// Where the carousel indicator stands on the right if more tiles overflow.
pub fn more_sign(total: usize, cursor_col: Option<usize>, band: Area) -> (sign: Option<Area>)
    requires
        band.width <= u16::MAX - TILE_GAP,
        band.x + band.width <= u16::MAX,
        band.y + TILE_HEIGHT / 2 <= u16::MAX,
    ensures
        sign == more_sign_of(total as int, cursor_col, band),
{
    let room: usize = tiles_room(band.width) as usize;
    let most: usize = if room > 1 {
        room
    } else {
        1
    };
    let first: usize = first_tile_at(total, cursor_col, band.width);
    if total - first > most {
        let inset: u16 = if band.width > 2 {
            band.width - 2
        } else {
            0
        };
        Some(Area { x: band.x + inset, y: band.y + TILE_HEIGHT / 2, width: 2, height: 1 })
    } else {
        None
    }
}

// ---------------------------------------------------------------------------
// Tiles

/// The glyph of a tile.
pub open spec fn tile_glyph(kind: HomeRowKind, item_kind: Option<Seq<char>>) -> Seq<char> {
    match kind {
        HomeRowKind::Libraries => if item_kind == Some("movies"@) {
            "▣"@
        } else if item_kind == Some("tvshows"@) {
            "◫"@
        } else if item_kind == Some("music"@) {
            "♪"@
        } else if item_kind == Some("books"@) {
            "▤"@
        } else if item_kind == Some("photos"@) {
            "▦"@
        } else {
            "▣"@
        },
        HomeRowKind::Resume => "▶"@,
        HomeRowKind::NextUp => "»"@,
        HomeRowKind::Recent => if item_kind == Some("Movie"@) {
            "▣"@
        } else if item_kind == Some("Series"@) || item_kind == Some("Episode"@) {
            "◫"@
        } else if item_kind == Some("MusicAlbum"@) || item_kind == Some("Audio"@) || item_kind
            == Some("MusicArtist"@) {
            "♪"@
        } else if item_kind == Some("Book"@) {
            "▤"@
        } else if item_kind == Some("Photo"@) || item_kind == Some("PhotoAlbum"@) {
            "▦"@
        } else {
            "▢"@
        },
    }
}

/// The glyph of a tile.
pub fn glyph_for(kind: HomeRowKind, item_kind: Option<&str>) -> (glyph: &'static str)
    ensures
        glyph@ == tile_glyph(kind, item_kind.deep_view()),
{
    match kind {
        HomeRowKind::Libraries => if is_text(item_kind, "movies") {
            "▣"
        } else if is_text(item_kind, "tvshows") {
            "◫"
        } else if is_text(item_kind, "music") {
            "♪"
        } else if is_text(item_kind, "books") {
            "▤"
        } else if is_text(item_kind, "photos") {
            "▦"
        } else {
            "▣"
        },
        HomeRowKind::Resume => "▶",
        HomeRowKind::NextUp => "»",
        HomeRowKind::Recent => if is_text(item_kind, "Movie") {
            "▣"
        } else if is_text(item_kind, "Series") || is_text(item_kind, "Episode") {
            "◫"
        } else if is_text(item_kind, "MusicAlbum") || is_text(item_kind, "Audio") || is_text(
            item_kind,
            "MusicArtist",
        ) {
            "♪"
        } else if is_text(item_kind, "Book") {
            "▤"
        } else if is_text(item_kind, "Photo") || is_text(item_kind, "PhotoAlbum") {
            "▦"
        } else {
            "▢"
        },
    }
}

/// The first character of every word.
pub open spec fn word_initials(s: Seq<char>) -> Seq<char>
    decreases s.len(),
{
    if s.len() == 0 {
        Seq::empty()
    } else {
        let before = s.drop_last();
        if !text::is_white_space(s.last()) && (before.len() == 0 || text::is_white_space(
            before.last(),
        )) {
            word_initials(before).push(s.last())
        } else {
            word_initials(before)
        }
    }
}

/// The initials before they are put into upper case.
pub open spec fn raw_initials(name: Seq<char>) -> Seq<char> {
    let initials = word_initials(name);
    if initials.len() == 0 {
        seq!['•']
    } else if initials.len() == 1 {
        seq![initials[0]]
    } else {
        seq![initials[0], initials[1]]
    }
}

fn initials_of(name: &str) -> (initials: Vec<char>)
    ensures
        initials@ == word_initials(name@),
{
    let chars = chars_of(name);
    let mut initials: Vec<char> = Vec::new();
    assert(chars@.take(0) =~= Seq::empty());
    let mut i: usize = 0;
    while i < chars.len()
        invariant
            i <= chars@.len(),
            initials@ == word_initials(chars@.take(i as int)),
        decreases chars@.len() - i,
    {
        proof {
            sequences::lemma_take_push(chars@, i as int);
            assert(chars@.take(i + 1).drop_last() =~= chars@.take(i as int));
        }
        if !white_space(chars[i]) && (i == 0 || white_space(chars[i - 1])) {
            initials.push(chars[i]);
        }
        i = i + 1;
    }
    proof {
        sequences::lemma_take_all(chars@);
    }
    initials
}

/// The upper-case initials of the first two words; a bullet for a nameless item.
pub fn initials_for(name: &str) -> (initials: String)
    ensures
        initials@ == text::uppercase(raw_initials(name@)),
{
    let initials = initials_of(name);
    let mut raw = String::new();
    if initials.len() == 0 {
        raw.push('•');
    } else {
        raw.push(initials[0]);
        if initials.len() > 1 {
            raw.push(initials[1]);
        }
    }
    assert(raw@ =~= raw_initials(name@));
    raw.as_str().to_uppercase()
}

/// A number that may be missing.
pub open spec fn year_text(year: Option<i32>) -> Seq<char> {
    match year {
        Some(known) => text::signed_decimal(known as int),
        None => ""@,
    }
}

fn year_label(year: Option<i32>) -> (label: String)
    ensures
        label@ == year_text(year),
{
    match year {
        Some(known) => signed_decimal_text(known as i64),
        None => "".to_owned(),
    }
}

/// A tile's second line.
pub open spec fn subtitle_of(kind: HomeRowKind, item: ItemModel) -> Seq<char> {
    match kind {
        HomeRowKind::Libraries => if item.kind matches Some(other) && other.len() > 0 {
            text::lowercase(item.kind->0)
        } else {
            "library"@
        },
        HomeRowKind::Resume => match durations::duration_text(item.run_time_ticks) {
            Some(left) => left,
            None => ""@,
        },
        HomeRowKind::NextUp => year_text(item.production_year),
        HomeRowKind::Recent => if item.production_year is Some {
            year_text(item.production_year)
        } else {
            match item.kind {
                Some(known) => known,
                None => ""@,
            }
        },
    }
}

/// A tile's second line: year, runtime, or kind.
pub fn subtitle_for(kind: HomeRowKind, item: &Item) -> (subtitle: String)
    ensures
        subtitle@ == subtitle_of(kind, item@),
{
    match kind {
        HomeRowKind::Libraries => {
            if let Some(other) = &item.kind {
                if !other.as_str().is_empty() {
                    return other.as_str().to_lowercase();
                }
            }
            "library".to_owned()
        },
        HomeRowKind::Resume => match format_duration(item.run_time_ticks) {
            Some(left) => left,
            None => "".to_owned(),
        },
        HomeRowKind::NextUp => year_label(item.production_year),
        HomeRowKind::Recent => if item.production_year.is_some() {
            year_label(item.production_year)
        } else {
            match &item.kind {
                Some(known) => known.clone(),
                None => "".to_owned(),
            }
        },
    }
}

/// A text cut to `max` characters, the last of which says so.
pub open spec fn clipped(s: Seq<char>, max: int) -> Seq<char> {
    if max <= 0 {
        Seq::empty()
    } else if s.len() <= max {
        s
    } else {
        s.take(max - 1).push('…')
    }
}

/// Cut a text to `max` characters, with an ellipsis where something is missing.
pub fn clip(s: &str, max: usize) -> (cut: String)
    ensures
        cut@ == clipped(s@, max as int),
{
    if max == 0 {
        let cut = String::new();
        assert(cut@ =~= Seq::empty());
        return cut;
    }
    let chars = chars_of(s);
    if chars.len() <= max {
        return s.to_owned();
    }
    let mut cut = String::new();
    assert(cut@ =~= chars@.take(0));
    let mut i: usize = 0;
    while i < max - 1
        invariant
            i <= max - 1,
            0 < max < chars@.len(),
            cut@ == chars@.take(i as int),
        decreases max - 1 - i,
    {
        cut.push(chars[i]);
        proof {
            sequences::lemma_take_push(chars@, i as int);
        }
        i = i + 1;
    }
    cut.push('…');
    cut
}

/// What stands below a tile's title.
pub open spec fn extra_of(kind: HomeRowKind, item: ItemModel, width: int) -> Seq<char> {
    match kind {
        HomeRowKind::Resume => match durations::duration_text(item.run_time_ticks) {
            Some(left) => "⏱  "@ + left,
            None => ""@,
        },
        HomeRowKind::NextUp => match item.overview {
            Some(words) => clipped(words, width),
            None => ""@,
        },
        HomeRowKind::Libraries | HomeRowKind::Recent => year_text(item.production_year),
    }
}

/// What stands below a tile's title.
pub fn extra_for(kind: HomeRowKind, item: &Item, width: u16) -> (extra: String)
    ensures
        extra@ == extra_of(kind, item@, width as int),
{
    match kind {
        HomeRowKind::Resume => match format_duration(item.run_time_ticks) {
            Some(left) => concat2("⏱  ", left.as_str()),
            None => "".to_owned(),
        },
        HomeRowKind::NextUp => match &item.overview {
            Some(words) => clip(words.as_str(), width as usize),
            None => "".to_owned(),
        },
        HomeRowKind::Libraries => year_label(item.production_year),
        HomeRowKind::Recent => year_label(item.production_year),
    }
}

/// How a tile's border is drawn.
#[derive(Debug, Clone, Copy, PartialEq, Eq, Structural)]
pub enum TileBorder {
    /// The focused tile of the focused row.
    Focused,
    /// The focused tile of another row.
    Bold,
    /// Any other tile.
    Unfocused,
}

/// How a tile's border is drawn.
pub open spec fn border_of(focused_tile: bool, row_focused: bool) -> TileBorder {
    if focused_tile && row_focused {
        TileBorder::Focused
    } else if focused_tile {
        TileBorder::Bold
    } else {
        TileBorder::Unfocused
    }
}

/// How a tile's border is drawn.
pub fn tile_border(focused_tile: bool, row_focused: bool) -> (border: TileBorder)
    ensures
        border == border_of(focused_tile, row_focused),
{
    if focused_tile && row_focused {
        TileBorder::Focused
    } else if focused_tile {
        TileBorder::Bold
    } else {
        TileBorder::Unfocused
    }
}

/// Everything a tile shows in and below its border. What does not fit is not drawn.
#[derive(Debug)]
pub struct Tile {
    /// Glyph and initials, on the first line inside the border.
    pub icon: Vec<Span>,
    /// Year, runtime or kind, on the second line inside the border.
    pub subtitle: Option<Vec<Span>>,
    /// The name, below the border.
    pub title: Vec<Span>,
    /// What stands below the name, if anything does.
    pub extra: Option<Vec<Span>>,
}

/// The contents of a [`Tile`].
#[verifier::ext_equal]
pub struct TileModel {
    pub icon: Seq<SpanModel>,
    pub subtitle: Option<Seq<SpanModel>>,
    pub title: Seq<SpanModel>,
    pub extra: Option<Seq<SpanModel>>,
}

impl View for Tile {
    type V = TileModel;

    open spec fn view(&self) -> TileModel {
        TileModel {
            icon: self.icon.deep_view(),
            subtitle: self.subtitle.deep_view(),
            title: self.title.deep_view(),
            extra: self.extra.deep_view(),
        }
    }
}

/// Whether a tile of the given size has room inside its border.
pub open spec fn has_inside(area: Area) -> bool {
    area.width >= 6 && area.height >= 3
}

/// Everything a tile with room inside shows.
pub open spec fn tile_of(
    kind: HomeRowKind,
    item: ItemModel,
    area: Area,
    focused_tile: bool,
    row_focused: bool,
) -> TileModel {
    TileModel {
        icon: seq![
            lines::styled(Tone::AccentBold, "  "@ + tile_glyph(kind, item.kind) + "  "@),
            lines::styled(Tone::Header, text::uppercase(raw_initials(item.name))),
        ],
        subtitle: if area.height >= 4 {
            Some(lines::line_of(Tone::Muted, subtitle_of(kind, item)))
        } else {
            None
        },
        title: lines::line_of(
            if focused_tile && row_focused {
                Tone::AccentBold
            } else {
                Tone::ListItem
            },
            clipped(item.name, area.width as int),
        ),
        extra: if extra_of(kind, item, area.width as int).len() > 0 {
            Some(lines::line_of(Tone::Muted, extra_of(kind, item, area.width as int)))
        } else {
            None
        },
    }
}

/// Everything a tile of the given size shows; only a border where there is no room
/// inside it.
pub fn tile(
    kind: HomeRowKind,
    item: &Item,
    area: Area,
    focused_tile: bool,
    row_focused: bool,
) -> (tile: Option<Tile>)
    ensures
        tile is Some <==> has_inside(area),
        tile matches Some(shown) ==> shown@ == tile_of(kind, item@, area, focused_tile, row_focused),
{
    if area.width < 6 || area.height < 3 {
        return None;
    }
    let glyph = glyph_for(kind, as_slice(&item.kind));
    let mut icon: Vec<Span> = Vec::new();
    push_deep(&mut icon, span(Tone::AccentBold, concat3("  ", glyph, "  ").as_str()));
    push_deep(&mut icon, span(Tone::Header, initials_for(item.name.as_str()).as_str()));
    assert(icon.deep_view() =~= seq![
        lines::styled(Tone::AccentBold, "  "@ + tile_glyph(kind, item@.kind) + "  "@),
        lines::styled(Tone::Header, text::uppercase(raw_initials(item@.name))),
    ]);
    let subtitle = if area.height >= 4 {
        Some(line(Tone::Muted, subtitle_for(kind, item).as_str()))
    } else {
        None
    };
    let title_tone = if focused_tile && row_focused {
        Tone::AccentBold
    } else {
        Tone::ListItem
    };
    let title = line(title_tone, clip(item.name.as_str(), area.width as usize).as_str());
    let extra_text = extra_for(kind, item, area.width);
    let extra = if extra_text.as_str().is_empty() {
        None
    } else {
        Some(line(Tone::Muted, extra_text.as_str()))
    };
    Some(Tile { icon, subtitle, title, extra })
}

/// The focused carousel is on display, as soon as one fits.
pub proof fn the_focused_row_is_in_view(row_count: int, cursor_row: int, height: int)
    requires
        0 <= cursor_row < row_count,
        height >= ROW_HEIGHT,
    ensures
        first_row(cursor_row, height) <= cursor_row < first_row(cursor_row, height) + shown_rows(
            row_count,
            cursor_row,
            height,
        ),
{
}

/// The focused tile is on display, as soon as one fits.
pub proof fn the_focused_tile_is_in_view(total: int, cursor_col: usize, width: int)
    requires
        cursor_col < total,
        width >= TILE_WIDTH,
    ensures
        first_tile(total, Some(cursor_col), width) <= cursor_col < first_tile(
            total,
            Some(cursor_col),
            width,
        ) + shown_tiles(total, Some(cursor_col), width),
{
}

/// A clipped text never exceeds its width, and is the text itself where that fits.
pub proof fn clipped_text_fits(s: Seq<char>, max: int)
    requires
        max >= 0,
    ensures
        clipped(s, max).len() <= max,
        s.len() <= max ==> clipped(s, max) == s,
{
    if s.len() == 0 && max == 0 {
        assert(clipped(s, max) =~= s);
    }
}

} // verus!
