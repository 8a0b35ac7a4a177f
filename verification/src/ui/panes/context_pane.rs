//! Right column context panes. Their content depends on the active library
//! kind:
//!
//! - **music**: top = lyrics or info, bottom = play queue
//! - **movies**: top = cast, bottom = credits (crew + genres)
//! - **tv**: top = episodes, bottom = seasons
//! - **other**: empty placeholders
//!
//! Cast and lyrics come from the fetched detail, so they only populate once the
//! user lingers on an item.

use ratatui::text::{Line as TextLine, Span as TextSpan};
use ratatui::widgets::{Paragraph, Wrap};
use vstd::prelude::*;

use crate::sequences;
use crate::sequences::push_deep;
use crate::text;
use crate::text::{
    as_slice, concat2, concat3, concat4, is_text, join_texts, signed_decimal_text,
};
use crate::time::Duration;
use crate::ui::app::types::{
    ContextTopView, Item, ItemDetail, ItemDetailModel, ItemModel, LyricLine, LyricLineModel,
    NowPlaying, NowPlayingModel, Person, PersonModel, RepeatMode,
};
use crate::ui::durations;
use crate::ui::durations::format_runtime;
use crate::ui::lines;
use crate::ui::lines::{add_line, one_line, Span, SpanModel, Tone};

verus! {

/// A titled pane of text lines.
#[derive(Debug)]
pub struct TextPane {
    pub title: String,
    pub lines: Vec<Vec<Span>>,
    /// Rows that the text is scrolled by, before it is clamped to its length.
    pub scroll: u16,
}

/// The contents of a [`TextPane`].
#[verifier::ext_equal]
pub struct TextPaneModel {
    pub title: Seq<char>,
    pub lines: Seq<Seq<SpanModel>>,
    pub scroll: u16,
}

impl View for TextPane {
    type V = TextPaneModel;

    open spec fn view(&self) -> TextPaneModel {
        TextPaneModel {
            title: self.title@,
            lines: self.lines.deep_view(),
            scroll: self.scroll,
        }
    }
}

/// An empty line.
pub open spec fn blank() -> Seq<SpanModel> {
    lines::line_of(Tone::Plain, ""@)
}

// ---------------------------------------------------------------------------
// Info

/// What is known of an item in one line: kind, year, runtime.
pub open spec fn meta_parts(item: ItemModel) -> Seq<Seq<char>> {
    (match item.kind {
        Some(kind) => seq![kind],
        None => Seq::empty(),
    }) + (match item.production_year {
        Some(year) => seq![text::signed_decimal(year as int)],
        None => Seq::empty(),
    }) + (match item.run_time_ticks {
        Some(ticks) => match durations::runtime_text(ticks) {
            Some(runtime) => seq![runtime],
            None => Seq::empty(),
        },
        None => Seq::empty(),
    })
}

/// The description on display: the fetched one, or the item's own.
pub open spec fn description(item: ItemModel, detail: Option<ItemDetailModel>) -> Option<Seq<char>> {
    let fetched = match detail {
        Some(known) => known.overview,
        None => None,
    };
    let chosen = if fetched is Some {
        fetched
    } else {
        item.overview
    };
    match chosen {
        Some(words) => if words.len() > 0 {
            Some(words)
        } else {
            None
        },
        None => None,
    }
}

/// The description's line.
pub open spec fn description_line(
    item: ItemModel,
    detail: Option<ItemDetailModel>,
) -> Seq<SpanModel> {
    match description(item, detail) {
        Some(words) => lines::line_of(Tone::Plain, words),
        None => match detail {
            Some(_) => lines::line_of(Tone::Muted, "No description."@),
            None => lines::line_of(Tone::Muted, "Loading…"@),
        },
    }
}

/// An item of a section, with its heart.
pub open spec fn section_row(item: ItemModel) -> Seq<SpanModel> {
    lines::line_of(
        Tone::Plain,
        (if item.is_favorite {
            "♥ "@
        } else {
            "  "@
        }) + item.name,
    )
}

/// A titled list of items; nothing at all without items.
pub open spec fn section_lines(title: Seq<char>, items: Seq<ItemModel>) -> Seq<Seq<SpanModel>> {
    if items.len() == 0 {
        Seq::empty()
    } else {
        seq![lines::line_of(Tone::Header, title)] + items.map_values(
            |item: ItemModel| section_row(item),
        ) + seq![blank()]
    }
}

/// What an item holds: an artist's albums, an album's tracks, a track's
/// neighbours.
pub open spec fn contents_lines(
    kind: Option<Seq<char>>,
    detail: ItemDetailModel,
) -> Seq<Seq<SpanModel>> {
    if kind == Some("MusicArtist"@) {
        section_lines("Albums"@, detail.artist_albums) + section_lines(
            "Appears on"@,
            detail.appears_on,
        )
    } else if kind == Some("MusicAlbum"@) {
        section_lines("Tracks"@, detail.children)
    } else if kind == Some("Audio"@) || kind == Some("AudioBook"@) {
        section_lines("Album tracks"@, detail.siblings)
    } else {
        Seq::empty()
    }
}

/// The genres in one line.
pub open spec fn genres_text(genres: Seq<Seq<char>>) -> Seq<char> {
    "Genres: "@ + text::joined(genres, ", "@)
}

/// The genres below the contents.
pub open spec fn genre_lines(genres: Seq<Seq<char>>) -> Seq<Seq<SpanModel>> {
    if genres.len() == 0 {
        Seq::empty()
    } else {
        seq![blank(), lines::line_of(Tone::Muted, genres_text(genres))]
    }
}

/// The info pane of an item.
pub open spec fn info_of(item: ItemModel, detail: Option<ItemDetailModel>) -> Seq<Seq<SpanModel>> {
    let meta = meta_parts(item);
    seq![lines::line_of(Tone::Header, item.name)] + lines::line_if(
        meta.len() > 0,
        Tone::Muted,
        text::joined(meta, "  ·  "@),
    ) + seq![blank()] + seq![description_line(item, detail)] + seq![blank()] + (match detail {
        Some(known) => contents_lines(item.kind, known) + genre_lines(known.genres),
        None => Seq::empty(),
    })
}

/// The info pane.
pub open spec fn info_lines_of(
    item: Option<ItemModel>,
    detail: Option<ItemDetailModel>,
) -> Seq<Seq<SpanModel>> {
    match item {
        Some(shown) => info_of(shown, detail),
        None => seq![lines::line_of(Tone::Muted, "Select an item."@)],
    }
}

fn add_all(lines: &mut Vec<Vec<Span>>, tone: Tone, text: &str)
    ensures
        final(lines).deep_view() == old(lines).deep_view() + seq![lines::line_of(tone, text@)],
{
    add_line(lines, tone, text);
    assert(lines.deep_view() =~= old(lines).deep_view() + seq![lines::line_of(tone, text@)]);
}

fn meta_of(item: &Item) -> (parts: Vec<String>)
    ensures
        parts.deep_view() == meta_parts(item@),
{
    let mut parts: Vec<String> = Vec::new();
    if let Some(kind) = &item.kind {
        push_deep(&mut parts, kind.clone());
    }
    if let Some(year) = item.production_year {
        push_deep(&mut parts, signed_decimal_text(year as i64));
    }
    if let Some(ticks) = item.run_time_ticks {
        if let Some(runtime) = format_runtime(ticks) {
            push_deep(&mut parts, runtime);
        }
    }
    assert(parts.deep_view() =~= meta_parts(item@));
    parts
}

fn description_of<'a>(item: &'a Item, detail: Option<&'a ItemDetail>) -> (words: Option<&'a str>)
    ensures
        words.deep_view() == description(item@, detail.deep_view()),
{
    let fetched = match detail {
        Some(known) => as_slice(&known.overview),
        None => None,
    };
    let chosen = if fetched.is_some() {
        fetched
    } else {
        as_slice(&item.overview)
    };
    match chosen {
        Some(words) => if words.is_empty() {
            None
        } else {
            Some(words)
        },
        None => None,
    }
}

/// Append a titled list of items with a ♥ marker for favorites. Skips the
/// section entirely when there's nothing to show.
fn push_section(lines: &mut Vec<Vec<Span>>, title: &str, items: &Vec<Item>)
    ensures
        final(lines).deep_view() == old(lines).deep_view() + section_lines(
            title@,
            items.deep_view(),
        ),
{
    if items.len() == 0 {
        assert(lines.deep_view() =~= old(lines).deep_view() + section_lines(
            title@,
            items.deep_view(),
        ));
        return;
    }
    let ghost rows = items.deep_view().map_values(|item: ItemModel| section_row(item));
    add_line(lines, Tone::Header, title);
    let ghost before = lines.deep_view();
    let mut i: usize = 0;
    while i < items.len()
        invariant
            i <= items@.len(),
            rows == items.deep_view().map_values(|item: ItemModel| section_row(item)),
            lines.deep_view() =~= before + rows.take(i as int),
        decreases items@.len() - i,
    {
        let marker = if items[i].is_favorite {
            "♥ "
        } else {
            "  "
        };
        add_line(lines, Tone::Plain, concat2(marker, items[i].name.as_str()).as_str());
        proof {
            sequences::lemma_take_push(rows, i as int);
        }
        i = i + 1;
    }
    proof {
        sequences::lemma_take_all(rows);
    }
    add_line(lines, Tone::Plain, "");
    assert(lines.deep_view() =~= old(lines).deep_view() + section_lines(
        title@,
        items.deep_view(),
    ));
}

fn push_contents(lines: &mut Vec<Vec<Span>>, kind: Option<&str>, detail: &ItemDetail)
    ensures
        final(lines).deep_view() == old(lines).deep_view() + contents_lines(
            kind.deep_view(),
            detail@,
        ),
{
    if is_text(kind, "MusicArtist") {
        push_section(lines, "Albums", &detail.artist_albums);
        push_section(lines, "Appears on", &detail.appears_on);
    } else if is_text(kind, "MusicAlbum") {
        push_section(lines, "Tracks", &detail.children);
    } else if is_text(kind, "Audio") || is_text(kind, "AudioBook") {
        push_section(lines, "Album tracks", &detail.siblings);
    }
    assert(lines.deep_view() =~= old(lines).deep_view() + contents_lines(
        kind.deep_view(),
        detail@,
    ));
}

fn push_genres(lines: &mut Vec<Vec<Span>>, genres: &Vec<String>)
    ensures
        final(lines).deep_view() == old(lines).deep_view() + genre_lines(genres.deep_view()),
{
    if genres.len() > 0 {
        add_line(lines, Tone::Plain, "");
        let text = concat2("Genres: ", join_texts(genres, ", ").as_str());
        add_line(lines, Tone::Muted, text.as_str());
    }
    assert(lines.deep_view() =~= old(lines).deep_view() + genre_lines(genres.deep_view()));
}

/// Music info pane: description + contents. For a MusicArtist the contents are the
/// artist's albums and "appears on"; for a MusicAlbum it's the track list; for an
/// Audio item the sibling tracks on the same album.
pub fn info_lines(item: Option<&Item>, detail: Option<&ItemDetail>) -> (lines: Vec<Vec<Span>>)
    ensures
        lines.deep_view() == info_lines_of(item.deep_view(), detail.deep_view()),
{
    let item = match item {
        Some(item) => item,
        None => {
            return one_line(Tone::Muted, "Select an item.");
        },
    };
    let mut lines = one_line(Tone::Header, item.name.as_str());
    let meta = meta_of(item);
    if meta.len() > 0 {
        add_all(&mut lines, Tone::Muted, join_texts(&meta, "  ·  ").as_str());
    }
    let ghost with_meta = lines.deep_view();
    assert(with_meta =~= seq![lines::line_of(Tone::Header, item@.name)] + lines::line_if(
        meta_parts(item@).len() > 0,
        Tone::Muted,
        text::joined(meta_parts(item@), "  ·  "@),
    ));
    add_all(&mut lines, Tone::Plain, "");
    match description_of(item, detail) {
        Some(words) => add_all(&mut lines, Tone::Plain, words),
        None => if detail.is_some() {
            add_all(&mut lines, Tone::Muted, "No description.");
        } else {
            add_all(&mut lines, Tone::Muted, "Loading…");
        },
    }
    add_all(&mut lines, Tone::Plain, "");
    if let Some(known) = detail {
        push_contents(&mut lines, as_slice(&item.kind), known);
        push_genres(&mut lines, &known.genres);
    }
    assert(lines.deep_view() =~= info_of(item@, detail.deep_view()));
    lines
}

/// Rows reserved for the cover on top of the info text.
pub open spec fn cover_rows(
    revealed: bool,
    has_art: bool,
    can_draw: bool,
    height: u16,
) -> Option<u16> {
    if revealed && has_art && can_draw && height >= 10 {
        let third = height / 3;
        Some(
            if third < 6 {
                6
            } else if third > 14 {
                14
            } else {
                third
            },
        )
    } else {
        None
    }
}

/// Reserve a slice of the pane for the cover when the item has art, the user has
/// revealed the item, and the terminal can draw images.
pub fn cover_height(revealed: bool, has_art: bool, can_draw: bool, height: u16) -> (rows: Option<
    u16,
>)
    ensures
        rows == cover_rows(revealed, has_art, can_draw, height),
        rows matches Some(n) ==> n < height,
{
    if revealed && has_art && can_draw && height >= 10 {
        let third: u16 = height / 3;
        Some(
            if third < 6 {
                6
            } else if third > 14 {
                14
            } else {
                third
            },
        )
    } else {
        None
    }
}

// ---------------------------------------------------------------------------
// Scrolling

/// The widest text that can be wrapped: wrapping adds up to four widths in 16 bits.
pub const WIDEST_WRAP: u16 = 16_383;

/// How many rows lines take when they are wrapped to a width.
pub uninterp spec fn wrapped_rows(lines: Seq<Seq<SpanModel>>, width: u16) -> usize;

/// `ratatui`'s `Paragraph::line_count` with `Wrap { trim: true }`: a function of the
/// lines' texts and the width. Where words break is left to it. It adds the widths of
/// a line, a gap, a word and a character, of which each is bounded by the width to
/// wrap to, in `u16`, so wider texts than [`WIDEST_WRAP`] are left out.
#[verifier::external_body]
fn count_wrapped_rows(lines: &Vec<Vec<Span>>, width: u16) -> (rows: usize)
    requires
        width <= WIDEST_WRAP,
    ensures
        rows == wrapped_rows(lines.deep_view(), width),
{
    let text: Vec<TextLine> = lines
        .iter()
        .map(|pieces| TextLine::from_iter(pieces.iter().map(|p| TextSpan::raw(p.text.as_str()))))
        .collect();
    Paragraph::new(text).wrap(Wrap { trim: true }).line_count(width)
}

/// Which part of a text is on display.
#[derive(Debug, Clone, Copy, PartialEq, Eq, Structural)]
pub struct ScrollView {
    /// Rows above the first one on display.
    pub offset: u16,
    /// Rows of the whole text.
    pub content_rows: u16,
    /// Whether a scrollbar is shown.
    pub bar: bool,
}

/// Which part of a text of `content_rows` rows is on display in `viewport` rows.
pub open spec fn view_of(content_rows: u16, viewport: u16, scroll: u16) -> ScrollView {
    let most = if content_rows > viewport {
        (content_rows - viewport) as u16
    } else {
        0
    };
    ScrollView {
        offset: if scroll < most {
            scroll
        } else {
            most
        },
        content_rows,
        bar: content_rows > viewport && viewport > 0,
    }
}

/// Which part of a text of `content_rows` rows is on display in `viewport` rows: no
/// further down than its end, with a scrollbar only when it overflows.
pub fn clamp_scroll(content_rows: u16, viewport: u16, scroll: u16) -> (view: ScrollView)
    ensures
        view == view_of(content_rows, viewport, scroll),
{
    let most: u16 = if content_rows > viewport {
        content_rows - viewport
    } else {
        0
    };
    ScrollView {
        offset: if scroll < most {
            scroll
        } else {
            most
        },
        content_rows,
        bar: content_rows > viewport && viewport > 0,
    }
}

/// The width that text is wrapped to: the rightmost column is the scrollbar's.
pub open spec fn wrap_width(width: u16) -> u16 {
    if width > 1 {
        (width - 1) as u16
    } else {
        1
    }
}

/// Which part of the lines is on display in an area of `width` by `height`.
pub fn scroll_view(lines: &Vec<Vec<Span>>, width: u16, height: u16, scroll: u16) -> (view: ScrollView)
    requires
        wrap_width(width) <= WIDEST_WRAP,
    ensures
        view == view_of(
            wrapped_rows(lines.deep_view(), wrap_width(width)) as u16,
            height,
            scroll,
        ),
{
    let wrap: u16 = if width > 1 {
        width - 1
    } else {
        1
    };
    let rows = count_wrapped_rows(lines, wrap);
    clamp_scroll(#[verifier::truncate] (rows as u16), height, scroll)
}

// ---------------------------------------------------------------------------
// Lyrics

/// A position in Jellyfin's ticks.
pub open spec fn position_ticks(position: Duration) -> i64 {
    (position.total_nanos() as int / 100) as i64
}

/// Whether line `i` starts no later than `ticks`.
pub open spec fn started(lyrics: Seq<LyricLineModel>, i: int, ticks: i64) -> bool {
    lyrics[i].start_ticks matches Some(start) && start <= ticks
}

/// Whether line `i` is the one being sung: of the lines that have started, the one
/// that started last, and the later one of two that started together.
pub open spec fn is_active(lyrics: Seq<LyricLineModel>, i: int, ticks: i64) -> bool {
    &&& 0 <= i < lyrics.len()
    &&& started(lyrics, i, ticks)
    &&& forall|j: int|
        0 <= j < lyrics.len() && #[trigger] started(lyrics, j, ticks) ==> {
            ||| lyrics[j].start_ticks->0 < lyrics[i].start_ticks->0
            ||| (lyrics[j].start_ticks->0 == lyrics[i].start_ticks->0 && j <= i)
        }
}

/// Whether `active` is the line being sung: none only while no line has started.
pub open spec fn is_sung(lyrics: Seq<LyricLineModel>, active: Option<usize>, ticks: i64) -> bool {
    match active {
        Some(i) => is_active(lyrics, i as int, ticks),
        None => forall|j: int| 0 <= j < lyrics.len() ==> !#[trigger] started(lyrics, j, ticks),
    }
}

/// Index of the lyric line whose `start_ticks` is the greatest value still
/// ≤ the current position. `None` when lyrics aren't synced or the position
/// precedes the first timestamped line.
pub fn active_lyric_index(lyrics: &Vec<LyricLine>, position: Duration) -> (active: Option<usize>)
    ensures
        is_sung(lyrics.deep_view(), active, position_ticks(position)),
{
    let nanos: u128 = position.as_nanos();
    let ticks: i64 = #[verifier::truncate] ((nanos / 100) as i64);
    let ghost models = lyrics.deep_view();
    let mut best: Option<usize> = None;
    let mut best_start: i64 = 0;
    let mut i: usize = 0;
    while i < lyrics.len()
        invariant
            i <= lyrics@.len(),
            models == lyrics.deep_view(),
            match best {
                Some(b) => b < i && started(models, b as int, ticks)
                    && models[b as int].start_ticks == Some(best_start) && forall|j: int|
                    0 <= j < i && #[trigger] started(models, j, ticks) ==> {
                        ||| models[j].start_ticks->0 < best_start
                        ||| (models[j].start_ticks->0 == best_start && j <= b)
                    },
                None => forall|j: int| 0 <= j < i ==> !#[trigger] started(models, j, ticks),
            },
        decreases lyrics@.len() - i,
    {
        assert(models[i as int] == lyrics@[i as int]@);
        if let Some(start) = lyrics[i].start_ticks {
            if start <= ticks && (best.is_none() || best_start <= start) {
                best = Some(i);
                best_start = start;
                assert(started(models, i as int, ticks));
            }
        }
        i = i + 1;
    }
    best
}

/// Where a text of `total` lines is scrolled to so that the active line sits near
/// the middle.
pub open spec fn centered_offset(active: Option<usize>, total: usize, viewport: usize) -> u16 {
    match active {
        Some(place) => if viewport == 0 || total <= viewport {
            0
        } else {
            let half = viewport / 2;
            let wanted = if place > half {
                place - half
            } else {
                0
            };
            let most = total - viewport;
            (if wanted < most {
                wanted
            } else {
                most
            }) as u16
        },
        None => 0,
    }
}

/// Pick a vertical scroll offset so the active line sits near the middle of the
/// pane. Clamps to the legal range so the last lines stay flush at the bottom.
pub fn scroll_offset(active: Option<usize>, total: usize, viewport: usize) -> (offset: u16)
    ensures
        offset == centered_offset(active, total, viewport),
{
    let place: usize = match active {
        Some(place) => place,
        None => {
            return 0;
        },
    };
    if viewport == 0 || total <= viewport {
        return 0;
    }
    let half: usize = viewport / 2;
    let wanted: usize = if place > half {
        place - half
    } else {
        0
    };
    let most: usize = total - viewport;
    let offset: usize = if wanted < most {
        wanted
    } else {
        most
    };
    #[verifier::truncate]
    (offset as u16)
}

/// The lines of the lyrics, the active one highlighted.
pub open spec fn lyric_rows(lyrics: Seq<LyricLineModel>, active: Option<usize>) -> Seq<
    Seq<SpanModel>,
> {
    Seq::new(
        lyrics.len(),
        |i: int|
            lines::line_of(
                if active matches Some(a) && a == i {
                    Tone::Header
                } else {
                    Tone::Plain
                },
                lyrics[i].text,
            ),
    )
}

/// The lyrics pane with the given line active.
pub open spec fn lyrics_lines_of(
    detail: Option<ItemDetailModel>,
    active: Option<usize>,
) -> Seq<Seq<SpanModel>> {
    match detail {
        Some(known) => match known.lyrics {
            Some(lyrics) => if lyrics.len() > 0 {
                lyric_rows(lyrics, active)
            } else {
                seq![lines::line_of(Tone::Plain, "No lyrics for this track."@)]
            },
            None => seq![
                lines::line_of(
                    Tone::Plain,
                    "No lyrics loaded. Press p → Show lyrics to fetch."@,
                ),
            ],
        },
        None => seq![
            lines::line_of(Tone::Plain, "No lyrics loaded. Press p → Show lyrics to fetch."@),
        ],
    }
}

/// Whether `active` is the line of the shown lyrics that is being sung.
pub open spec fn sung_line(
    detail: Option<ItemDetailModel>,
    position: Option<Duration>,
    active: Option<usize>,
) -> bool {
    match (detail, position) {
        (Some(known), Some(at)) => match known.lyrics {
            Some(lyrics) => is_sung(lyrics, active, position_ticks(at)),
            None => active is None,
        },
        _ => active is None,
    }
}

fn active_line(detail: Option<&ItemDetail>, position: Option<Duration>) -> (active: Option<usize>)
    ensures
        sung_line(detail.deep_view(), position, active),
{
    match (detail, position) {
        (Some(known), Some(at)) => match &known.lyrics {
            Some(lyrics) => active_lyric_index(lyrics, at),
            None => None,
        },
        _ => None,
    }
}

fn lyric_lines(lyrics: &Vec<LyricLine>, active: Option<usize>) -> (shown: Vec<Vec<Span>>)
    ensures
        shown.deep_view() == lyric_rows(lyrics.deep_view(), active),
{
    let ghost goal = lyric_rows(lyrics.deep_view(), active);
    let mut shown: Vec<Vec<Span>> = Vec::new();
    let mut i: usize = 0;
    while i < lyrics.len()
        invariant
            i <= lyrics@.len(),
            goal == lyric_rows(lyrics.deep_view(), active),
            shown.deep_view() =~= goal.take(i as int),
        decreases lyrics@.len() - i,
    {
        let sung = match active {
            Some(a) => a == i,
            None => false,
        };
        let tone = if sung {
            Tone::Header
        } else {
            Tone::Plain
        };
        add_line(&mut shown, tone, lyrics[i].text.as_str());
        proof {
            sequences::lemma_take_push(goal, i as int);
        }
        i = i + 1;
    }
    proof {
        sequences::lemma_take_all(goal);
    }
    shown
}

/// The lyrics pane, with the given line highlighted and kept near the middle.
pub fn lyrics_with(detail: Option<&ItemDetail>, active: Option<usize>, height: u16) -> (pane: TextPane)
    ensures
        pane@.title == " Lyrics "@,
        pane@.lines == lyrics_lines_of(detail.deep_view(), active),
        pane@.scroll == centered_offset(active, pane@.lines.len() as usize, height as usize),
{
    let lines = match detail {
        Some(known) => match &known.lyrics {
            Some(lyrics) => if lyrics.len() > 0 {
                lyric_lines(lyrics, active)
            } else {
                one_line(Tone::Plain, "No lyrics for this track.")
            },
            None => one_line(Tone::Plain, "No lyrics loaded. Press p → Show lyrics to fetch."),
        },
        None => one_line(Tone::Plain, "No lyrics loaded. Press p → Show lyrics to fetch."),
    };
    let scroll = scroll_offset(active, lines.len(), height as usize);
    assert(lines.deep_view().len() == lines@.len());
    TextPane { title: " Lyrics ".to_owned(), lines, scroll }
}

/// The lyrics pane at a playback position. When the lyrics are synced and the
/// position is known, the active line is highlighted and kept near the middle.
pub fn lyrics_pane(detail: Option<&ItemDetail>, position: Option<Duration>, height: u16) -> (pane:
    TextPane)
    ensures
        exists|active: Option<usize>|
            {
                &&& #[trigger] sung_line(detail.deep_view(), position, active)
                &&& pane@.title == " Lyrics "@
                &&& pane@.lines == lyrics_lines_of(detail.deep_view(), active)
                &&& pane@.scroll == centered_offset(
                    active,
                    pane@.lines.len() as usize,
                    height as usize,
                )
            },
{
    let active = active_line(detail, position);
    lyrics_with(detail, active, height)
}

// ---------------------------------------------------------------------------
// Cast, credits, episodes, seasons

/// Whether a person kind is cast.
pub open spec fn cast_kind(kind: Seq<char>) -> bool {
    kind == "Actor"@ || kind == "GuestStar"@
}

/// Whether a person kind is crew.
pub open spec fn crew_kind(kind: Seq<char>) -> bool {
    kind == "Director"@ || kind == "Writer"@ || kind == "Producer"@ || kind == "Composer"@
}

/// Whether a person kind is cast.
pub fn is_cast_kind(kind: &str) -> (cast: bool)
    ensures
        cast == cast_kind(kind@),
{
    is_text(Some(kind), "Actor") || is_text(Some(kind), "GuestStar")
}

/// Whether a person kind is crew.
pub fn is_crew_kind(kind: &str) -> (crew: bool)
    ensures
        crew == crew_kind(kind@),
{
    is_text(Some(kind), "Director") || is_text(Some(kind), "Writer") || is_text(
        Some(kind),
        "Producer",
    ) || is_text(Some(kind), "Composer")
}

/// Whether a person is listed as cast.
pub open spec fn in_cast() -> spec_fn(PersonModel) -> bool {
    |person: PersonModel|
        match person.kind {
            Some(kind) => cast_kind(kind),
            None => true,
        }
}

/// Whether a person is listed as crew.
pub open spec fn in_crew() -> spec_fn(PersonModel) -> bool {
    |person: PersonModel|
        match person.kind {
            Some(kind) => crew_kind(kind),
            None => false,
        }
}

/// A person with role or kind.
pub open spec fn person_text(person: PersonModel) -> Seq<char> {
    if person.role matches Some(role) && role.len() > 0 {
        person.name + "  —  "@ + person.role->0
    } else if person.kind matches Some(kind) && kind.len() > 0 {
        person.name + "  ("@ + person.kind->0 + ")"@
    } else {
        person.name
    }
}

/// A person's line.
pub open spec fn person_row(person: PersonModel) -> Seq<SpanModel> {
    lines::line_of(Tone::Plain, person_text(person))
}

/// The lines of those people that `listed` holds of.
pub open spec fn people_rows(
    people: Seq<PersonModel>,
    listed: spec_fn(PersonModel) -> bool,
) -> Seq<Seq<SpanModel>> {
    people.filter(listed).map_values(|person: PersonModel| person_row(person))
}

/// The cast pane.
pub open spec fn cast_lines_of(detail: Option<ItemDetailModel>) -> Seq<Seq<SpanModel>> {
    match detail {
        Some(known) => if known.cast.len() > 0 {
            people_rows(known.cast, in_cast())
        } else {
            seq![lines::line_of(Tone::Plain, "No cast listed."@)]
        },
        None => seq![lines::line_of(Tone::Plain, "Select an item to load cast."@)],
    }
}

/// What the credits pane would like to show.
pub open spec fn credits_of(detail: ItemDetailModel) -> Seq<Seq<SpanModel>> {
    (if detail.genres.len() > 0 {
        seq![lines::line_of(Tone::Plain, genres_text(detail.genres)), blank()]
    } else {
        Seq::empty()
    }) + people_rows(detail.cast, in_crew())
}

/// The credits pane.
pub open spec fn credits_lines_of(detail: Option<ItemDetailModel>) -> Seq<Seq<SpanModel>> {
    let nothing = seq![lines::line_of(Tone::Plain, "No credits loaded."@)];
    match detail {
        Some(known) => if credits_of(known).len() > 0 {
            credits_of(known)
        } else {
            nothing
        },
        None => nothing,
    }
}

fn person_label(person: &Person) -> (label: String)
    ensures
        label@ == person_text(person@),
{
    if let Some(role) = &person.role {
        if !role.as_str().is_empty() {
            return concat3(person.name.as_str(), "  —  ", role.as_str());
        }
    }
    if let Some(kind) = &person.kind {
        if !kind.as_str().is_empty() {
            return concat4(person.name.as_str(), "  (", kind.as_str(), ")");
        }
    }
    person.name.clone()
}

fn listed_in(person: &Person, crew: bool) -> (listed: bool)
    ensures
        listed == (if crew {
            in_crew()(person@)
        } else {
            in_cast()(person@)
        }),
{
    match &person.kind {
        Some(kind) => if crew {
            is_crew_kind(kind.as_str())
        } else {
            is_cast_kind(kind.as_str())
        },
        None => !crew,
    }
}

fn push_people(lines: &mut Vec<Vec<Span>>, people: &Vec<Person>, crew: bool)
    ensures
        final(lines).deep_view() == old(lines).deep_view() + people_rows(
            people.deep_view(),
            if crew {
                in_crew()
            } else {
                in_cast()
            },
        ),
{
    let ghost models = people.deep_view();
    let ghost listed = if crew {
        in_crew()
    } else {
        in_cast()
    };
    let ghost before = lines.deep_view();
    proof {
        sequences::lemma_filter_empty(listed);
        assert(models.take(0) =~= Seq::empty());
        assert(before =~= before + people_rows(models.take(0), listed));
    }
    let mut i: usize = 0;
    while i < people.len()
        invariant
            i <= people@.len(),
            models == people.deep_view(),
            listed == if crew {
                in_crew()
            } else {
                in_cast()
            },
            lines.deep_view() =~= before + people_rows(models.take(i as int), listed),
        decreases people@.len() - i,
    {
        proof {
            sequences::lemma_take_push(models, i as int);
            sequences::lemma_filter_push(models.take(i as int), models[i as int], listed);
            assert(people@[i as int]@ == models[i as int]);
        }
        if listed_in(&people[i], crew) {
            add_line(lines, Tone::Plain, person_label(&people[i]).as_str());
        }
        assert(lines.deep_view() =~= before + people_rows(models.take(i + 1), listed));
        i = i + 1;
    }
    proof {
        sequences::lemma_take_all(models);
    }
}

/// The cast pane's lines.
pub fn cast_lines(detail: Option<&ItemDetail>) -> (lines: Vec<Vec<Span>>)
    ensures
        lines.deep_view() == cast_lines_of(detail.deep_view()),
{
    match detail {
        Some(known) => if known.cast.len() > 0 {
            let mut lines: Vec<Vec<Span>> = Vec::new();
            push_people(&mut lines, &known.cast, false);
            assert(lines.deep_view() =~= people_rows(known@.cast, in_cast()));
            lines
        } else {
            one_line(Tone::Plain, "No cast listed.")
        },
        None => one_line(Tone::Plain, "Select an item to load cast."),
    }
}

/// The credits pane's lines: genres, then the crew.
pub fn credits_lines(detail: Option<&ItemDetail>) -> (lines: Vec<Vec<Span>>)
    ensures
        lines.deep_view() == credits_lines_of(detail.deep_view()),
{
    let mut lines: Vec<Vec<Span>> = Vec::new();
    if let Some(known) = detail {
        if known.genres.len() > 0 {
            let text = concat2("Genres: ", join_texts(&known.genres, ", ").as_str());
            add_line(&mut lines, Tone::Plain, text.as_str());
            add_line(&mut lines, Tone::Plain, "");
        }
        push_people(&mut lines, &known.cast, true);
        assert(lines.deep_view() =~= credits_of(known@));
    }
    assert(lines.deep_view().len() == lines@.len());
    if lines.len() == 0 {
        add_line(&mut lines, Tone::Plain, "No credits loaded.");
        assert(lines.deep_view() =~= seq![lines::line_of(Tone::Plain, "No credits loaded."@)]);
    }
    lines
}

/// Whether every item is a season.
pub open spec fn all_seasons(items: Seq<ItemModel>) -> bool {
    forall|i: int| 0 <= i < items.len() ==> (#[trigger] items[i]).kind == Some("Season"@)
}

/// The names of items, one per line; the fallback without items.
pub open spec fn name_lines(items: Seq<ItemModel>, fallback: Seq<char>) -> Seq<Seq<SpanModel>> {
    if items.len() == 0 {
        seq![lines::line_of(Tone::Plain, fallback)]
    } else {
        items.map_values(|item: ItemModel| lines::line_of(Tone::Plain, item.name))
    }
}

/// Title and lines of the tv library's top pane.
pub open spec fn tv_top_of(detail: Option<ItemDetailModel>) -> (Seq<char>, Seq<Seq<SpanModel>>) {
    match detail {
        None => (" Episodes "@, name_lines(Seq::empty(), "Select an item."@)),
        Some(known) => if known.children.len() > 0 {
            (
                if all_seasons(known.children) {
                    " Seasons "@
                } else {
                    " Episodes "@
                },
                name_lines(known.children, ""@),
            )
        } else if known.siblings.len() > 0 {
            (" Episodes "@, name_lines(known.siblings, ""@))
        } else {
            (" Episodes "@, name_lines(Seq::empty(), "No episodes loaded."@))
        },
    }
}

/// Title and lines of the tv library's bottom pane.
pub open spec fn tv_bottom_of(detail: Option<ItemDetailModel>) -> (Seq<char>, Seq<Seq<SpanModel>>) {
    match detail {
        None => (" Seasons "@, name_lines(Seq::empty(), ""@)),
        Some(known) => if known.siblings.len() > 0 {
            (
                if all_seasons(known.siblings) {
                    " Seasons "@
                } else {
                    " More "@
                },
                name_lines(known.siblings, ""@),
            )
        } else if known.genres.len() > 0 {
            (" More "@, name_lines(Seq::empty(), genres_text(known.genres)))
        } else {
            (" More "@, name_lines(Seq::empty(), ""@))
        },
    }
}

fn only_seasons(items: &Vec<Item>) -> (all: bool)
    ensures
        all == all_seasons(items.deep_view()),
{
    let ghost models = items.deep_view();
    let mut i: usize = 0;
    while i < items.len()
        invariant
            i <= items@.len(),
            models == items.deep_view(),
            forall|j: int| 0 <= j < i ==> (#[trigger] models[j]).kind == Some("Season"@),
        decreases items@.len() - i,
    {
        if !is_text(as_slice(&items[i].kind), "Season") {
            assert(models[i as int].kind != Some("Season"@));
            return false;
        }
        i = i + 1;
    }
    true
}

fn names_of(items: &Vec<Item>) -> (shown: Vec<Vec<Span>>)
    requires
        items@.len() > 0,
    ensures
        shown.deep_view() == name_lines(items.deep_view(), ""@),
{
    let ghost goal = items.deep_view().map_values(
        |item: ItemModel| lines::line_of(Tone::Plain, item.name),
    );
    let mut shown: Vec<Vec<Span>> = Vec::new();
    let mut i: usize = 0;
    while i < items.len()
        invariant
            i <= items@.len(),
            goal == items.deep_view().map_values(
                |item: ItemModel| lines::line_of(Tone::Plain, item.name),
            ),
            shown.deep_view() =~= goal.take(i as int),
        decreases items@.len() - i,
    {
        add_line(&mut shown, Tone::Plain, items[i].name.as_str());
        proof {
            sequences::lemma_take_push(goal, i as int);
        }
        i = i + 1;
    }
    proof {
        sequences::lemma_take_all(goal);
    }
    shown
}

/// TV context, top pane. For a Series this is the list of seasons; for a
/// Season the episodes; for an Episode the season-mates fetched as siblings.
pub fn pick_tv_top(detail: Option<&ItemDetail>) -> (picked: (&'static str, Vec<Vec<Span>>))
    ensures
        picked.0@ == tv_top_of(detail.deep_view()).0,
        picked.1.deep_view() == tv_top_of(detail.deep_view()).1,
{
    let known = match detail {
        Some(known) => known,
        None => {
            return (" Episodes ", one_line(Tone::Plain, "Select an item."));
        },
    };
    if known.children.len() > 0 {
        let title = if only_seasons(&known.children) {
            " Seasons "
        } else {
            " Episodes "
        };
        return (title, names_of(&known.children));
    }
    if known.siblings.len() > 0 {
        return (" Episodes ", names_of(&known.siblings));
    }
    (" Episodes ", one_line(Tone::Plain, "No episodes loaded."))
}

/// TV context, bottom pane. Crude pairing of "what's next to this": for an
/// Episode the other episodes of the same season; for a Season the other
/// seasons; for a Series the genres line.
pub fn pick_tv_bottom(detail: Option<&ItemDetail>) -> (picked: (&'static str, Vec<Vec<Span>>))
    ensures
        picked.0@ == tv_bottom_of(detail.deep_view()).0,
        picked.1.deep_view() == tv_bottom_of(detail.deep_view()).1,
{
    let known = match detail {
        Some(known) => known,
        None => {
            return (" Seasons ", one_line(Tone::Plain, ""));
        },
    };
    if known.siblings.len() > 0 {
        let title = if only_seasons(&known.siblings) {
            " Seasons "
        } else {
            " More "
        };
        return (title, names_of(&known.siblings));
    }
    if known.genres.len() > 0 {
        let genres = concat2("Genres: ", join_texts(&known.genres, ", ").as_str());
        return (" More ", one_line(Tone::Plain, genres.as_str()));
    }
    (" More ", one_line(Tone::Plain, ""))
}

// ---------------------------------------------------------------------------
// Queue

/// The queue modes that are on.
pub open spec fn queue_flags(repeat_mode: RepeatMode, shuffle: bool) -> Seq<Seq<char>> {
    (if shuffle {
        seq!["Shuffle"@]
    } else {
        Seq::empty()
    }) + (match repeat_mode {
        RepeatMode::All => seq!["Repeat all"@],
        RepeatMode::One => seq!["Repeat one"@],
        RepeatMode::Off => Seq::empty(),
    })
}

/// The queue pane's title.
pub open spec fn queue_title_of(repeat_mode: RepeatMode, shuffle: bool) -> Seq<char> {
    let flags = queue_flags(repeat_mode, shuffle);
    if flags.len() == 0 {
        " Queue "@
    } else {
        " Queue · "@ + text::joined(flags, " · "@) + " "@
    }
}

/// Build the queue block title, surfacing any non-default modes so the user
/// can see at a glance what shuffle/repeat are doing.
pub fn queue_title(repeat_mode: RepeatMode, shuffle: bool) -> (title: String)
    ensures
        title@ == queue_title_of(repeat_mode, shuffle),
{
    let mut flags: Vec<String> = Vec::new();
    if shuffle {
        push_deep(&mut flags, "Shuffle".to_owned());
    }
    match repeat_mode {
        RepeatMode::All => push_deep(&mut flags, "Repeat all".to_owned()),
        RepeatMode::One => push_deep(&mut flags, "Repeat one".to_owned()),
        RepeatMode::Off => {},
    }
    assert(flags.deep_view() =~= queue_flags(repeat_mode, shuffle));
    assert(flags.deep_view().len() == flags@.len());
    if flags.len() == 0 {
        " Queue ".to_owned()
    } else {
        concat3(" Queue · ", join_texts(&flags, " · ").as_str(), " ")
    }
}

/// The name at the head of the queue: the queued track's, or the playing one's.
pub open spec fn playing_name(
    current: Option<ItemModel>,
    playing: Option<NowPlayingModel>,
) -> Option<Seq<char>> {
    match current {
        Some(track) => Some(track.name),
        None => match playing {
            Some(now) => Some(now.title),
            None => None,
        },
    }
}

/// The tracks to come.
pub open spec fn upcoming_lines(upcoming: Seq<ItemModel>) -> Seq<Seq<SpanModel>> {
    if upcoming.len() == 0 {
        seq![lines::line_of(Tone::Muted, "Up next: —"@)]
    } else {
        seq![lines::line_of(Tone::Muted, "Up next:"@)] + upcoming.map_values(
            |track: ItemModel| lines::line_of(Tone::Plain, "  "@ + track.name),
        )
    }
}

/// The queue pane.
pub open spec fn queue_lines_of(
    current: Option<ItemModel>,
    playing: Option<NowPlayingModel>,
    upcoming: Seq<ItemModel>,
) -> Seq<Seq<SpanModel>> {
    match playing_name(current, playing) {
        Some(name) => seq![lines::line_of(Tone::Header, "▶ "@ + name)] + (match playing {
            Some(now) => match now.subtitle {
                Some(subtitle) => seq![lines::line_of(Tone::Muted, subtitle)],
                None => Seq::empty(),
            },
            None => Seq::empty(),
        }) + seq![blank()] + upcoming_lines(upcoming),
        None => seq![lines::line_of(Tone::Muted, "Queue is empty."@)],
    }
}

fn push_upcoming(lines: &mut Vec<Vec<Span>>, upcoming: &[Item])
    ensures
        final(lines).deep_view() == old(lines).deep_view() + upcoming_lines(upcoming.deep_view()),
{
    let ghost before = lines.deep_view();
    if upcoming.len() == 0 {
        add_line(lines, Tone::Muted, "Up next: —");
        assert(lines.deep_view() =~= before + upcoming_lines(upcoming.deep_view()));
        return;
    }
    add_line(lines, Tone::Muted, "Up next:");
    let ghost head = lines.deep_view();
    let ghost rows = upcoming.deep_view().map_values(
        |track: ItemModel| lines::line_of(Tone::Plain, "  "@ + track.name),
    );
    let mut i: usize = 0;
    while i < upcoming.len()
        invariant
            i <= upcoming@.len(),
            rows == upcoming.deep_view().map_values(
                |track: ItemModel| lines::line_of(Tone::Plain, "  "@ + track.name),
            ),
            lines.deep_view() =~= head + rows.take(i as int),
        decreases upcoming@.len() - i,
    {
        add_line(lines, Tone::Plain, concat2("  ", upcoming[i].name.as_str()).as_str());
        proof {
            sequences::lemma_take_push(rows, i as int);
        }
        i = i + 1;
    }
    proof {
        sequences::lemma_take_all(rows);
    }
    assert(lines.deep_view() =~= before + upcoming_lines(upcoming.deep_view()));
}

/// Music queue: current track from the queue state, then the upcoming tracks. Falls
/// back to the now-playing snapshot when the queue is empty (e.g. audio resumed from
/// a non-list source).
pub fn queue_lines(
    current: Option<&Item>,
    playing: Option<&NowPlaying>,
    upcoming: &[Item],
) -> (shown: Vec<Vec<Span>>)
    ensures
        shown.deep_view() == queue_lines_of(
            current.deep_view(),
            playing.deep_view(),
            upcoming.deep_view(),
        ),
{
    let name = match current {
        Some(track) => track.name.as_str(),
        None => match playing {
            Some(now) => now.title.as_str(),
            None => {
                return one_line(Tone::Muted, "Queue is empty.");
            },
        },
    };
    let mut shown = one_line(Tone::Header, concat2("▶ ", name).as_str());
    if let Some(now) = playing {
        if let Some(subtitle) = &now.subtitle {
            add_line(&mut shown, Tone::Muted, subtitle.as_str());
        }
    }
    add_line(&mut shown, Tone::Plain, "");
    push_upcoming(&mut shown, upcoming);
    assert(shown.deep_view() =~= queue_lines_of(
        current.deep_view(),
        playing.deep_view(),
        upcoming.deep_view(),
    ));
    shown
}

// ---------------------------------------------------------------------------
// The two panes

/// Which view the top context pane has.
#[derive(Debug, Clone, Copy, PartialEq, Eq, Structural)]
pub enum TopKind {
    Lyrics,
    Info,
    Cast,
    Episodes,
    Placeholder,
}

/// Which view the bottom context pane has.
#[derive(Debug, Clone, Copy, PartialEq, Eq, Structural)]
pub enum BottomKind {
    Queue,
    Credits,
    Seasons,
    Placeholder,
}

/// Which view the top pane has in a library of the given kind.
pub open spec fn top_kind_of(collection_type: Option<Seq<char>>, view: ContextTopView) -> TopKind {
    if collection_type == Some("music"@) {
        match view {
            ContextTopView::Lyrics => TopKind::Lyrics,
            ContextTopView::Info => TopKind::Info,
        }
    } else if collection_type == Some("movies"@) {
        TopKind::Cast
    } else if collection_type == Some("tvshows"@) {
        TopKind::Episodes
    } else {
        TopKind::Placeholder
    }
}

/// Which view the bottom pane has in a library of the given kind.
pub open spec fn bottom_kind_of(collection_type: Option<Seq<char>>) -> BottomKind {
    if collection_type == Some("music"@) {
        BottomKind::Queue
    } else if collection_type == Some("movies"@) {
        BottomKind::Credits
    } else if collection_type == Some("tvshows"@) {
        BottomKind::Seasons
    } else {
        BottomKind::Placeholder
    }
}

/// Which view the top pane has in a library of the given kind.
pub fn top_kind(collection_type: Option<&str>, view: ContextTopView) -> (kind: TopKind)
    ensures
        kind == top_kind_of(collection_type.deep_view(), view),
{
    if is_text(collection_type, "music") {
        match view {
            ContextTopView::Lyrics => TopKind::Lyrics,
            ContextTopView::Info => TopKind::Info,
        }
    } else if is_text(collection_type, "movies") {
        TopKind::Cast
    } else if is_text(collection_type, "tvshows") {
        TopKind::Episodes
    } else {
        TopKind::Placeholder
    }
}

/// Which view the bottom pane has in a library of the given kind.
pub fn bottom_kind(collection_type: Option<&str>) -> (kind: BottomKind)
    ensures
        kind == bottom_kind_of(collection_type.deep_view()),
{
    if is_text(collection_type, "music") {
        BottomKind::Queue
    } else if is_text(collection_type, "movies") {
        BottomKind::Credits
    } else if is_text(collection_type, "tvshows") {
        BottomKind::Seasons
    } else {
        BottomKind::Placeholder
    }
}

/// What the bottom context pane is drawn from.
pub struct BottomInput<'a> {
    pub detail: Option<&'a ItemDetail>,
    pub playing: Option<&'a NowPlaying>,
    pub current: Option<&'a Item>,
    pub upcoming: &'a [Item],
    pub repeat_mode: RepeatMode,
    pub shuffle: bool,
    pub scroll: u16,
}

/// The top pane of a library without lyrics.
pub open spec fn top_of(
    kind: TopKind,
    item: Option<ItemModel>,
    detail: Option<ItemDetailModel>,
    scroll: u16,
) -> TextPaneModel {
    match kind {
        TopKind::Info => TextPaneModel {
            title: " Info "@,
            lines: info_lines_of(item, detail),
            scroll,
        },
        TopKind::Cast => TextPaneModel { title: " Cast "@, lines: cast_lines_of(detail), scroll },
        TopKind::Episodes => TextPaneModel {
            title: tv_top_of(detail).0,
            lines: tv_top_of(detail).1,
            scroll,
        },
        _ => TextPaneModel {
            title: " Info "@,
            lines: seq![lines::line_of(Tone::Muted, "Select an item."@)],
            scroll: 0,
        },
    }
}

/// The bottom pane.
pub open spec fn bottom_of(
    kind: BottomKind,
    detail: Option<ItemDetailModel>,
    playing: Option<NowPlayingModel>,
    current: Option<ItemModel>,
    upcoming: Seq<ItemModel>,
    repeat_mode: RepeatMode,
    shuffle: bool,
    scroll: u16,
) -> TextPaneModel {
    match kind {
        BottomKind::Queue => TextPaneModel {
            title: queue_title_of(repeat_mode, shuffle),
            lines: queue_lines_of(current, playing, upcoming),
            scroll,
        },
        BottomKind::Credits => TextPaneModel {
            title: " Credits "@,
            lines: credits_lines_of(detail),
            scroll,
        },
        BottomKind::Seasons => TextPaneModel {
            title: tv_bottom_of(detail).0,
            lines: tv_bottom_of(detail).1,
            scroll,
        },
        BottomKind::Placeholder => TextPaneModel {
            title: " More "@,
            lines: seq![lines::line_of(Tone::Muted, ""@)],
            scroll: 0,
        },
    }
}

/// The top context pane, in any view but the lyrics, which also follow the playback
/// position ([`lyrics_pane`]).
pub fn top_pane(
    kind: TopKind,
    item: Option<&Item>,
    detail: Option<&ItemDetail>,
    scroll: u16,
) -> (pane: TextPane)
    requires
        kind != TopKind::Lyrics,
    ensures
        pane@ == top_of(kind, item.deep_view(), detail.deep_view(), scroll),
{
    match kind {
        TopKind::Info => TextPane {
            title: " Info ".to_owned(),
            lines: info_lines(item, detail),
            scroll,
        },
        TopKind::Cast => TextPane { title: " Cast ".to_owned(), lines: cast_lines(detail), scroll },
        TopKind::Episodes => {
            let (title, lines) = pick_tv_top(detail);
            TextPane { title: title.to_owned(), lines, scroll }
        },
        _ => TextPane {
            title: " Info ".to_owned(),
            lines: one_line(Tone::Muted, "Select an item."),
            scroll: 0,
        },
    }
}

/// The bottom context pane.
pub fn bottom_pane(kind: BottomKind, input: &BottomInput) -> (pane: TextPane)
    ensures
        pane@ == bottom_of(
            kind,
            input.detail.deep_view(),
            input.playing.deep_view(),
            input.current.deep_view(),
            input.upcoming.deep_view(),
            input.repeat_mode,
            input.shuffle,
            input.scroll,
        ),
{
    match kind {
        BottomKind::Queue => TextPane {
            title: queue_title(input.repeat_mode, input.shuffle),
            lines: queue_lines(input.current, input.playing, input.upcoming),
            scroll: input.scroll,
        },
        BottomKind::Credits => TextPane {
            title: " Credits ".to_owned(),
            lines: credits_lines(input.detail),
            scroll: input.scroll,
        },
        BottomKind::Seasons => {
            let (title, lines) = pick_tv_bottom(input.detail);
            TextPane { title: title.to_owned(), lines, scroll: input.scroll }
        },
        BottomKind::Placeholder => TextPane {
            title: " More ".to_owned(),
            lines: one_line(Tone::Muted, ""),
            scroll: 0,
        },
    }
}

/// A text is never scrolled past its end: either all of it is on display, or the
/// last row of the pane is a row of the text.
pub proof fn text_never_scrolls_past_its_end(content_rows: u16, viewport: u16, scroll: u16)
    ensures
        view_of(content_rows, viewport, scroll).offset + viewport <= content_rows || view_of(
            content_rows,
            viewport,
            scroll,
        ).offset == 0,
{
}

/// The active lyric line is on display.
pub proof fn the_active_line_is_in_view(active: usize, total: usize, viewport: usize)
    requires
        active < total,
        viewport > 0,
        total <= u16::MAX,
    ensures
        ({
            let offset = centered_offset(Some(active), total, viewport);
            offset <= active && (active < offset + viewport)
        }),
{
}

/// Nobody is listed both as cast and as crew.
pub proof fn cast_and_crew_are_apart(person: PersonModel)
    requires
        in_crew()(person),
    ensures
        !in_cast()(person),
{
    reveal_strlit("Actor");
    reveal_strlit("GuestStar");
    reveal_strlit("Director");
    reveal_strlit("Writer");
    reveal_strlit("Producer");
    reveal_strlit("Composer");
    assert("Actor"@.len() == 5 && "GuestStar"@.len() == 9);
    assert("Director"@.len() == 8 && "Writer"@.len() == 6 && "Producer"@.len() == 8);
    assert("Composer"@.len() == 8);
}

/// Where the lines' starts only grow, the active line is the last one that has
/// started.
pub proof fn synced_lyrics_follow_the_song(lyrics: Seq<LyricLineModel>, i: int, ticks: i64)
    requires
        0 <= i < lyrics.len(),
        forall|a: int, b: int|
            0 <= a <= b < lyrics.len() ==> (#[trigger] lyrics[a]).start_ticks is Some && (
            #[trigger] lyrics[b]).start_ticks is Some && lyrics[a].start_ticks->0
                <= lyrics[b].start_ticks->0,
        started(lyrics, i, ticks),
        i + 1 == lyrics.len() || !started(lyrics, i + 1, ticks),
    ensures
        is_active(lyrics, i, ticks),
{
    assert forall|j: int| 0 <= j < lyrics.len() && #[trigger] started(lyrics, j, ticks) implies {
        ||| lyrics[j].start_ticks->0 < lyrics[i].start_ticks->0
        ||| (lyrics[j].start_ticks->0 == lyrics[i].start_ticks->0 && j <= i)
    } by {
        if j > i {
            assert(lyrics[i + 1].start_ticks->0 <= lyrics[j].start_ticks->0);
            assert(lyrics[i + 1].start_ticks is Some);
        } else {
            assert(lyrics[j].start_ticks->0 <= lyrics[i].start_ticks->0);
        }
    }
}

} // verus!
