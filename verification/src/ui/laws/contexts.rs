//! The context panes: info, lyrics, cast, credits, episodes and the queue.

use vstd::prelude::*;
use vstd::string::*;

use crate::sequences;
use crate::text;
use crate::time::Duration;
use crate::ui::app::types::{
    ContextTopView, ItemDetailModel, ItemModel, LyricLine, NowPlayingModel, PersonModel,
    RepeatMode,
};
use crate::ui::durations;
use crate::ui::lines;
use crate::ui::lines::Tone;
use crate::ui::panes::context_pane;
use crate::ui::panes::context_pane::{BottomKind, ScrollView, TopKind};

verus! {

// ---------------------------------------------------------------------------
// Which pane shows what

/// The library's kind decides the two panes: music shows lyrics or info and the queue,
/// movies cast and credits, shows episodes and seasons.
pub proof fn the_library_decides_the_panes(
    kind: Option<&str>,
    view: ContextTopView,
    top: TopKind,
    bottom: BottomKind,
)
    requires
        call_ensures(context_pane::top_kind, (kind, view), top),
        call_ensures(context_pane::bottom_kind, (kind,), bottom),
    ensures
        ({
            let named = |name: Seq<char>| kind is Some && kind->0@ == name;
            &&& named("music"@) && view == ContextTopView::Lyrics ==> top == TopKind::Lyrics
            &&& named("music"@) && view == ContextTopView::Info ==> top == TopKind::Info
            &&& named("music"@) ==> bottom == BottomKind::Queue
            &&& named("movies"@) ==> top == TopKind::Cast && bottom == BottomKind::Credits
            &&& named("tvshows"@) ==> top == TopKind::Episodes && bottom == BottomKind::Seasons
            &&& !named("music"@) && !named("movies"@) && !named("tvshows"@) ==> top == TopKind::Placeholder
                && bottom == BottomKind::Placeholder
        }),
{
    reveal_strlit("music");
    reveal_strlit("movies");
    reveal_strlit("tvshows");
    assert("music"@.len() == 5 && "movies"@.len() == 6 && "tvshows"@.len() == 7);
    assert(kind.deep_view() == match kind {
        Some(name) => Some(name@),
        None => None,
    });
}

// ---------------------------------------------------------------------------
// Info

/// The info pane starts with the item's name and shows its own description: the fetched
/// one where there is one.
pub proof fn the_info_pane_describes_the_item(item: ItemModel, detail: Option<ItemDetailModel>)
    ensures
        ({
            let shown = context_pane::info_lines_of(Some(item), detail);
            let meta: int = if item.kind is Some || item.production_year is Some || (
            item.run_time_ticks is Some && item.run_time_ticks->0 > 0) {
                1
            } else {
                0
            };
            let fetched = detail is Some && detail->0.overview is Some;
            let words = if fetched {
                detail->0.overview
            } else {
                item.overview
            };
            let line = shown[2 + meta];
            &&& shown[0] == lines::line_of(Tone::Header, item.name)
            &&& words is Some && words->0.len() > 0 ==> line == lines::line_of(
                Tone::Plain,
                words->0,
            )
            &&& (words is None || words->0.len() == 0) && detail is Some ==> line == lines::line_of(
                Tone::Muted,
                "No description."@,
            )
            &&& (words is None || words->0.len() == 0) && detail is None ==> line == lines::line_of(
                Tone::Muted,
                "Loading…"@,
            )
        }),
{
}

/// What is known of the item in one line: its kind, its year and its runtime, in that
/// order.
pub proof fn the_meta_line_says_kind_year_and_runtime(item: ItemModel)
    ensures
        ({
            let parts = context_pane::meta_parts(item);
            let year: int = if item.kind is Some {
                1
            } else {
                0
            };
            let runtime = year + if item.production_year is Some {
                1int
            } else {
                0int
            };
            let timed = item.run_time_ticks is Some && item.run_time_ticks->0 > 0;
            &&& item.kind matches Some(kind) ==> parts[0] == kind
            &&& item.production_year matches Some(n) ==> parts[year] == text::signed_decimal(
                n as int,
            )
            &&& timed ==> Some(parts[runtime]) == durations::runtime_text(item.run_time_ticks->0)
            &&& parts.len() == runtime + if timed {
                1int
            } else {
                0int
            }
        }),
{
}

/// A section lists its items by name, with a heart before the favorites, below its title;
/// without items there is no section.
pub proof fn sections_list_their_items(title: Seq<char>, items: Seq<ItemModel>, i: int)
    ensures
        items.len() == 0 ==> context_pane::section_lines(title, items).len() == 0,
        0 <= i < items.len() ==> {
            let shown = context_pane::section_lines(title, items);
            &&& shown.len() == items.len() + 2
            &&& shown[0] == lines::line_of(Tone::Header, title)
            &&& items[i].is_favorite ==> shown[1 + i] == lines::line_of(
                Tone::Plain,
                "♥ "@ + items[i].name,
            )
            &&& !items[i].is_favorite ==> shown[1 + i] == lines::line_of(
                Tone::Plain,
                "  "@ + items[i].name,
            )
        },
{
}

/// An artist's info lists albums and appearances, an album's its tracks, a track's the
/// tracks around it.
pub proof fn contents_are_listed_by_kind(detail: ItemDetailModel)
    ensures
        context_pane::contents_lines(Some("MusicArtist"@), detail) == context_pane::section_lines(
            "Albums"@,
            detail.artist_albums,
        ) + context_pane::section_lines("Appears on"@, detail.appears_on),
        context_pane::contents_lines(Some("MusicAlbum"@), detail) == context_pane::section_lines(
            "Tracks"@,
            detail.children,
        ),
        context_pane::contents_lines(Some("Audio"@), detail) == context_pane::section_lines(
            "Album tracks"@,
            detail.siblings,
        ),
        context_pane::contents_lines(None, detail).len() == 0,
{
    reveal_strlit("MusicArtist");
    reveal_strlit("MusicAlbum");
    reveal_strlit("Audio");
    assert("MusicArtist"@.len() == 11 && "MusicAlbum"@.len() == 10 && "Audio"@.len() == 5);
}

/// The genres are listed in order, with commas in between.
pub proof fn genres_are_listed_in_order(genres: Seq<Seq<char>>, next: Seq<char>)
    ensures
        genres.len() == 0 ==> context_pane::genres_text(genres.push(next)) == "Genres: "@ + next,
        genres.len() > 0 ==> context_pane::genres_text(genres.push(next))
            == context_pane::genres_text(genres) + ", "@ + next,
{
    text::lemma_joined_push(genres, next, ", "@);
    if genres.len() > 0 {
        let listed = text::joined(genres, ", "@);
        assert("Genres: "@ + (listed + ", "@ + next) =~= "Genres: "@ + listed + ", "@ + next);
    }
}

/// The cover takes a third of the pane, six rows at least and fourteen at most, and only
/// where it can be drawn and has been asked for.
pub proof fn the_cover_takes_a_third(
    revealed: bool,
    art: bool,
    draw: bool,
    height: u16,
    rows: Option<u16>,
)
    requires
        call_ensures(context_pane::cover_height, (revealed, art, draw, height), rows),
    ensures
        rows is Some <==> revealed && art && draw && height >= 10,
        rows matches Some(n) ==> {
            &&& 6 <= n <= 14
            &&& 18 <= height <= 44 ==> n == height / 3
            &&& height < 18 ==> n == 6
            &&& height > 44 ==> n == 14
        },
{
}

/// A text is shown from where it was scrolled to, but never past its end; a bar shows
/// where it is longer than the pane.
pub proof fn text_is_shown_from_where_it_was_scrolled_to(
    rows: u16,
    viewport: u16,
    scroll: u16,
    view: ScrollView,
)
    requires
        call_ensures(context_pane::clamp_scroll, (rows, viewport, scroll), view),
    ensures
        rows <= viewport ==> view.offset == 0 && !view.bar,
        rows > viewport && scroll <= rows - viewport ==> view.offset == scroll,
        rows > viewport && scroll > rows - viewport ==> view.offset == rows - viewport,
        rows > viewport && viewport > 0 ==> view.bar,
        view.content_rows == rows,
{
}

// ---------------------------------------------------------------------------
// Lyrics

/// The line being sung is one that has started, and none that has started began after it;
/// there is none only while no line has started.
pub proof fn the_sung_line_started_last(
    lyrics: Vec<LyricLine>,
    position: Duration,
    active: Option<usize>,
    j: int,
)
    requires
        call_ensures(context_pane::active_lyric_index, (&lyrics, position), active),
        0 <= j < lyrics@.len(),
        lyrics@[j].start_ticks is Some,
        position.nanos < 1_000_000_000,
        position.secs <= 900_000_000_000,
        lyrics@[j].start_ticks->0 <= position.secs * 10_000_000 + position.nanos / 100,
    ensures
        active is Some,
        active->0 < lyrics@.len(),
        lyrics@[active->0 as int].start_ticks is Some,
        lyrics@[active->0 as int].start_ticks->0 <= position.secs * 10_000_000 + position.nanos
            / 100,
        lyrics@[j].start_ticks->0 <= lyrics@[active->0 as int].start_ticks->0,
{
    let models = lyrics.deep_view();
    let ticks = context_pane::position_ticks(position);
    assert(position.total_nanos() as int / 100 == position.secs * 10_000_000 + position.nanos / 100)
        by (nonlinear_arith)
        requires
            position.total_nanos() == position.secs * 1_000_000_000 + position.nanos,
    ;
    assert(ticks == position.secs * 10_000_000 + position.nanos / 100);
    assert(models.len() == lyrics@.len());
    assert(models[j] == lyrics@[j]@);
    assert(context_pane::started(models, j, ticks));
    assert(context_pane::is_sung(models, active, ticks));
    if let Some(i) = active {
        assert(models[i as int] == lyrics@[i as int]@);
    }
}

/// Every line of the lyrics is shown in order, and exactly the one being sung stands out.
pub proof fn the_sung_line_stands_out(
    lyrics: Seq<crate::ui::app::types::LyricLineModel>,
    active: Option<usize>,
    i: int,
)
    requires
        0 <= i < lyrics.len(),
    ensures
        context_pane::lyric_rows(lyrics, active).len() == lyrics.len(),
        active is Some && active->0 == i ==> context_pane::lyric_rows(lyrics, active)[i]
            == lines::line_of(Tone::Header, lyrics[i].text),
        active is None || active->0 != i ==> context_pane::lyric_rows(lyrics, active)[i]
            == lines::line_of(Tone::Plain, lyrics[i].text),
{
}

/// The sung line sits in the middle of the pane as far as the text allows.
pub proof fn the_sung_line_sits_in_the_middle(
    place: usize,
    total: usize,
    viewport: usize,
    offset: u16,
)
    requires
        call_ensures(context_pane::scroll_offset, (Some(place), total, viewport), offset),
        place < total <= u16::MAX,
        viewport > 0,
    ensures
        total <= viewport ==> offset == 0,
        total > viewport && place <= viewport / 2 ==> offset == 0,
        total > viewport && place > viewport / 2 && place - viewport / 2 <= total - viewport
            ==> offset == place - viewport / 2,
        total > viewport && place - viewport / 2 > total - viewport ==> offset == total - viewport,
{
}

// ---------------------------------------------------------------------------
// People

/// The cast pane lists the actors and guests, and those of no named kind; the credits the
/// directors, writers, producers and composers.
pub proof fn people_are_listed_by_what_they_did(person: PersonModel)
    ensures
        person.kind == Some("Actor"@) || person.kind == Some("GuestStar"@) || person.kind is None
            <==> context_pane::in_cast()(person),
        person.kind == Some("Director"@) || person.kind == Some("Writer"@) || person.kind == Some(
            "Producer"@,
        ) || person.kind == Some("Composer"@) <==> context_pane::in_crew()(person),
{
}

/// Each person is listed by name, with the role, or the kind where there is no role.
pub proof fn people_are_listed_with_their_role(person: PersonModel)
    ensures
        ({
            let role = person.role is Some && person.role->0.len() > 0;
            let kind = person.kind is Some && person.kind->0.len() > 0;
            &&& role ==> context_pane::person_text(person) == person.name + "  —  "@
                + person.role->0
            &&& !role && kind ==> context_pane::person_text(person) == person.name + "  ("@
                + person.kind->0 + ")"@
            &&& !role && !kind ==> context_pane::person_text(person) == person.name
        }),
{
}

/// People are listed in the server's order; one more person who belongs is one more line
/// at the end.
pub proof fn people_keep_their_order(
    people: Seq<PersonModel>,
    next: PersonModel,
    listed: spec_fn(PersonModel) -> bool,
)
    ensures
        context_pane::people_rows(Seq::empty(), listed).len() == 0,
        listed(next) ==> context_pane::people_rows(people.push(next), listed)
            == context_pane::people_rows(people, listed).push(
            lines::line_of(Tone::Plain, context_pane::person_text(next)),
        ),
        !listed(next) ==> context_pane::people_rows(people.push(next), listed)
            == context_pane::people_rows(people, listed),
{
    sequences::lemma_filter_empty(listed);
    sequences::lemma_filter_push(people, next, listed);
    if listed(next) {
        assert(context_pane::people_rows(people.push(next), listed) =~= context_pane::people_rows(
            people,
            listed,
        ).push(context_pane::person_row(next)));
    }
}

/// Cast and credits are those of the shown detail.
pub proof fn cast_and_credits_are_the_items(detail: ItemDetailModel)
    ensures
        detail.cast.len() > 0 ==> context_pane::cast_lines_of(Some(detail))
            == context_pane::people_rows(detail.cast, context_pane::in_cast()),
        detail.cast.len() == 0 ==> context_pane::cast_lines_of(Some(detail)) == seq![
            lines::line_of(Tone::Plain, "No cast listed."@),
        ],
        context_pane::cast_lines_of(None) == seq![
            lines::line_of(Tone::Plain, "Select an item to load cast."@),
        ],
        detail.genres.len() > 0 ==> context_pane::credits_lines_of(Some(detail))[0]
            == lines::line_of(Tone::Plain, context_pane::genres_text(detail.genres)),
        detail.genres.len() == 0 && context_pane::people_rows(
            detail.cast,
            context_pane::in_crew(),
        ).len() > 0 ==> context_pane::credits_lines_of(Some(detail)) == context_pane::people_rows(
            detail.cast,
            context_pane::in_crew(),
        ),
        context_pane::credits_lines_of(None) == seq![
            lines::line_of(Tone::Plain, "No credits loaded."@),
        ],
{
    if detail.genres.len() == 0 {
        assert(context_pane::credits_of(detail) =~= context_pane::people_rows(
            detail.cast,
            context_pane::in_crew(),
        ));
    }
}

/// A show's panes list the children and the siblings by name, in order, and call them
/// seasons where they all are.
pub proof fn shows_list_children_and_siblings(detail: ItemDetailModel, i: int)
    ensures
        0 <= i < detail.children.len() ==> {
            let top = context_pane::tv_top_of(Some(detail));
            &&& top.1.len() == detail.children.len()
            &&& top.1[i] == lines::line_of(Tone::Plain, detail.children[i].name)
            &&& detail.children[i].kind != Some("Season"@) ==> top.0 == " Episodes "@
            &&& (forall|j: int|
                0 <= j < detail.children.len() ==> (#[trigger] detail.children[j]).kind == Some(
                    "Season"@,
                )) ==> top.0 == " Seasons "@
        },
        0 <= i < detail.siblings.len() ==> {
            let bottom = context_pane::tv_bottom_of(Some(detail));
            &&& bottom.1.len() == detail.siblings.len()
            &&& bottom.1[i] == lines::line_of(Tone::Plain, detail.siblings[i].name)
            &&& detail.siblings[i].kind != Some("Season"@) ==> bottom.0 == " More "@
        },
        detail.children.len() == 0 && 0 <= i < detail.siblings.len() ==> {
            let top = context_pane::tv_top_of(Some(detail));
            &&& top.0 == " Episodes "@
            &&& top.1[i] == lines::line_of(Tone::Plain, detail.siblings[i].name)
        },
{
}

// ---------------------------------------------------------------------------
// The queue

/// The queue's title names the modes that are on.
pub proof fn the_queue_title_names_the_modes(mode: RepeatMode, shuffle: bool, title: String)
    requires
        call_ensures(context_pane::queue_title, (mode, shuffle), title),
    ensures
        mode == RepeatMode::Off && !shuffle ==> title@ == " Queue "@,
        mode == RepeatMode::Off && shuffle ==> title@ == " Queue · "@ + "Shuffle"@ + " "@,
        mode == RepeatMode::All && !shuffle ==> title@ == " Queue · "@ + "Repeat all"@ + " "@,
        mode == RepeatMode::One && !shuffle ==> title@ == " Queue · "@ + "Repeat one"@ + " "@,
        mode == RepeatMode::All && shuffle ==> title@ == " Queue · "@ + ("Shuffle"@ + " · "@
            + "Repeat all"@) + " "@,
        mode == RepeatMode::One && shuffle ==> title@ == " Queue · "@ + ("Shuffle"@ + " · "@
            + "Repeat one"@) + " "@,
{
    let flags = context_pane::queue_flags(mode, shuffle);
    let one = seq!["Shuffle"@];
    text::lemma_joined_push(Seq::empty(), "Shuffle"@, " · "@);
    text::lemma_joined_push(Seq::empty(), "Repeat all"@, " · "@);
    text::lemma_joined_push(Seq::empty(), "Repeat one"@, " · "@);
    text::lemma_joined_push(one, "Repeat all"@, " · "@);
    text::lemma_joined_push(one, "Repeat one"@, " · "@);
    if shuffle && mode == RepeatMode::Off {
        assert(flags =~= one);
    } else if shuffle && mode == RepeatMode::All {
        assert(flags =~= one.push("Repeat all"@));
    } else if shuffle {
        assert(flags =~= one.push("Repeat one"@));
    } else if mode == RepeatMode::All {
        assert(flags =~= seq!["Repeat all"@]);
    } else if mode == RepeatMode::One {
        assert(flags =~= seq!["Repeat one"@]);
    }
}

/// The queue pane names the current track first and then what comes next, one line each
/// and in order.
pub proof fn the_queue_pane_lists_what_comes_next(
    current: ItemModel,
    playing: Option<NowPlayingModel>,
    upcoming: Seq<ItemModel>,
    i: int,
)
    ensures
        ({
            let shown = context_pane::queue_lines_of(Some(current), playing, upcoming);
            let n = shown.len();
            &&& shown[0] == lines::line_of(Tone::Header, "▶ "@ + current.name)
            &&& upcoming.len() == 0 ==> shown.last() == lines::line_of(
                Tone::Muted,
                "Up next: —"@,
            )
            &&& 0 <= i < upcoming.len() ==> {
                &&& shown[n - upcoming.len() + i] == lines::line_of(
                    Tone::Plain,
                    "  "@ + upcoming[i].name,
                )
                &&& shown[n - upcoming.len() - 1] == lines::line_of(Tone::Muted, "Up next:"@)
            }
        }),
{
}

/// Without a queue the pane names what plays; without either it says the queue is empty.
pub proof fn the_queue_pane_falls_back_to_what_plays(
    playing: NowPlayingModel,
    upcoming: Seq<ItemModel>,
)
    ensures
        context_pane::queue_lines_of(None, Some(playing), upcoming)[0] == lines::line_of(
            Tone::Header,
            "▶ "@ + playing.title,
        ),
        playing.subtitle matches Some(words) ==> context_pane::queue_lines_of(
            None,
            Some(playing),
            upcoming,
        )[1] == lines::line_of(Tone::Muted, words),
        context_pane::queue_lines_of(None, None, upcoming) == seq![
            lines::line_of(Tone::Muted, "Queue is empty."@),
        ],
{
}

// ---------------------------------------------------------------------------
// Whole panes

/// The lyrics pane shows the lyrics of the item on display, and says where there are none.
pub proof fn the_lyrics_pane_shows_the_items_lyrics(
    detail: ItemDetailModel,
    active: Option<usize>,
)
    ensures
        detail.lyrics is Some && detail.lyrics->0.len() > 0 ==> context_pane::lyrics_lines_of(
            Some(detail),
            active,
        ) == context_pane::lyric_rows(detail.lyrics->0, active),
        detail.lyrics is Some && detail.lyrics->0.len() == 0 ==> context_pane::lyrics_lines_of(
            Some(detail),
            active,
        ) == seq![lines::line_of(Tone::Plain, "No lyrics for this track."@)],
        detail.lyrics is None ==> context_pane::lyrics_lines_of(Some(detail), active)
            == context_pane::lyrics_lines_of(None, active),
        context_pane::lyrics_lines_of(None, active) == seq![
            lines::line_of(Tone::Plain, "No lyrics loaded. Press p → Show lyrics to fetch."@),
        ],
{
}

/// Below the description stand the contents and then the genres, and nothing else.
pub proof fn contents_and_genres_stand_below_the_description(
    item: ItemModel,
    detail: ItemDetailModel,
)
    ensures
        ({
            let shown = context_pane::info_lines_of(Some(item), Some(detail));
            let bare = context_pane::info_lines_of(Some(item), None);
            let contents = context_pane::contents_lines(item.kind, detail);
            let genres = context_pane::genre_lines(detail.genres);
            &&& shown.skip(bare.len() as int) == contents + genres
            &&& detail.genres.len() == 0 ==> genres.len() == 0
            &&& detail.genres.len() > 0 ==> genres.len() == 2 && genres[1] == lines::line_of(
                Tone::Muted,
                context_pane::genres_text(detail.genres),
            )
            &&& context_pane::info_lines_of(None, Some(detail)) == seq![
                lines::line_of(Tone::Muted, "Select an item."@),
            ]
        }),
{
    let shown = context_pane::info_lines_of(Some(item), Some(detail));
    let bare = context_pane::info_lines_of(Some(item), None);
    assert(shown.skip(bare.len() as int) =~= context_pane::contents_lines(item.kind, detail)
        + context_pane::genre_lines(detail.genres));
}

/// Each top pane has its own title and lines, from where it was scrolled to.
pub proof fn top_panes_show_their_own(
    item: Option<ItemModel>,
    detail: Option<ItemDetailModel>,
    scroll: u16,
)
    ensures
        ({
            let info = context_pane::top_of(TopKind::Info, item, detail, scroll);
            let cast = context_pane::top_of(TopKind::Cast, item, detail, scroll);
            let episodes = context_pane::top_of(TopKind::Episodes, item, detail, scroll);
            &&& info.title == " Info "@
            &&& info.lines == context_pane::info_lines_of(item, detail)
            &&& info.scroll == scroll
            &&& cast.title == " Cast "@
            &&& cast.lines == context_pane::cast_lines_of(detail)
            &&& cast.scroll == scroll
            &&& episodes.title == context_pane::tv_top_of(detail).0
            &&& episodes.lines == context_pane::tv_top_of(detail).1
            &&& episodes.scroll == scroll
        }),
{
}

/// Each bottom pane has its own title and lines, from where it was scrolled to.
pub proof fn bottom_panes_show_their_own(
    detail: Option<ItemDetailModel>,
    playing: Option<NowPlayingModel>,
    current: Option<ItemModel>,
    upcoming: Seq<ItemModel>,
    mode: RepeatMode,
    shuffle: bool,
    scroll: u16,
)
    ensures
        ({
            let queue = context_pane::bottom_of(
                BottomKind::Queue,
                detail,
                playing,
                current,
                upcoming,
                mode,
                shuffle,
                scroll,
            );
            let credits = context_pane::bottom_of(
                BottomKind::Credits,
                detail,
                playing,
                current,
                upcoming,
                mode,
                shuffle,
                scroll,
            );
            let seasons = context_pane::bottom_of(
                BottomKind::Seasons,
                detail,
                playing,
                current,
                upcoming,
                mode,
                shuffle,
                scroll,
            );
            &&& queue.title == context_pane::queue_title_of(mode, shuffle)
            &&& queue.lines == context_pane::queue_lines_of(current, playing, upcoming)
            &&& queue.scroll == scroll
            &&& credits.title == " Credits "@
            &&& credits.lines == context_pane::credits_lines_of(detail)
            &&& credits.scroll == scroll
            &&& seasons.title == context_pane::tv_bottom_of(detail).0
            &&& seasons.lines == context_pane::tv_bottom_of(detail).1
            &&& seasons.scroll == scroll
        }),
{
}

/// The rightmost column is kept free for the scrollbar.
pub proof fn the_scrollbar_has_its_column(width: u16)
    ensures
        width > 1 ==> context_pane::wrap_width(width) == width - 1,
        width <= 1 ==> context_pane::wrap_width(width) == 1,
{
}

} // verus!
