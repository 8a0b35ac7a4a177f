//! What the panes and the now-playing bar show.

use aquafin::time::Duration;
use aquafin::ui::app::{
    HomeData, HomeRowKind, Item, ItemDetail, Level, LyricLine, MediaKind, NowPlaying, Person,
    RepeatMode,
};
use aquafin::ui::durations::{
    format_chapter_timestamp, format_duration, format_runtime, format_time, format_track_length,
};
use aquafin::ui::layout::{centered_rect, compute, sized_center, Area};
use aquafin::ui::lines::Span;
use aquafin::ui::now_playing::{
    artist_album_text, cover_width, format_times, second_line, state_text,
};
use aquafin::ui::panes::content::{is_all_audio, track_table};
use aquafin::ui::panes::context_pane::{
    active_lyric_index, cast_lines, clamp_scroll, credits_lines, lyrics_pane, pick_tv_bottom,
    pick_tv_top, queue_lines, queue_title, scroll_offset, scroll_view, WIDEST_WRAP,
};
use aquafin::ui::panes::home::{
    clip, greeting_for_hour, hour_at, initials_for, subtitle_for, tile, visible_rows,
    visible_tiles, welcome_lines,
};
use aquafin::ui::panes::{item_kind_decor, library_items, list};

fn np_audio() -> NowPlaying {
    NowPlaying {
        item_id: "x".to_string(),
        kind: MediaKind::Audio,
        title: "Get Lucky".to_string(),
        subtitle: None,
        artist: Some("Daft Punk".to_string()),
        album: Some("Random Access Memories".to_string()),
        format_summary: Some("FLAC · 44.1 kHz · stereo · 1466 kbps".to_string()),
        position: Duration::from_secs(30),
        duration: Some(Duration::from_secs(200)),
        paused: false,
        volume: Some(80),
    }
}

fn text_of(row: &[Span]) -> String {
    let mut out = String::new();
    for piece in row {
        out.push_str(&piece.text);
    }
    out
}

fn named(id: &str, name: &str, kind: &str) -> Item {
    Item {
        id: id.to_string(),
        name: name.to_string(),
        kind: Some(kind.to_string()),
        ..Default::default()
    }
}

#[test]
fn formats_time_with_and_without_hours() {
    assert_eq!(format_time(Duration::from_secs(0)), "0:00");
    assert_eq!(format_time(Duration::from_secs(83)), "1:23");
    assert_eq!(format_time(Duration::from_secs(3 * 3600 + 4 * 60 + 5)), "3:04:05");
}

#[test]
fn format_times_is_just_elapsed_over_total() {
    let np = np_audio();
    assert_eq!(format_times(&np), "0:30 / 3:20");
}

#[test]
fn format_times_falls_back_when_duration_unknown() {
    let mut np = np_audio();
    np.duration = None;
    assert_eq!(format_times(&np), "0:30 / --:--");
}

#[test]
fn artist_album_joins_with_separator() {
    let np = np_audio();
    assert_eq!(
        artist_album_text(&np).as_deref(),
        Some("Daft Punk · Random Access Memories")
    );
}

#[test]
fn artist_album_falls_back_to_whichever_side_is_set() {
    let mut np = np_audio();
    np.album = None;
    assert_eq!(artist_album_text(&np).as_deref(), Some("Daft Punk"));
    np.artist = None;
    np.album = Some("RAM".to_string());
    assert_eq!(artist_album_text(&np).as_deref(), Some("RAM"));
}

#[test]
fn the_subtitle_stands_in_for_artist_and_album() {
    let mut np = np_audio();
    np.artist = None;
    np.album = Some(String::new());
    np.subtitle = Some("Live".to_string());
    assert_eq!(artist_album_text(&np), None);
    assert_eq!(second_line(&np).as_deref(), Some("Live"));
}

fn line(text: &str, ticks: Option<i64>) -> LyricLine {
    LyricLine {
        text: text.to_string(),
        start_ticks: ticks,
    }
}

#[test]
fn active_lyric_index_picks_greatest_start_at_or_before_position() {
    let lyrics = vec![
        line("intro", Some(0)),
        line("verse", Some(30_000_000)),  // 3s
        line("chorus", Some(120_000_000)), // 12s
    ];
    assert_eq!(active_lyric_index(&lyrics, Duration::from_secs(0)), Some(0));
    assert_eq!(active_lyric_index(&lyrics, Duration::from_secs(5)), Some(1));
    assert_eq!(active_lyric_index(&lyrics, Duration::from_secs(20)), Some(2));
}

#[test]
fn active_lyric_index_returns_none_before_first_line() {
    let lyrics = vec![line("verse", Some(30_000_000))];
    assert_eq!(active_lyric_index(&lyrics, Duration::from_secs(0)), None);
}

#[test]
fn active_lyric_index_returns_none_for_untimed_lyrics() {
    let lyrics = vec![line("plain", None), line("text", None)];
    assert_eq!(active_lyric_index(&lyrics, Duration::from_secs(5)), None);
}

#[test]
fn scroll_offset_centers_active_line_when_room() {
    // 40 lines, 10-row viewport, active = 20 → scroll = 15 so the active
    // line sits around the middle.
    assert_eq!(scroll_offset(Some(20), 40, 10), 15);
}

#[test]
fn scroll_offset_clamps_to_end_of_lyrics() {
    // Active near the end shouldn't scroll past the last possible offset.
    assert_eq!(scroll_offset(Some(38), 40, 10), 30);
}

#[test]
fn scroll_offset_returns_zero_when_lyrics_fit_or_no_active() {
    assert_eq!(scroll_offset(Some(2), 5, 10), 0);
    assert_eq!(scroll_offset(None, 40, 10), 0);
}

#[test]
fn unsorted_lyrics_follow_the_song() {
    let lyrics = vec![
        line("chorus", Some(120_000_000)),
        line("intro", Some(0)),
        line("verse", Some(30_000_000)),
    ];
    assert_eq!(active_lyric_index(&lyrics, Duration::from_secs(5)), Some(2));
    assert_eq!(active_lyric_index(&lyrics, Duration::from_secs(20)), Some(0));
}

#[test]
fn the_active_lyric_line_stands_out() {
    let detail = ItemDetail {
        lyrics: Some(vec![line("one", Some(0)), line("two", Some(20_000_000))]),
        ..Default::default()
    };
    let pane = lyrics_pane(Some(&detail), Some(Duration::from_secs(3)), 10);
    assert_eq!(text_of(&pane.lines[1]).trim_start_matches(|c: char| !c.is_alphanumeric()), "two");
    assert_ne!(pane.lines[0][0].tone, pane.lines[1][0].tone);
}

#[test]
fn scrolling_stops_at_the_end_of_the_text() {
    let view = clamp_scroll(50, 20, 100);
    assert_eq!((view.offset, view.bar), (30, true));
    let view = clamp_scroll(10, 20, 5);
    assert_eq!((view.offset, view.bar), (0, false));
}

#[test]
fn long_lines_take_several_rows() {
    let credit = Person {
        id: None,
        name: "A name that is far longer than the pane is wide".to_string(),
        role: None,
        kind: Some("Actor".to_string()),
    };
    let detail = ItemDetail { cast: vec![credit], ..Default::default() };
    let lines = cast_lines(Some(&detail));
    let narrow = scroll_view(&lines, 12, 2, 0);
    let wide = scroll_view(&lines, 200, 40, 0);
    let widest = scroll_view(&lines, WIDEST_WRAP + 1, 40, 0);
    assert!(narrow.content_rows > lines.len() as u16);
    assert!(narrow.bar);
    assert_eq!(wide.content_rows, lines.len() as u16);
    assert!(!wide.bar);
    assert_eq!(widest, wide);
}

#[test]
fn tv_shows_what_is_next_to_an_item() {
    let season = ItemDetail {
        siblings: vec![named("s2", "Season 2", "Season")],
        genres: vec!["Drama".to_string()],
        ..Default::default()
    };
    let (title, lines) = pick_tv_bottom(Some(&season));
    assert_eq!(title, " Seasons ");
    assert_eq!(text_of(&lines[0]), "Season 2");
    let episode = ItemDetail {
        siblings: vec![named("e2", "Pilot", "Episode"), named("e3", "Finale", "Episode")],
        ..Default::default()
    };
    let (title, lines) = pick_tv_bottom(Some(&episode));
    assert_eq!(title, " More ");
    assert_eq!(lines.len(), 2);
    assert_eq!(text_of(&lines[1]), "Finale");
    let series = ItemDetail {
        children: vec![named("s1", "Season 1", "Season")],
        genres: vec!["Drama".to_string(), "Crime".to_string()],
        ..Default::default()
    };
    let (title, lines) = pick_tv_bottom(Some(&series));
    assert_eq!(title, " More ");
    assert_eq!(text_of(&lines[0]), "Genres: Drama, Crime");
    assert_eq!(pick_tv_top(Some(&series)).0, " Seasons ");
}

#[test]
fn cast_and_crew_are_listed_apart() {
    let actor = Person {
        id: None,
        name: "Neo Reeves".to_string(),
        role: Some("Neo".to_string()),
        kind: Some("Actor".to_string()),
    };
    let director = Person {
        id: None,
        name: "Lana".to_string(),
        role: None,
        kind: Some("Director".to_string()),
    };
    let detail = ItemDetail { cast: vec![actor, director], ..Default::default() };
    let cast = cast_lines(Some(&detail));
    let crew = credits_lines(Some(&detail));
    assert!(cast.iter().any(|row| text_of(row).contains("Neo Reeves")));
    assert!(!cast.iter().any(|row| text_of(row).contains("Lana")));
    assert!(crew.iter().any(|row| text_of(row).contains("Lana")));
    assert!(!crew.iter().any(|row| text_of(row).contains("Neo Reeves")));
}

#[test]
fn the_queue_lists_what_plays_first() {
    let current = named("a", "Track A", "Audio");
    let upcoming = [named("b", "Track B", "Audio")];
    let rows = queue_lines(Some(&current), None, &upcoming);
    let a = rows.iter().position(|row| text_of(row).contains("Track A")).unwrap();
    let b = rows.iter().position(|row| text_of(row).contains("Track B")).unwrap();
    assert!(a < b);
    assert_ne!(queue_title(RepeatMode::Off, false), queue_title(RepeatMode::All, true));
}

#[test]
fn tracklists_number_their_rows() {
    let tracks = vec![
        Item { track_number: Some(7), is_favorite: true, ..named("a", "One", "Audio") },
        Item { run_time_ticks: Some(83 * 10_000_000), ..named("b", "Two", "Audio") },
    ];
    assert!(is_all_audio(&tracks));
    let rows = track_table(&tracks);
    assert_eq!(rows[0].number.trim(), "7");
    assert_eq!(rows[1].number.trim(), "2");
    assert_eq!(rows[0].title, "One");
    assert_eq!(rows[1].length, "1:23");
    assert_ne!(rows[0].favorite, rows[1].favorite);
    assert!(!is_all_audio(&vec![named("c", "Film", "Movie")]));
}

#[test]
fn lengths_are_written_out() {
    assert_eq!(format_track_length(83 * 10_000_000).as_deref(), Some("1:23"));
    assert_eq!(format_track_length(0), None);
    assert_eq!(format_chapter_timestamp(3_725 * 10_000_000), "1:02:05");
    assert_eq!(format_runtime(136 * 60 * 10_000_000).as_deref(), Some("2h 16m"));
    assert_eq!(format_runtime(45 * 60 * 10_000_000).as_deref(), Some("45m"));
    assert_eq!(format_duration(None), None);
}

#[test]
fn the_bar_says_whether_it_plays() {
    let mut np = np_audio();
    assert!(state_text(&np).contains("vol 80%"));
    np.paused = true;
    let paused = state_text(&np);
    np.paused = false;
    assert_ne!(paused, state_text(&np));
    assert!(cover_width(100, 5) <= 100);
}

#[test]
fn the_screen_is_split_into_three_rows() {
    let regions = compute(Area { x: 0, y: 0, width: 100, height: 30 });
    assert_eq!(regions.now_playing, Area { x: 0, y: 24, width: 100, height: 5 });
    assert_eq!(regions.status, Area { x: 0, y: 29, width: 100, height: 1 });
    assert_eq!(regions.sidebar.height, 24);
    assert_eq!(regions.sidebar.width + regions.list.width + regions.detail.width, 100);
    assert_eq!(regions.list.x, regions.sidebar.width);
}

fn nearest(cells: u16, percent: u16) -> u16 {
    ((u32::from(cells) * u32::from(percent) + 50) / 100) as u16
}

#[test]
fn the_panes_share_every_width() {
    let mut widths: Vec<u16> = (0..=260).collect();
    widths.extend([999, 1000, 1333, 4097, 32767, 65533]);
    for width in widths {
        for x in [0, 2] {
            let regions = compute(Area { x, y: 1, width, height: 20 });
            let first = nearest(width, 25);
            let second = nearest(width, 65);
            let pane = |from: u16, to: u16| Area { x: x + from, y: 1, width: to - from, height: 14 };
            assert_eq!(regions.sidebar, pane(0, first), "{width}");
            assert_eq!(regions.list, pane(first, second), "{width}");
            assert_eq!(regions.detail, pane(second, width), "{width}");
        }
    }
}

#[test]
fn low_screens_keep_the_order_of_the_rows() {
    for height in 0..=6 {
        let regions = compute(Area { x: 3, y: 2, width: 30, height });
        assert!(regions.sidebar.y >= 2);
        assert!(regions.sidebar.y + regions.sidebar.height <= regions.now_playing.y);
        assert!(regions.now_playing.y + regions.now_playing.height <= regions.status.y);
        assert!(regions.status.y + regions.status.height <= 2 + height);
    }
}

#[test]
fn areas_past_the_last_cell_are_cut_off() {
    let regions = compute(Area { x: 65530, y: 65500, width: 10, height: 100 });
    assert_eq!(regions.status, Area { x: 65530, y: 65534, width: 10, height: 1 });
    assert_eq!(regions.now_playing, Area { x: 65530, y: 65529, width: 10, height: 5 });
    assert_eq!(regions.detail.x + regions.detail.width, 65535);
    assert_eq!(regions.list.x, 65531);
    assert_eq!(regions.detail.x, 65533);
    let center = centered_rect(100, 100, Area { x: 65530, y: 65500, width: 10, height: 100 });
    assert_eq!(center, Area { x: 65530, y: 65500, width: 5, height: 35 });
}

#[test]
fn popups_take_their_percentage() {
    let mut sizes: Vec<u16> = (0..=130).collect();
    sizes.extend([1000, 4999, 40001]);
    for size in sizes {
        for percent in [0, 1, 33, 40, 50, 51, 60, 99, 100] {
            let center = centered_rect(percent, 50, Area { x: 4, y: 0, width: size, height: size });
            let margin = (100 - percent) / 2;
            assert_eq!(center.x, 4 + nearest(size, margin), "{percent}% of {size}");
            assert_eq!(
                center.x + center.width,
                4 + nearest(size, margin + percent),
                "{percent}% of {size}"
            );
            assert_eq!(center.y, nearest(size, 25));
            assert_eq!(center.y + center.height, nearest(size, 75));
        }
    }
}

#[test]
fn popups_are_centered() {
    let center = centered_rect(50, 50, Area { x: 0, y: 0, width: 100, height: 40 });
    assert_eq!(center, Area { x: 25, y: 10, width: 50, height: 20 });
    let overview = sized_center(10, Area { x: 0, y: 0, width: 100, height: 40 });
    assert_eq!(overview, Area { x: 20, y: 14, width: 60, height: 12 });
}

#[test]
fn folders_look_unlike_leaves() {
    let album = Item { is_folder: true, ..named("a", "Discovery", "MusicAlbum") };
    let track = named("t", "One More Time", "Audio");
    assert_ne!(item_kind_decor(&album).glyph, item_kind_decor(&track).glyph);
    assert!(text_of(&item_kind_decor(&track).line_spans(&track)).contains("One More Time"));
}

#[test]
fn lists_say_why_they_are_empty() {
    let loading = Level::awaiting("Albums".to_string(), "p".to_string());
    let empty = Level::ready("Albums".to_string(), "p".to_string(), vec![]);
    let full = Level::ready("Albums".to_string(), "p".to_string(), vec![named("a", "A", "Audio")]);
    assert!(matches!(library_items::body(Some(&loading)), library_items::ListBody::Message(_)));
    assert!(matches!(library_items::body(Some(&empty)), library_items::ListBody::Message(_)));
    match library_items::body(Some(&full)) {
        library_items::ListBody::Rows(rows, selected) => {
            assert_eq!(rows.len(), 1);
            assert_eq!(selected, 0);
        }
        other => panic!("expected rows, got {other:?}"),
    }
    match list::body(Some(&full), &vec![0]) {
        library_items::ListBody::Rows(rows, _) => assert!(text_of(&rows[0]).contains('A')),
        other => panic!("expected rows, got {other:?}"),
    }
}

#[test]
fn home_greets_by_the_hour() {
    assert_eq!(hour_at(Some(Duration::from_secs(86_400 * 3 + 7 * 3600))), 7);
    assert_eq!(hour_at(None), 12);
    assert_ne!(greeting_for_hour(8), greeting_for_hour(20));
    let home = HomeData::default();
    assert!(!welcome_lines(&home, Some("Den"), 8).is_empty());
}

#[test]
fn the_focused_tile_stays_on_the_screen() {
    let band = Area { x: 0, y: 0, width: 60, height: 5 };
    let tiles = visible_tiles(20, Some(13), band);
    assert!(tiles.iter().any(|(col, _)| *col == 13));
    assert!(tiles.iter().all(|(_, area)| area.x + area.width <= 60));
    let rows = visible_rows(9, 8, Area { x: 0, y: 0, width: 60, height: 20 });
    assert!(rows.iter().any(|(row, _)| *row == 8));
}

#[test]
fn tiles_show_initials_and_short_names() {
    assert_eq!(initials_for("daft punk"), "DP");
    assert_eq!(clip("short", 10), "short");
    assert_eq!(clip("a long name", 6).chars().count(), 6);
    let item = Item { production_year: Some(1999), ..named("m", "The Matrix", "Movie") };
    assert_eq!(subtitle_for(HomeRowKind::Recent, &item), "1999");
    assert_eq!(subtitle_for(HomeRowKind::Libraries, &item), "movie");
    let area = Area { x: 0, y: 0, width: 18, height: 5 };
    assert!(tile(HomeRowKind::Resume, &item, area, true, true).is_some());
}
