//! Queries to the server and what becomes of its answers.

use aquafin::ui::app::{
    App, HomeRowKind, Item, Library, Pane, Section, SectionFilters, VideoTrackKind,
};
use aquafin::ui::browse::{
    build_track_entries, copy_url_result, dislike_result, folder_query, folder_result,
    format_track_label, format_version_label, genre_radio_query, global_search_result, home_result,
    instant_mix_result, item_from_hint, library_meta, playlist_entries, search_query,
    section_query, section_result, BrowseResult, HomeFetch, LibraryFetch, MediaSource, MediaStream,
    SearchHint, UserView,
};
use aquafin::ui::keymap::{KeyCode, KeyEvent, KeyModifiers};
use aquafin::video::TrackChoice;

fn item(id: &str, name: &str, kind: &str) -> Item {
    Item {
        id: id.to_string(),
        name: name.to_string(),
        kind: Some(kind.to_string()),
        ..Default::default()
    }
}

#[test]
fn fetch_section_items_passes_filter_and_maps_items() {
    let section = Section {
        name: "Albums".to_string(),
        item_types: vec!["MusicAlbum".to_string()],
        sort_by: vec!["SortName".to_string()],
    };
    let query = section_query("lib1", &section, &SectionFilters::default());
    assert_eq!(query.parent_id.as_deref(), Some("lib1"));
    assert_eq!(query.include_item_types, vec!["MusicAlbum".to_string()]);
    assert_eq!(query.recursive, Some(true));
    let answer = vec![
        item("a1", "Discovery", "MusicAlbum"),
        item("a2", "Random Access Memories", "MusicAlbum"),
    ];
    match section_result("lib1".to_string(), "Music", "Albums", Ok(answer)) {
        BrowseResult::Section { items, .. } => {
            assert_eq!(items.len(), 2);
            assert_eq!(items[0].name, "Discovery");
            assert_eq!(items[0].id, "a1");
        }
        other => panic!("expected a filled section, got {other:?}"),
    }
}

#[test]
fn fetch_section_items_drops_recursive_for_empty_filter() {
    // The "All" section has no item-type filter; we expect recursive=false
    // so the server returns the library's direct children only.
    let section = Section {
        name: "All".to_string(),
        item_types: Vec::new(),
        sort_by: vec!["SortName".to_string()],
    };
    let query = section_query("lib1", &section, &SectionFilters::default());
    assert_eq!(query.parent_id.as_deref(), Some("lib1"));
    assert_eq!(query.recursive, Some(false));
    match section_result("lib1".to_string(), "Lib", "All", Ok(vec![item("x", "Root", "Folder")])) {
        BrowseResult::Section { items, .. } => assert_eq!(items[0].name, "Root"),
        other => panic!("expected a filled section, got {other:?}"),
    }
}

#[test]
fn build_track_entries_lists_audio_with_per_type_index() {
    let streams = vec![
        MediaStream {
            type_: Some("Video".to_string()),
            index: 0,
            ..Default::default()
        },
        MediaStream {
            type_: Some("Audio".to_string()),
            index: 1,
            language: Some("eng".to_string()),
            channel_layout: Some("5.1".to_string()),
            is_default: Some(true),
            ..Default::default()
        },
        MediaStream {
            type_: Some("Audio".to_string()),
            index: 2,
            language: Some("jpn".to_string()),
            ..Default::default()
        },
        MediaStream {
            type_: Some("Subtitle".to_string()),
            index: 3,
            language: Some("eng".to_string()),
            ..Default::default()
        },
    ];
    let audio = build_track_entries(&streams, VideoTrackKind::Audio);
    assert!(matches!(audio[0].choice, TrackChoice::Auto));
    assert!(matches!(audio[1].choice, TrackChoice::Pick(1)));
    assert!(matches!(audio[2].choice, TrackChoice::Pick(2)));
    assert_eq!(audio.len(), 3, "no Off for audio");

    let subs = build_track_entries(&streams, VideoTrackKind::Subtitle);
    assert!(matches!(subs[0].choice, TrackChoice::Auto));
    assert!(matches!(subs[1].choice, TrackChoice::Off));
    assert!(matches!(subs[2].choice, TrackChoice::Pick(1)));
    assert_eq!(subs.len(), 3);
}

#[test]
fn item_from_hint_uses_item_id_then_id_then_drops() {
    let hint = SearchHint {
        item_id: Some("a".to_string()),
        id: Some("b".to_string()),
        name: Some("Track".to_string()),
        type_: Some("Audio".to_string()),
    };
    let item = item_from_hint(hint).expect("hint with item_id maps");
    assert_eq!(item.id, "a");
    assert_eq!(item.name, "Track");
    assert_eq!(item.kind.as_deref(), Some("Audio"));

    let no_item_id = SearchHint {
        item_id: None,
        id: Some("fallback".to_string()),
        ..Default::default()
    };
    assert_eq!(item_from_hint(no_item_id).unwrap().id, "fallback");

    let no_id = SearchHint::default();
    assert!(item_from_hint(no_id).is_none());
}

#[test]
fn item_from_hint_supplies_placeholder_name() {
    let hint = SearchHint {
        item_id: Some("x".to_string()),
        name: None,
        ..Default::default()
    };
    assert_eq!(item_from_hint(hint).unwrap().name, "(untitled)");
}

#[test]
fn folders_are_listed_in_playing_order() {
    let query = folder_query("f1");
    assert_eq!(query.parent_id.as_deref(), Some("f1"));
    assert_eq!(query.sort_by, vec!["ParentIndexNumber", "IndexNumber", "SortName"]);
    assert_eq!(query.limit, Some(500));
    let search = search_query("lib1", "neo", &vec!["Movie".to_string()]);
    assert_eq!(search.search_term.as_deref(), Some("neo"));
    assert_eq!(search.recursive, Some(true));
    let radio = genre_radio_query("lib1", "House");
    assert_eq!(radio.genres, vec!["House".to_string()]);
    assert_eq!(radio.sort_by, vec!["Random".to_string()]);
}

#[test]
fn filters_widen_a_plain_section() {
    let section = Section { name: "All".to_string(), item_types: vec![], sort_by: vec![] };
    let filters = SectionFilters { genres: vec!["House".to_string()], ..Default::default() };
    assert_eq!(section_query("lib1", &section, &filters).recursive, Some(true));
    let sorted = SectionFilters {
        sort_override: Some(vec!["DateCreated".to_string()]),
        ..Default::default()
    };
    assert_eq!(section_query("lib1", &section, &sorted).sort_by, vec!["DateCreated".to_string()]);
}

#[test]
fn tracks_and_versions_are_described() {
    let stream = MediaStream {
        type_: Some("Audio".to_string()),
        language: Some("eng".to_string()),
        ..Default::default()
    };
    assert!(format_track_label(&stream, 1).starts_with("#1  ·  "));
    let titled = MediaStream {
        display_title: Some("English 5.1".to_string()),
        is_default: Some(true),
        ..stream
    };
    assert_eq!(format_track_label(&titled, 2), "#2  English 5.1  (default)");
    let version = MediaSource {
        id: Some("s".to_string()),
        name: None,
        container: Some("mkv".to_string()),
        size_label: Some("1.2 GB".to_string()),
        media_streams: vec![],
    };
    assert_eq!(format_version_label(&version), "MKV  ·  1.2 GB");
}

#[test]
fn pickers_list_what_the_server_has() {
    let views = vec![
        UserView { id: "a".to_string(), name: Some("Movies".to_string()), collection_type: None },
        UserView { id: "b".to_string(), name: None, collection_type: None },
    ];
    assert_eq!(
        library_meta(&views, &Some(vec!["b".to_string()])),
        vec![
            ("a".to_string(), "Movies".to_string(), false),
            ("b".to_string(), "(library)".to_string(), true),
        ]
    );
    assert!(library_meta(&views, &None).iter().all(|entry| entry.2));
    let lists = playlist_entries(&vec![("p".to_string(), Some("Drive Mix".to_string()))]);
    assert_eq!(lists, vec![("p".to_string(), "Drive Mix".to_string())]);
}

#[test]
fn a_failed_section_of_home_stays_empty() {
    let fetch = HomeFetch {
        resume: None,
        next_up: Some(vec![item("n", "Next", "Episode")]),
        latest: None,
        libraries: vec![LibraryFetch {
            id: "lib".to_string(),
            name: "Lib".to_string(),
            collection_type: None,
            recent: None,
            item_count: None,
        }],
    };
    match home_result(fetch) {
        BrowseResult::Home(home) => {
            assert!(home.resume.is_empty());
            assert_eq!(home.next_up[0].name, "Next");
            assert_eq!(home.recent_per_library[0].item_count, 0);
            assert!(!home.loading);
        }
        other => panic!("expected a dashboard, got {other:?}"),
    }
}

fn one_folder() -> App {
    App::with_libraries(vec![Library {
        id: "lib".to_string(),
        name: "Lib".to_string(),
        collection_type: None,
        items: vec![Item { is_folder: true, ..item("series", "Severance", "Series") }],
    }])
}

fn enter(app: &mut App) {
    app.handle_key(KeyEvent::new(KeyCode::Enter, KeyModifiers::empty()));
    app.take_intents();
}

#[test]
fn answers_reach_the_level_that_asked() {
    let mut app = one_folder();
    enter(&mut app);
    app.apply_result(folder_result("series".to_string(), Ok(vec![item("s1", "Season 1", "Season")])));
    assert_eq!(app.current_level().unwrap().items[0].name, "Season 1");
    // A folder that is no longer open takes nothing.
    app.apply_result(folder_result("elsewhere".to_string(), Ok(vec![])));
    assert_eq!(app.current_level().unwrap().items.len(), 1);
}

#[test]
fn a_failed_answer_drops_the_loading_level_and_tells_why() {
    let mut app = one_folder();
    enter(&mut app);
    app.apply_result(folder_result("series".to_string(), Err("timed out".to_string())));
    assert!(!app.is_drilled());
    assert_eq!(app.error.as_deref(), Some("Couldn't open folder: timed out"));
}

#[test]
fn mixes_hold_tracks_only_and_start_at_the_first() {
    let mixed = vec![item("v", "Film", "Movie"), item("a", "One", "Audio"), item("b", "Two", "Audio")];
    let result = instant_mix_result(Ok(mixed));
    let mut app = one_folder();
    app.apply_result(result);
    assert_eq!(app.queue.len(), 2);
    assert_eq!(app.current_queue_track().unwrap().name, "One");
    assert!(matches!(instant_mix_result(Ok(vec![])), BrowseResult::Error(_)));
    assert!(matches!(instant_mix_result(Err("x".to_string())), BrowseResult::Error(_)));
}

#[test]
fn small_answers_become_notes() {
    assert!(dislike_result(Ok(())).is_none());
    assert!(matches!(
        dislike_result(Err("no".to_string())),
        Some(BrowseResult::Error(message)) if message == "Dislike failed: no"
    ));
    assert!(matches!(
        copy_url_result("Thing", true),
        BrowseResult::Status(note) if note == "Copied URL: Thing"
    ));
    assert!(matches!(copy_url_result("Thing", false), BrowseResult::Error(_)));
}

#[test]
fn server_wide_hits_arrive_for_the_query_they_answer() {
    let mut app = one_folder();
    app.enter_global_search();
    app.handle_key(KeyEvent::new(KeyCode::Char('a'), KeyModifiers::empty()));
    enter(&mut app);
    let hint = SearchHint { id: Some("h".to_string()), ..Default::default() };
    app.apply_result(global_search_result("other".to_string(), Ok(vec![hint.clone()])));
    assert!(app.global_search_state().results.is_empty());
    app.apply_result(global_search_result("a".to_string(), Ok(vec![hint])));
    assert_eq!(app.global_search_state().results[0].id, "h");
    assert_eq!(app.focus, Pane::GlobalSearch);
}

#[test]
fn home_rows_follow_the_dashboard() {
    let mut app = one_folder();
    app.apply_result(home_result(HomeFetch {
        resume: Some(vec![item("m", "The Matrix", "Movie")]),
        next_up: None,
        latest: None,
        libraries: vec![],
    }));
    let rows = app.home_rows();
    assert_eq!(rows[0].kind, HomeRowKind::Resume);
    assert_eq!(rows[0].items[0].name, "The Matrix");
    assert!(app.home_cursor_valid());
}
