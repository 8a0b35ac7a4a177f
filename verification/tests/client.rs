//! The client as its user sees it: key presses and fetched payloads in, state,
//! intents and text on the screen out.

use aquafin::config::RepeatModePref;
use aquafin::string_map::StringMap;
use aquafin::theme::Theme;
use aquafin::time::Duration;
use aquafin::ui::app::{
    sections_for, App, ContextTopView, Intent, Item, ItemDetail, ItemMenuAction, Library, MediaKind,
    MediaOptionsCursor, MediaVersion, NowPlaying, Pane, Person, RepeatMode, TrackPickerEntry,
    VideoTrackKind,
};
use aquafin::ui::cheatsheet::{cheatsheet_lines, overview_title};
use aquafin::ui::keymap::{KeyCode, KeyEvent, KeyModifiers};
use aquafin::ui::lines::Span;
use aquafin::ui::now_playing::{format_times, idle_text, second_line, state_text, title_line};
use aquafin::ui::panes::content::ContentBody;
use aquafin::ui::panes::context_pane::{
    bottom_kind, bottom_pane, info_lines, lyrics_pane, scroll_view, top_kind, top_pane, BottomInput,
    TopKind,
};
use aquafin::ui::panes::library_items::ListBody;
use aquafin::ui::panes::{content, library_items, sidebar};
use aquafin::ui::screen::{pane_name, Overlay};
use aquafin::video::TrackChoice;

fn press(code: KeyCode) -> KeyEvent {
    KeyEvent::new(code, KeyModifiers::empty())
}

fn text_of(rows: &[Vec<Span>]) -> String {
    let mut out = String::new();
    for row in rows {
        for piece in row {
            out.push_str(&piece.text);
        }
        out.push('\n');
    }
    out
}

/// Every text on the screen, pane by pane.
fn shown(app: &App) -> String {
    let mut out = String::new();
    for name in sidebar::rows(&app.libraries) {
        out.push_str(&name);
        out.push('\n');
    }
    out.push_str(&library_items::title(app.root_level(), &app.root_title()));
    match library_items::body(app.root_level()) {
        ListBody::Message(words) => out.push_str(words),
        ListBody::Rows(rows, _) => out.push_str(&text_of(&rows)),
    }
    out.push_str(pane_name(Pane::LibrarySections));
    for section in app.current_sections() {
        out.push_str(&section.name);
        out.push('\n');
    }
    out.push_str(&content::title(app.drilled_level()));
    match content::body(app.drilled_level()) {
        ContentBody::Message(words) => out.push_str(words),
        ContentBody::Rows(rows, _) => out.push_str(&text_of(&rows)),
        ContentBody::Tracks(rows, _) => {
            for row in rows {
                out.push_str(&row.title);
                out.push('\n');
            }
        }
    }
    let detail = app.current_detail();
    let top = match top_kind(app.collection_type(), app.context_view()) {
        TopKind::Lyrics => lyrics_pane(detail, None, 20),
        kind => top_pane(kind, app.current_item(), detail, app.context_top_scroll()),
    };
    out.push_str(&top.title);
    out.push_str(&text_of(&top.lines));
    let bottom = bottom_pane(
        bottom_kind(app.collection_type()),
        &BottomInput {
            detail,
            playing: app.now_playing.as_ref(),
            current: app.current_queue_track(),
            upcoming: app.upcoming_queue(),
            repeat_mode: app.repeat_mode,
            shuffle: app.shuffle,
            scroll: app.context_bottom_scroll(),
        },
    );
    out.push_str(&bottom.title);
    out.push_str(&text_of(&bottom.lines));
    if let Some(words) = idle_text(app.now_playing.as_ref()) {
        out.push_str(words);
    }
    if let Some(playing) = &app.now_playing {
        out.push_str(&text_of(&[title_line(playing)]));
        out.push_str(&second_line(playing).unwrap_or_default());
        out.push_str(&state_text(playing));
        out.push_str(&format_times(playing));
    }
    let status = app.status_line();
    out.push_str(&status.left);
    out.push_str(status.hint.unwrap_or_default());
    match app.overlay() {
        Overlay::Nothing => {}
        Overlay::Error(message, _) => out.push_str(&message),
        Overlay::Themes(names, _) => out.push_str(&names.join("\n")),
        Overlay::Menu(title, entries, _) => {
            out.push_str(title);
            out.push_str(&entries.join("\n"));
        }
        Overlay::Help => {
            out.push_str(overview_title());
            out.push_str(&text_of(&cheatsheet_lines(&app.keymap.describe())));
        }
    }
    out
}

#[test]
fn tab_cycles_focus_with_wrap_around() {
    // Tab walks forward across active panes; Shift+Tab walks back. Both
    // wrap. Inactive context panes (no revealed item, empty queue) are
    // skipped so Tab never lands on a dead placeholder.
    let mut app = App::new();
    assert_eq!(app.focus, Pane::LibraryItems);
    app.handle_key(press(KeyCode::Tab));
    assert_eq!(app.focus, Pane::LibrarySections);
    app.handle_key(press(KeyCode::Tab));
    assert_eq!(app.focus, Pane::Content);
    // Context panes are inactive without a revealed item / queued track,
    // so Tab wraps back to the TopBar.
    app.handle_key(press(KeyCode::Tab));
    assert_eq!(app.focus, Pane::TopBar);
    app.handle_key(press(KeyCode::Tab));
    assert_eq!(app.focus, Pane::LibraryItems);
    // Shift+Tab wraps the other direction.
    app.handle_key(press(KeyCode::BackTab));
    assert_eq!(app.focus, Pane::TopBar);
    app.handle_key(press(KeyCode::BackTab));
    assert_eq!(app.focus, Pane::Content);
}

#[test]
fn left_right_arrows_act_as_back_and_activate() {
    // Right activates (like Enter); Left goes back (like Backspace).
    // Pane cycling is reserved for Tab / Shift+Tab.
    let mut app = App::new();
    assert_eq!(app.focus, Pane::LibraryItems);
    // From a non-drilled library root, Left walks up to the top bar.
    app.handle_key(press(KeyCode::Left));
    assert_eq!(app.focus, Pane::TopBar);
}

#[test]
fn arrow_keys_move_selection_in_library_items() {
    // Focus starts on LibraryItems, so Down/Up walk the items list.
    let mut app = App::new();
    app.handle_key(press(KeyCode::Down));
    assert_eq!(app.current_level().unwrap().selected, 1);
    app.handle_key(press(KeyCode::Up));
    assert_eq!(app.current_level().unwrap().selected, 0);
    app.handle_key(press(KeyCode::Up)); // clamps at 0
    assert_eq!(app.current_level().unwrap().selected, 0);
}

#[test]
fn digit_keys_switch_library() {
    // Libraries are selected from the top bar via 1-9.
    let mut app = App::new();
    app.handle_key(press(KeyCode::Char('2')));
    assert_eq!(app.library_selected, 1);
    app.handle_key(press(KeyCode::Char('3')));
    assert_eq!(app.library_selected, 2);
    // Out-of-range digit is a no-op.
    app.handle_key(press(KeyCode::Char('9')));
    assert_eq!(app.library_selected, 2);
}

#[test]
fn switching_library_resets_list_cursor() {
    let mut app = App::new();
    app.handle_key(press(KeyCode::Down));
    assert_eq!(app.current_level().unwrap().selected, 1);
    app.handle_key(press(KeyCode::Char('2')));
    assert_eq!(app.library_selected, 1);
    assert_eq!(app.current_level().unwrap().selected, 0);
}

#[test]
fn home_and_end_jump_top_and_bottom_in_items() {
    let mut app = App::new();
    app.handle_key(press(KeyCode::End));
    let last = app.current_level().unwrap().items.len() - 1;
    assert_eq!(app.current_level().unwrap().selected, last);
    app.handle_key(press(KeyCode::Home));
    assert_eq!(app.current_level().unwrap().selected, 0);
}

#[test]
fn f1_opens_help_and_any_key_closes_it() {
    let mut app = App::new();
    app.handle_key(press(KeyCode::F(1)));
    assert!(app.show_help);
    app.handle_key(press(KeyCode::Down)); // any key closes; should not also move
    assert!(!app.show_help);
    assert_eq!(app.current_level().unwrap().selected, 0);
}

#[test]
fn q_requests_quit() {
    let mut app = App::new();
    app.handle_key(press(KeyCode::Char('q')));
    assert!(app.should_quit);
}

#[test]
fn space_toggles_pause_intent() {
    let mut app = App::new();
    app.handle_key(press(KeyCode::Char(' ')));
    assert_eq!(app.take_intents(), vec![Intent::TogglePause]);
}

#[test]
fn f_toggles_favorite_optimistically_and_emits_intent() {
    let mut app = app_with_item("Movie");
    app.handle_key(press(KeyCode::Char('f')));
    assert!(app.current_item().unwrap().is_favorite);
    assert_eq!(
        app.take_intents(),
        vec![Intent::SetFavorite { item_id: "id-Thing".into(), favorite: true }]
    );
    app.handle_key(press(KeyCode::Char('f')));
    assert!(!app.current_item().unwrap().is_favorite);
    assert_eq!(
        app.take_intents(),
        vec![Intent::SetFavorite { item_id: "id-Thing".into(), favorite: false }]
    );
}

fn typed_item(name: &str, kind: &str) -> Item {
    Item {
        id: format!("id-{name}"),
        name: name.to_string(),
        kind: Some(kind.to_string()),
        is_folder: matches!(
            kind,
            "Series" | "Season" | "MusicAlbum" | "MusicArtist" | "Playlist"
        ),
        ..Default::default()
    }
}

fn app_with_item(kind: &str) -> App {
    App::with_libraries(vec![Library {
        id: "lib".to_string(),
        name: "Lib".to_string(),
        collection_type: None,
        items: vec![typed_item("Thing", kind)],
    }])
}

#[test]
fn media_kind_classifies_types() {
    assert_eq!(MediaKind::classify(Some("Movie")), MediaKind::Video);
    assert_eq!(MediaKind::classify(Some("Episode")), MediaKind::Video);
    assert_eq!(MediaKind::classify(Some("Audio")), MediaKind::Audio);
    assert_eq!(MediaKind::classify(Some("Series")), MediaKind::Other);
    assert_eq!(MediaKind::classify(None), MediaKind::Other);
}

#[test]
fn enter_on_video_opens_media_options_view() {
    let mut app = app_with_item("Movie");
    app.handle_key(press(KeyCode::Enter));
    assert!(app.media_options_view().is_some());
    assert_eq!(app.focus, Pane::Content);
    let intents = app.take_intents();
    assert!(intents.iter().any(|i| matches!(i, Intent::LoadMediaOptions { .. })));
    assert!(intents.iter().any(|i| matches!(i, Intent::LoadCurrentDetail { .. })));
    assert!(!intents.iter().any(|i| matches!(i, Intent::Play { .. })));
}

#[test]
fn enter_on_audio_plays_directly() {
    let mut app = app_with_item("Audio");
    app.handle_key(press(KeyCode::Enter));
    assert!(matches!(
        app.take_intents().as_slice(),
        [Intent::Play { media: MediaKind::Audio, .. }]
    ));
}

#[test]
fn watch_trailer_row_emits_intent_when_trailer_url_present() {
    let mut app = app_with_item("Movie");
    app.handle_key(press(KeyCode::Enter));
    let _ = app.take_intents();
    app.set_media_options_view_data(
        "id-Thing",
        vec![],
        vec![TrackPickerEntry {
            label: "Auto".to_string(),
            choice: TrackChoice::Auto,
        }],
        vec![TrackPickerEntry {
            label: "Auto".to_string(),
            choice: TrackChoice::Auto,
        }],
    );
    app.set_current_detail(
        "id-Thing",
        ItemDetail {
            trailer_urls: vec!["https://youtu.be/abc".to_string()],
            ..Default::default()
        },
    );
    // Cursor starts on Audio(0); navigate to WatchTrailer (last row).
    loop {
        let cursor = app.media_options_view().unwrap().cursor;
        if matches!(cursor, MediaOptionsCursor::WatchTrailer) {
            break;
        }
        app.handle_key(press(KeyCode::Down));
    }
    app.handle_key(press(KeyCode::Enter));
    assert!(matches!(
        app.take_intents().as_slice(),
        [Intent::WatchTrailer { url, .. }] if url == "https://youtu.be/abc"
    ));
}

#[test]
fn media_options_play_row_emits_play_with_chosen_options() {
    let mut app = app_with_item("Movie");
    app.handle_key(press(KeyCode::Enter));
    let _ = app.take_intents();
    app.set_media_options_view_data(
        "id-Thing",
        vec![MediaVersion {
            source_id: "src-a".to_string(),
            label: "Original".to_string(),
        }],
        vec![
            TrackPickerEntry {
                label: "Auto".to_string(),
                choice: TrackChoice::Auto,
            },
            TrackPickerEntry {
                label: "#1 English".to_string(),
                choice: TrackChoice::Pick(1),
            },
        ],
        vec![TrackPickerEntry {
            label: "Off".to_string(),
            choice: TrackChoice::Off,
        }],
    );
    // Cursor lands on Audio(0) since there's only one version.
    // Navigate Down to Audio(1), commit (selects audio).
    app.handle_key(press(KeyCode::Down));
    app.handle_key(press(KeyCode::Enter));
    // Down → Subtitle(0), commit (selects Off subs).
    app.handle_key(press(KeyCode::Down));
    app.handle_key(press(KeyCode::Enter));
    // Down → Play, commit.
    app.handle_key(press(KeyCode::Down));
    app.handle_key(press(KeyCode::Enter));
    assert!(app.media_options_view().is_none());
    let intents = app.take_intents();
    let played = intents.iter().any(|i| matches!(i, Intent::Play { .. }));
    assert!(played, "Play intent should be emitted");
    let options = app.video_options_for("id-Thing");
    assert!(matches!(options.audio, Some(TrackChoice::Pick(1))));
    assert!(matches!(options.subtitle, Some(TrackChoice::Off)));
}

#[test]
fn enter_on_unplayable_item_sets_status_not_intent() {
    // A non-folder, non-media item (e.g. a photo): can't play, can't drill.
    let mut app = app_with_item("Photo");
    app.handle_key(press(KeyCode::Enter));
    assert!(app.take_intents().is_empty());
    let out = shown(&app);
    assert!(out.contains("Not playable: Thing"), "{out}");
}

#[test]
fn enter_on_folder_drills_in_and_queues_open() {
    let mut app = app_with_item("Series"); // a folder
    app.handle_key(press(KeyCode::Enter));
    // A loading level for the folder is pushed immediately…
    assert!(app.is_drilled());
    let level = app.current_level().unwrap();
    assert!(level.loading);
    assert_eq!(level.parent_id, "id-Thing");
    // …and an OpenFolder intent is queued for the loader (plus the
    // auto-reveal that fetches detail for the right-top info pane).
    let intents = app.take_intents();
    assert!(intents.iter().any(|i| matches!(i, Intent::LoadCurrentDetail { .. })));
    assert!(intents
        .iter()
        .any(|i| matches!(i, Intent::OpenFolder { id, .. } if id == "id-Thing")));
}

#[test]
fn fill_level_populates_then_back_pops() {
    let mut app = app_with_item("Series");
    app.handle_key(press(KeyCode::Enter)); // drill in (loading)
    let _ = app.take_intents();
    app.fill_level(
        "id-Thing",
        vec![typed_item("Season 1", "Season"), typed_item("Season 2", "Season")],
    );
    let level = app.current_level().unwrap();
    assert!(!level.loading);
    assert_eq!(level.items.len(), 2);
    assert_eq!(app.breadcrumb(), "Lib › Thing");
    // Backspace walks back up to the library root.
    app.handle_key(press(KeyCode::Backspace));
    assert!(!app.is_drilled());
    assert_eq!(app.current_item().map(|i| i.name.as_str()), Some("Thing"));
}

#[test]
fn enter_on_artist_in_music_library_keeps_current_item_on_artist() {
    let mut app = App::with_libraries(vec![Library {
        id: "music".to_string(),
        name: "Music".to_string(),
        collection_type: Some("music".to_string()),
        items: vec![typed_item("Daft Punk", "MusicArtist")],
    }]);
    app.handle_key(press(KeyCode::Enter));
    assert!(app.is_drilled());
    // Music does shift focus to Content, but the empty loading level
    // exposes its `parent_item`, so the info pane keeps rendering Daft
    // Punk until the artist's albums load.
    assert_eq!(app.focus, Pane::Content);
    assert_eq!(app.current_item().map(|i| i.name.as_str()), Some("Daft Punk"));
    assert!(app.current_item_revealed());
}

#[test]
fn drilled_level_stays_on_parent_until_cursor_moves() {
    let mut app = App::with_libraries(vec![Library {
        id: "music".to_string(),
        name: "Music".to_string(),
        collection_type: Some("music".to_string()),
        items: vec![typed_item("Discovery", "MusicAlbum")],
    }]);
    app.handle_key(press(KeyCode::Enter));
    let _ = app.take_intents();
    // Loader fills the drilled level with tracks.
    let parent_id = app.current_level().unwrap().parent_id.clone();
    app.fill_level(
        &parent_id,
        vec![
            Item { id: "t1".to_string(), name: "Track 1".to_string(), kind: Some("Audio".to_string()), ..Default::default() },
            Item { id: "t2".to_string(), name: "Track 2".to_string(), kind: Some("Audio".to_string()), ..Default::default() },
        ],
    );
    // Before any cursor move, the info pane stays pinned on Discovery.
    assert_eq!(app.current_item().map(|i| i.name.as_str()), Some("Discovery"));
    // A single Down flips cursor_engaged + moves the info pane onto the
    // first track.
    app.handle_key(press(KeyCode::Down));
    assert_eq!(app.current_item().map(|i| i.name.as_str()), Some("Track 2"));
}

#[test]
fn enter_on_album_keeps_current_item_on_album_until_tracks_load() {
    let mut app = App::with_libraries(vec![Library {
        id: "music".to_string(),
        name: "Music".to_string(),
        collection_type: Some("music".to_string()),
        items: vec![typed_item("Discovery", "MusicAlbum")],
    }]);
    app.handle_key(press(KeyCode::Enter));
    assert!(app.is_drilled());
    assert_eq!(app.focus, Pane::Content);
    assert_eq!(app.current_item().map(|i| i.name.as_str()), Some("Discovery"));
    assert!(app.current_item_revealed());
}

#[test]
fn enter_on_series_drills_and_shifts_focus_to_content() {
    let mut app = App::with_libraries(vec![Library {
        id: "tv".to_string(),
        name: "TV".to_string(),
        collection_type: Some("tvshows".to_string()),
        items: vec![typed_item("Severance", "Series")],
    }]);
    app.handle_key(press(KeyCode::Enter));
    assert!(app.is_drilled());
    assert_eq!(app.focus, Pane::Content);
    // Until the cursor engages in the drilled level, current_item stays on
    // the parent so the info pane keeps rendering Severance instead of a
    // blank child slot.
    assert_eq!(app.current_item().map(|i| i.name.as_str()), Some("Severance"));
    assert!(app.current_item_revealed());
}

#[test]
fn back_in_drilled_list_goes_up_a_level() {
    // Enter drills into the Series and moves focus to Content; Backspace
    // pops the drilled level and returns focus to the items pane.
    let mut app = app_with_item("Series");
    app.handle_key(press(KeyCode::Enter));
    let _ = app.take_intents();
    assert!(app.is_drilled());
    assert_eq!(app.focus, Pane::Content);
    app.handle_key(press(KeyCode::Backspace));
    assert!(!app.is_drilled());
    assert_eq!(app.focus, Pane::LibraryItems);
}

#[test]
fn drilling_renders_children_in_middle_pane_and_keeps_root_on_left() {
    // Drilling opens the children in the middle "Content" pane (titled
    // after the folder) while the left items pane stays on the library
    // root list.
    let mut app = App::with_libraries(vec![Library {
        id: "music".to_string(),
        name: "Music".to_string(),
        collection_type: Some("music".to_string()),
        items: vec![typed_item("Discovery", "MusicAlbum")],
    }]);
    app.handle_key(press(KeyCode::Enter)); // drill into Discovery
    let _ = app.take_intents();
    app.fill_level(
        "id-Discovery",
        vec![typed_item("One More Time", "Audio"), typed_item("Aerodynamic", "Audio")],
    );
    let out = shown(&app);
    // The left items pane still lists the album (root level).
    assert!(out.contains("Discovery"), "{out}");
    // The middle pane shows the folder's tracks.
    assert!(out.contains("One More Time"), "{out}");
    assert!(out.contains("Aerodynamic"), "{out}");
}

#[test]
fn cursor_in_middle_pane_walks_drilled_items() {
    let mut app = App::with_libraries(vec![Library {
        id: "music".to_string(),
        name: "Music".to_string(),
        collection_type: Some("music".to_string()),
        items: vec![typed_item("Album", "MusicAlbum")],
    }]);
    app.handle_key(press(KeyCode::Enter)); // drill, focus → Content
    let _ = app.take_intents();
    app.fill_level(
        "id-Album",
        vec![
            typed_item("Track A", "Audio"),
            typed_item("Track B", "Audio"),
            typed_item("Track C", "Audio"),
        ],
    );
    assert_eq!(app.focus, Pane::Content);
    app.handle_key(press(KeyCode::Down));
    assert_eq!(app.current_item().unwrap().name, "Track B");
    app.handle_key(press(KeyCode::Down));
    assert_eq!(app.current_item().unwrap().name, "Track C");
    // Enter on a drilled audio leaf queues a Play intent.
    app.handle_key(press(KeyCode::Enter));
    assert!(matches!(
        app.take_intents().as_slice(),
        [Intent::Play { media: MediaKind::Audio, item, .. }] if item.name == "Track C"
    ));
}

#[test]
fn enter_on_root_album_while_drilled_swaps_the_middle_pane() {
    // Opening a different album from the root list should replace the
    // drilled level rather than push another one on top.
    let mut app = App::with_libraries(vec![Library {
        id: "music".to_string(),
        name: "Music".to_string(),
        collection_type: Some("music".to_string()),
        items: vec![typed_item("Disc One", "MusicAlbum"), typed_item("Disc Two", "MusicAlbum")],
    }]);
    app.handle_key(press(KeyCode::Enter)); // drill into Disc One, focus → Content
    let _ = app.take_intents();
    assert_eq!(app.stack.len(), 2);
    // Walk back to the left items pane and pick the next album.
    app.focus = Pane::LibraryItems;
    app.handle_key(press(KeyCode::Down));
    app.handle_key(press(KeyCode::Enter));
    let _ = app.take_intents();
    // Still exactly one drilled level deep, now Disc Two.
    assert_eq!(app.stack.len(), 2);
    assert_eq!(app.stack.last().unwrap().parent_id, "id-Disc Two");
    assert_eq!(app.focus, Pane::Content);
}

#[test]
fn transport_keys_queue_intents() {
    let mut app = App::new();
    for code in [
        KeyCode::Char(' '),
        KeyCode::Char('s'),
        KeyCode::Char('+'),
        KeyCode::Char('-'),
        KeyCode::Char('>'),
        KeyCode::Char('<'),
    ] {
        app.handle_key(press(code));
    }
    assert_eq!(
        app.take_intents(),
        vec![
            Intent::TogglePause,
            Intent::Stop,
            Intent::VolumeUp,
            Intent::VolumeDown,
            Intent::SeekForward,
            Intent::SeekBackward,
        ]
    );
}

#[test]
fn now_playing_bar_renders_when_active() {
    let mut app = App::new();
    app.now_playing = Some(NowPlaying {
        item_id: "trk1".to_string(),
        kind: MediaKind::Audio,
        title: "Some Song".to_string(),
        subtitle: Some("Some Artist".to_string()),
        artist: None,
        album: None,
        format_summary: None,
        position: Duration::from_secs(30),
        duration: Some(Duration::from_secs(200)),
        paused: false,
        volume: Some(80),
    });
    let out = shown(&app);
    assert!(out.contains("Some Song"), "{out}");
    assert!(out.contains("Some Artist"));
    assert!(out.contains("vol 80%"));
    assert!(out.contains("0:30"));
}


#[test]
fn t_opens_theme_picker_and_enter_emits_set_theme() {
    let mut app = App::new().with_available_themes(vec![
        "default".to_string(),
        "catppuccin-mocha".to_string(),
    ]);
    app.handle_key(press(KeyCode::Char('t')));
    // Picker opens on the active theme ("default" → index 0).
    let (names, selected) = app.theme_picker().expect("picker open");
    assert_eq!(names, ["default", "catppuccin-mocha"]);
    assert_eq!(selected, 0);

    app.handle_key(press(KeyCode::Down));
    app.handle_key(press(KeyCode::Enter));
    assert!(app.theme_picker().is_none(), "Enter should close the picker");
    assert_eq!(
        app.take_intents().as_slice(),
        [Intent::SetTheme("catppuccin-mocha".into())]
    );
}

#[test]
fn esc_closes_theme_picker_without_intent() {
    let mut app = App::new().with_available_themes(vec!["default".into()]);
    app.handle_key(press(KeyCode::Char('t')));
    assert!(app.theme_picker().is_some());
    app.handle_key(press(KeyCode::Esc));
    assert!(app.theme_picker().is_none());
    assert!(app.take_intents().is_empty());
}

#[test]
fn set_theme_changes_active_theme_name() {
    let mut app = App::new();
    assert_eq!(app.theme.name(), "default");
    app.set_theme(Theme::named("catppuccin-latte"));
    assert_eq!(app.theme.name(), "catppuccin-latte");
}

#[test]
fn now_playing_bar_shows_idle_placeholder_when_nothing_plays() {
    // The bar is always present (fixed layout), showing an idle hint.
    let out = shown(&App::new());
    assert!(out.contains("Nothing playing"), "{out}");
}

#[test]
fn renders_panes_and_status_bar() {
    let out = shown(&App::new());
    assert!(out.contains("Content")); // middle pane title
    assert!(out.contains("Sections")); // left bottom pane title
    assert!(out.contains("Movies")); // top-bar library chip + items breadcrumb
    assert!(out.contains("The Matrix")); // a list item from the selected library
    assert!(out.contains("F1 help"));
}

#[test]
fn middle_pane_is_placeholder_until_drilled() {
    // Middle pane is reserved for an album/playlist/series' contents and
    // stays a placeholder until the user drills into a folder. The focused
    // item's metadata renders in the info pane (right column top) instead.
    let app = App::with_libraries(vec![Library {
        id: "movies".to_string(),
        name: "Movies".to_string(),
        collection_type: Some("movies".to_string()),
        items: vec![Item {
            id: "1".to_string(),
            name: "The Matrix".to_string(),
            overview: Some("Neo learns the truth.".to_string()),
            production_year: Some(1999),
            run_time_ticks: Some(136 * 60 * 10_000_000),
            kind: Some("Movie".to_string()),
            primary_image_tag: None,
            is_folder: false,
            is_favorite: false,
            is_played: false,
            normalization_gain_bits: None,
            album_id: None,
            album_name: None,
            primary_artist_id: None,
            primary_artist_name: None,
            track_number: None,
            play_count: 0,
        }],
    }]);
    let out = shown(&app);
    assert!(out.contains("Select an album"), "{out}");
    assert!(!out.contains("Neo learns the truth"), "{out}");
}

#[test]
fn selection_change_hides_revealed_details() {
    let mut app = App::with_libraries(vec![Library {
        id: "movies".to_string(),
        name: "Movies".to_string(),
        collection_type: Some("movies".to_string()),
        items: vec![
            Item { id: "1".to_string(), name: "A".to_string(), ..Default::default() },
            Item { id: "2".to_string(), name: "B".to_string(), ..Default::default() },
        ],
    }]);
    app.reveal_item("1".to_string());
    assert!(app.current_item_revealed());
    // clear_current_detail mirrors what the run loop does on selection move.
    app.clear_current_detail();
    assert!(!app.current_item_revealed());
}

#[test]
fn help_overlay_renders_grouped_bindings() {
    let mut app = App::new();
    app.show_help = true;
    // The cheatsheet has grown enough (Navigation/Playback/Queue/Library/
    // General + the Top-bar built-ins) that a 30-row buffer clips the
    // tail. Bump high enough to fit every group.
    let out = shown(&app);
    assert!(out.contains("Keybindings"));
    assert!(out.contains("Navigation"));
    assert!(out.contains("Queue"));
    assert!(out.contains("Quit"));
}

#[test]
fn help_overlay_lists_queue_bindings() {
    let mut app = App::new();
    app.show_help = true;
    let out = shown(&app);
    // Every action surfaces both its key glyph and its description so the
    // user can find shuffle/repeat/next/prev at a glance.
    assert!(out.contains("Next track"), "{out}");
    assert!(out.contains("Previous track"));
    assert!(out.contains("Toggle shuffle"));
    assert!(out.contains("Cycle repeat mode"));
}

#[test]
fn error_modal_captures_input_until_dismissed() {
    let mut app = App::new();
    app.show_error("network unreachable");
    assert!(app.error.is_some());
    // Navigation keys are swallowed while the modal is open.
    app.handle_key(press(KeyCode::Down));
    assert!(app.error.is_some());
    assert_eq!(app.library_selected, 0);
    // Enter dismisses it.
    app.handle_key(press(KeyCode::Enter));
    assert!(app.error.is_none());
}

#[test]
fn error_modal_copy_sets_copied_flag() {
    let mut app = App::new();
    app.show_error("boom");
    app.handle_key(press(KeyCode::Char('y')));
    assert_eq!(app.take_intents(), vec![Intent::CopyLogLocation]);
    // The loop answers whether the clipboard took it.
    app.set_error_copied(true);
    assert!(app.error_copied);
}

#[test]
fn sections_for_returns_kind_specific_lists() {
    let music = sections_for(Some("music"));
    let movies = sections_for(Some("movies"));
    assert!(music.iter().any(|s| s.name == "Albums"));
    assert!(music.iter().any(|s| s.name == "Album Artists"));
    assert!(movies.iter().any(|s| s.name == "Collections"));
    // The first section is always "All".
    assert_eq!(music[0].name, "All");
}

#[test]
fn arrows_move_section_selection_when_focused_on_sections() {
    let mut app = App::new();
    // Switch to the music library (3rd in the demo set) so sections exist.
    app.handle_key(press(KeyCode::Char('3')));
    app.focus = Pane::LibrarySections;
    app.handle_key(press(KeyCode::Down));
    assert_eq!(app.section_selected, 1);
    app.handle_key(press(KeyCode::Down));
    assert_eq!(app.section_selected, 2);
    app.handle_key(press(KeyCode::Up));
    assert_eq!(app.section_selected, 1);
}

#[test]
fn enter_on_section_queues_apply_section_intent() {
    let mut app = App::new();
    app.handle_key(press(KeyCode::Char('3'))); // music library
    // Drop the SaveLastLibrary intent the library switch just queued so
    // the rest of the assertions focus on the section flow.
    let _ = app.take_intents();
    app.focus = Pane::LibrarySections;
    app.handle_key(press(KeyCode::Down)); // Albums
    app.handle_key(press(KeyCode::Enter));
    let intents = app.take_intents();
    // apply_section emits the ApplySection fetch + a SaveSectionMemory
    // intent so the user's choice persists.
    assert_eq!(intents.len(), 2);
    match &intents[0] {
        Intent::ApplySection { library_id, section, .. } => {
            assert_eq!(library_id, "music");
            assert_eq!(section.name, "Albums");
        }
        other => panic!("expected ApplySection, got {other:?}"),
    }
    match &intents[1] {
        Intent::SaveSectionMemory(memory) => {
            assert_eq!(memory.get("music").map(String::as_str), Some("Albums"));
        }
        other => panic!("expected SaveSectionMemory, got {other:?}"),
    }
    // The root level is marked loading until the fetch returns.
    assert!(app.current_level().unwrap().loading);
}

#[test]
fn go_to_album_drills_into_parent_album() {
    let track = Item {
        id: "track-1".to_string(),
        name: "Get Lucky".to_string(),
        kind: Some("Audio".to_string()),
        album_id: Some("album-1".to_string()),
        album_name: Some("Random Access Memories".to_string()),
        ..Item::default()
    };
    let mut app = App::with_libraries(vec![Library {
        id: "music".to_string(),
        name: "Music".to_string(),
        collection_type: Some("music".to_string()),
        items: vec![track],
    }]);
    let entries = app.item_menu_entries();
    assert!(entries.iter().any(|(label, action)| {
        label == "Go to album: Random Access Memories"
            && *action == ItemMenuAction::GoToAlbum
    }));
    app.go_to_album();
    let level = app.current_level().unwrap();
    assert_eq!(level.parent_id, "album-1");
    assert_eq!(level.title, "Random Access Memories");
}

#[test]
fn go_to_artist_drills_into_primary_artist() {
    let track = Item {
        id: "track-1".to_string(),
        name: "Get Lucky".to_string(),
        kind: Some("Audio".to_string()),
        primary_artist_id: Some("artist-1".to_string()),
        primary_artist_name: Some("Daft Punk".to_string()),
        ..Item::default()
    };
    let mut app = App::with_libraries(vec![Library {
        id: "music".to_string(),
        name: "Music".to_string(),
        collection_type: Some("music".to_string()),
        items: vec![track],
    }]);
    let entries = app.item_menu_entries();
    assert!(entries.iter().any(|(label, action)| {
        label == "Go to artist: Daft Punk" && *action == ItemMenuAction::GoToArtist
    }));
    app.go_to_artist();
    let level = app.current_level().unwrap();
    assert_eq!(level.parent_id, "artist-1");
    assert_eq!(level.title, "Daft Punk");
}

#[test]
fn go_to_actions_hidden_when_no_artist_or_album() {
    let movie = Item {
        id: "1".to_string(),
        name: "The Matrix".to_string(),
        kind: Some("Movie".to_string()),
        ..Item::default()
    };
    let app = App::with_libraries(vec![Library {
        id: "movies".to_string(),
        name: "Movies".to_string(),
        collection_type: Some("movies".to_string()),
        items: vec![movie],
    }]);
    let entries = app.item_menu_entries();
    assert!(!entries
        .iter()
        .any(|(_, a)| matches!(a, ItemMenuAction::GoToAlbum | ItemMenuAction::GoToArtist)));
}

#[test]
fn search_scopes_to_current_section_item_types() {
    let mut app = App::new();
    // Switch to the music library and pick the "Albums" section so any
    // subsequent search is scoped to MusicAlbum.
    app.handle_key(press(KeyCode::Char('3')));
    app.focus = Pane::LibrarySections;
    app.handle_key(press(KeyCode::Down));
    app.handle_key(press(KeyCode::Enter));
    let _ = app.take_intents();
    app.focus = Pane::LibraryItems;

    app.handle_key(press(KeyCode::Char('/')));
    for c in "discovery".chars() {
        app.handle_key(press(KeyCode::Char(c)));
    }
    app.handle_key(press(KeyCode::Enter));

    let intents = app.take_intents();
    let search = intents
        .iter()
        .find_map(|i| match i {
            Intent::Search {
                query,
                item_types,
                scope_label,
            } => Some((query.clone(), item_types.clone(), scope_label.clone())),
            _ => None,
        })
        .expect("expected a Search intent");
    assert_eq!(search.0, "discovery");
    assert_eq!(search.1, vec!["MusicAlbum".to_string()]);
    assert_eq!(search.2, "Albums");
    assert_eq!(
        app.current_level().unwrap().title,
        "Search · Albums: discovery"
    );
}

#[test]
fn search_on_section_all_has_no_item_types() {
    let mut app = App::new();
    // Music library, default section is "All" (item_types empty).
    app.handle_key(press(KeyCode::Char('3')));
    let _ = app.take_intents();

    app.handle_key(press(KeyCode::Char('/')));
    for c in "x".chars() {
        app.handle_key(press(KeyCode::Char(c)));
    }
    app.handle_key(press(KeyCode::Enter));

    let intents = app.take_intents();
    let search = intents
        .iter()
        .find_map(|i| match i {
            Intent::Search {
                item_types,
                scope_label,
                ..
            } => Some((item_types.clone(), scope_label.clone())),
            _ => None,
        })
        .expect("expected a Search intent");
    assert!(search.0.is_empty());
    assert!(search.1.is_empty());
    assert_eq!(app.current_level().unwrap().title, "Search: x");
}

#[test]
fn slash_opens_search_input_and_chars_build_the_query() {
    let mut app = App::new();
    app.handle_key(press(KeyCode::Char('/')));
    assert_eq!(app.search_query.as_deref(), Some(""));
    assert_eq!(app.focus, Pane::TopBar);
    for c in "foo".chars() {
        app.handle_key(press(KeyCode::Char(c)));
    }
    assert_eq!(app.search_query.as_deref(), Some("foo"));
}

#[test]
fn search_input_backspace_and_esc() {
    let mut app = App::new();
    app.handle_key(press(KeyCode::Char('/')));
    for c in "foo".chars() {
        app.handle_key(press(KeyCode::Char(c)));
    }
    app.handle_key(press(KeyCode::Backspace));
    assert_eq!(app.search_query.as_deref(), Some("fo"));
    app.handle_key(press(KeyCode::Esc));
    assert!(app.search_query.is_none());
    assert_eq!(app.focus, Pane::LibraryItems);
}

#[test]
fn enter_in_search_fires_search_intent_with_query() {
    let mut app = App::new();
    app.handle_key(press(KeyCode::Char('/')));
    for c in "matrix".chars() {
        app.handle_key(press(KeyCode::Char(c)));
    }
    app.handle_key(press(KeyCode::Enter));
    let intents = app.take_intents();
    // Submitting a search remembers the query (SaveSearchHistory) then
    // kicks off the fetch (Search).
    assert_eq!(intents.len(), 2);
    match &intents[0] {
        Intent::SaveSearchHistory(history) => {
            assert_eq!(history.as_slice(), &["matrix".to_string()]);
        }
        other => panic!("expected SaveSearchHistory, got {other:?}"),
    }
    match &intents[1] {
        Intent::Search {
            query,
            item_types,
            scope_label,
        } => {
            assert_eq!(query, "matrix");
            // Default library has no collection type → only section
            // available is "All" with empty item_types.
            assert!(item_types.is_empty());
            assert!(scope_label.is_empty());
        }
        other => panic!("expected Search, got {other:?}"),
    }
    assert!(app.current_level().unwrap().loading);
    assert_eq!(app.current_level().unwrap().title, "Search: matrix");
}

#[test]
fn apply_root_items_fills_the_loading_root_level() {
    let mut app = App::new();
    // Trigger ApplySection so stack[0] becomes a loading root level.
    app.handle_key(press(KeyCode::Char('3'))); // music
    app.focus = Pane::LibrarySections;
    app.handle_key(press(KeyCode::Down));
    app.handle_key(press(KeyCode::Enter));
    let _ = app.take_intents();
    assert!(app.current_level().unwrap().loading);
    app.apply_root_items(
        "music",
        "Music · Albums".to_string(),
        vec![Item::demo("Discovery"), Item::demo("In Rainbows")],
    );
    let level = app.current_level().unwrap();
    assert!(!level.loading);
    assert_eq!(level.items.len(), 2);
    assert_eq!(level.title, "Music · Albums");
}

#[test]
fn build_queue_collects_audio_siblings_and_indexes_starter() {
    let mut app = App::with_libraries(vec![Library {
        id: "music".to_string(),
        name: "Music".to_string(),
        collection_type: Some("music".to_string()),
        items: vec![
            typed_item("Track A", "Audio"),
            typed_item("Folder", "MusicAlbum"),
            typed_item("Track B", "Audio"),
            typed_item("Track C", "Audio"),
        ],
    }]);
    let started = app.current_level().unwrap().items[2].clone(); // Track B
    app.build_queue_for(&started);
    // Audio-only items (skipping the folder), starter at index 1.
    assert_eq!(app.queue.iter().map(|i| i.name.as_str()).collect::<Vec<_>>(), vec!["Track A", "Track B", "Track C"]);
    assert_eq!(app.queue_index, Some(1));
    assert_eq!(app.current_queue_track().unwrap().name, "Track B");
    assert_eq!(
        app.upcoming_queue().iter().map(|i| i.name.as_str()).collect::<Vec<_>>(),
        vec!["Track C"],
    );
}

#[test]
fn advance_queue_walks_to_the_end() {
    let mut app = App::with_libraries(vec![Library {
        id: "music".to_string(),
        name: "Music".to_string(),
        collection_type: Some("music".to_string()),
        items: vec![typed_item("A", "Audio"), typed_item("B", "Audio")],
    }]);
    let starter = app.current_level().unwrap().items[0].clone();
    app.build_queue_for(&starter);
    let next = app.advance_queue().expect("one more track to play");
    assert_eq!(next.name, "B");
    assert_eq!(app.queue_index, Some(1));
    // No further tracks; second advance returns None and leaves the index
    // pinned at the last track.
    assert!(app.advance_queue().is_none());
    assert_eq!(app.queue_index, Some(1));
}

#[test]
fn repeat_mode_cycles_in_order() {
    assert_eq!(RepeatMode::Off.cycle(), RepeatMode::All);
    assert_eq!(RepeatMode::All.cycle(), RepeatMode::One);
    assert_eq!(RepeatMode::One.cycle(), RepeatMode::Off);
}

#[test]
fn r_key_cycles_repeat_mode_and_flashes_status() {
    let mut app = App::new();
    assert_eq!(app.repeat_mode, RepeatMode::Off);
    app.handle_key(press(KeyCode::Char('r')));
    assert_eq!(app.repeat_mode, RepeatMode::All);
    app.handle_key(press(KeyCode::Char('r')));
    assert_eq!(app.repeat_mode, RepeatMode::One);
    app.handle_key(press(KeyCode::Char('r')));
    assert_eq!(app.repeat_mode, RepeatMode::Off);
}

#[test]
fn z_key_toggles_shuffle() {
    let mut app = App::new();
    assert!(!app.shuffle);
    app.handle_key(press(KeyCode::Char('z')));
    assert!(app.shuffle);
    app.handle_key(press(KeyCode::Char('z')));
    assert!(!app.shuffle);
}

#[test]
fn shuffle_and_repeat_emit_save_audio_prefs_intents() {
    let mut app = App::new();
    app.handle_key(press(KeyCode::Char('r'))); // → Repeat::All
    app.handle_key(press(KeyCode::Char('z'))); // → shuffle on
    let intents = app.take_intents();
    assert!(matches!(
        intents.as_slice(),
        [
            Intent::SaveAudioPrefs { repeat_mode: RepeatMode::All, shuffle: false },
            Intent::SaveAudioPrefs { repeat_mode: RepeatMode::All, shuffle: true },
        ],
    ));
}

#[test]
fn with_audio_prefs_seeds_runtime_state() {
    let app = App::new().with_audio_prefs(RepeatMode::One, true);
    assert_eq!(app.repeat_mode, RepeatMode::One);
    assert!(app.shuffle);
}

#[test]
fn digit_switch_emits_save_last_library_intent() {
    let mut app = App::new();
    app.handle_key(press(KeyCode::Char('2')));
    assert!(matches!(
        app.take_intents().as_slice(),
        [Intent::SaveLastLibrary(id)] if id == "tv"
    ));
}

#[test]
fn with_last_library_restores_focused_library() {
    let app = App::new().with_last_library(Some("music".to_string()));
    assert_eq!(app.library_selected, 2);
    // Unknown id keeps the default selection rather than blowing up.
    let app = App::new().with_last_library(Some("nonexistent".to_string()));
    assert_eq!(app.library_selected, 0);
}

#[test]
fn search_history_cycles_with_up_and_down() {
    let mut app = App::new().with_search_history(vec![
        "matrix".to_string(),
        "neo".to_string(),
        "trinity".to_string(),
    ]);
    app.handle_key(press(KeyCode::Char('/')));
    // Up walks toward older entries.
    app.handle_key(press(KeyCode::Up));
    assert_eq!(app.search_query.as_deref(), Some("matrix"));
    app.handle_key(press(KeyCode::Up));
    assert_eq!(app.search_query.as_deref(), Some("neo"));
    app.handle_key(press(KeyCode::Up));
    assert_eq!(app.search_query.as_deref(), Some("trinity"));
    // Past the end of the list clamps.
    app.handle_key(press(KeyCode::Up));
    assert_eq!(app.search_query.as_deref(), Some("trinity"));
    // Down walks back toward the live query.
    app.handle_key(press(KeyCode::Down));
    assert_eq!(app.search_query.as_deref(), Some("neo"));
    app.handle_key(press(KeyCode::Down));
    assert_eq!(app.search_query.as_deref(), Some("matrix"));
    app.handle_key(press(KeyCode::Down));
    // Past the newest entry, back to a blank input.
    assert_eq!(app.search_query.as_deref(), Some(""));
}

#[test]
fn submitting_search_dedupes_and_caps_history() {
    let mut app = App::new().with_search_history(vec!["foo".to_string()]);
    app.handle_key(press(KeyCode::Char('/')));
    for c in "foo".chars() {
        app.handle_key(press(KeyCode::Char(c)));
    }
    app.handle_key(press(KeyCode::Enter));
    // "foo" was already in history; resubmitting moves it to the front
    // without duplicating.
    assert_eq!(app.search_history, vec!["foo".to_string()]);
}

#[test]
fn with_section_memory_restores_selected_section_on_startup() {
    // Pretend disk had "Music → Albums" saved from a prior session.
    let mut memory = StringMap::new();
    memory.insert("music".to_string(), "Albums".to_string());
    let mut app = App::new().with_section_memory(memory);
    // Start on Music so the section_selected reflects the restored value.
    app.handle_key(press(KeyCode::Char('3')));
    assert_eq!(app.section_selected, 1); // Albums is index 1 for music
}

#[test]
fn section_memory_persists_across_library_switches() {
    let mut app = App::new();
    // Switch to Music (index 2), apply the "Albums" section (index 1).
    app.handle_key(press(KeyCode::Char('3')));
    app.focus = Pane::LibrarySections;
    app.handle_key(press(KeyCode::Down));
    app.handle_key(press(KeyCode::Enter));
    let _ = app.take_intents();
    // Hop to Movies and back; the music library should remember Albums.
    app.handle_key(press(KeyCode::Char('1')));
    assert_eq!(app.section_selected, 0);
    app.handle_key(press(KeyCode::Char('3')));
    assert_eq!(app.section_selected, 1);
}

#[test]
fn repeat_mode_pref_round_trips() {
    for mode in [RepeatMode::Off, RepeatMode::All, RepeatMode::One] {
        let pref: RepeatModePref = mode.into();
        let back: RepeatMode = pref.into();
        assert_eq!(mode, back);
    }
}

#[test]
fn info_view_lists_artist_albums_and_appears_on_with_liked_marker() {
    let mut app = App::with_libraries(vec![Library {
        id: "music".to_string(),
        name: "Music".to_string(),
        collection_type: Some("music".to_string()),
        items: vec![Item {
            id: "artist-1".to_string(),
            name: "Daft Punk".to_string(),
            kind: Some("MusicArtist".to_string()),
            is_folder: true,
            ..Default::default()
        }],
    }]);
    app.reveal_item("artist-1".to_string());
    app.set_context_view(ContextTopView::Info);
    app.set_current_detail(
        "artist-1",
        ItemDetail {
            overview: Some("French electronic duo.".to_string()),
            artist_albums: vec![
                Item {
                    id: "alb-1".to_string(),
                    name: "Discovery".to_string(),
                    is_favorite: true,
                    ..Default::default()
                },
                Item {
                    id: "alb-2".to_string(),
                    name: "Random Access Memories".to_string(),
                    ..Default::default()
                },
            ],
            appears_on: vec![Item {
                id: "alb-3".to_string(),
                name: "Tron: Legacy OST".to_string(),
                ..Default::default()
            }],
            ..Default::default()
        },
    );
    let out = shown(&app);
    assert!(out.contains("French electronic duo"), "{out}");
    assert!(out.contains("Albums"), "{out}");
    assert!(out.contains("Appears on"), "{out}");
    assert!(out.contains("Discovery"), "{out}");
    assert!(out.contains("Tron: Legacy OST"), "{out}");
    // Liked album shows a heart marker.
    assert!(out.contains("♥ Discovery"), "{out}");
}

#[test]
fn info_pane_renders_scrollbar_when_content_overflows() {
    let mut app = App::with_libraries(vec![Library {
        id: "music".to_string(),
        name: "Music".to_string(),
        collection_type: Some("music".to_string()),
        items: vec![Item {
            id: "artist-1".to_string(),
            name: "Prolific Artist".to_string(),
            kind: Some("MusicArtist".to_string()),
            is_folder: true,
            ..Default::default()
        }],
    }]);
    app.reveal_item("artist-1".to_string());
    app.set_context_view(ContextTopView::Info);
    let many_albums: Vec<Item> = (0..50)
        .map(|i| Item {
            id: format!("alb-{i}"),
            name: format!("Album {i}"),
            ..Default::default()
        })
        .collect();
    app.set_current_detail(
        "artist-1",
        ItemDetail {
            overview: Some("Long discography.".to_string()),
            artist_albums: many_albums,
            ..Default::default()
        },
    );
    let lines = info_lines(app.current_item(), app.current_detail());
    // Far more lines than a 24-row screen has.
    assert!(scroll_view(&lines, 40, 22, app.context_top_scroll()).bar);
}

#[test]
fn show_info_menu_entry_switches_view_and_emits_intent() {
    let mut app = App::with_libraries(vec![Library {
        id: "music".to_string(),
        name: "Music".to_string(),
        collection_type: Some("music".to_string()),
        items: vec![typed_item("Track A", "Audio")],
    }]);
    app.handle_key(press(KeyCode::Char('p')));
    let (_, entries, _) = app.popup_menu().expect("item menu open");
    // Audio always exposes both view entries so lyrics can be loaded even
    // when the pane defaults to the lyrics view.
    assert_eq!(entries[0], "Show lyrics");
    assert_eq!(entries[1], "Show info");
    // Pick "Show info" (second entry).
    app.handle_key(press(KeyCode::Down));
    app.handle_key(press(KeyCode::Enter));
    assert_eq!(app.context_view(), ContextTopView::Info);
    assert!(matches!(
        app.take_intents().as_slice(),
        [Intent::LoadCurrentDetail { .. }]
    ));
}

#[test]
fn show_lyrics_menu_entry_switches_view_and_fetches() {
    let mut app = App::with_libraries(vec![Library {
        id: "music".to_string(),
        name: "Music".to_string(),
        collection_type: Some("music".to_string()),
        items: vec![typed_item("Track A", "Audio")],
    }]);
    // Flip to info view first, then back to lyrics via the popup.
    app.set_context_view(ContextTopView::Info);
    app.handle_key(press(KeyCode::Char('p')));
    // First entry is "Show lyrics" — Enter selects it.
    app.handle_key(press(KeyCode::Enter));
    assert_eq!(app.context_view(), ContextTopView::Lyrics);
    assert!(matches!(
        app.take_intents().as_slice(),
        [Intent::LoadCurrentDetail { .. }]
    ));
}

#[test]
fn p_opens_item_menu_and_load_info_emits_intent() {
    let mut app = app_with_item("Movie");
    app.handle_key(press(KeyCode::Char('p')));
    // Menu is open with "Load info" highlighted first.
    let (title, entries, sel) = app.popup_menu().expect("item menu open");
    assert_eq!(title, "Actions");
    assert_eq!(sel, 0);
    assert_eq!(entries[0], "Load info");
    // Enter on "Load info" closes the menu and queues a detail fetch.
    app.handle_key(press(KeyCode::Enter));
    assert!(app.popup_menu().is_none());
    assert!(matches!(
        app.take_intents().as_slice(),
        [Intent::LoadCurrentDetail { item_id, .. }] if item_id == "id-Thing"
    ));
}

#[test]
fn shift_p_opens_client_menu_and_quit_entry_quits() {
    let mut app = App::new();
    // Shift+p arrives as Char('P') + SHIFT modifier.
    app.handle_key(KeyEvent::new(KeyCode::Char('P'), KeyModifiers::shift()));
    let (title, entries, _) = app.popup_menu().expect("client menu open");
    assert_eq!(title, "Client settings");
    assert!(entries.iter().any(|e| e == "Theme…"));
    // Walk to the "Quit" entry (last) and activate.
    for _ in 0..entries.len() - 1 {
        app.handle_key(press(KeyCode::Down));
    }
    app.handle_key(press(KeyCode::Enter));
    assert!(app.popup_menu().is_none());
    assert!(app.should_quit);
}

#[test]
fn client_menu_includes_sync_and_visible_libraries() {
    let mut app = App::new();
    app.handle_key(KeyEvent::new(KeyCode::Char('P'), KeyModifiers::shift()));
    let (_, entries, _) = app.popup_menu().expect("client menu open");
    assert!(entries.iter().any(|e| e == "Sync with server now"));
    assert!(entries.iter().any(|e| e == "Visible libraries…"));
}

#[test]
fn sync_now_entry_emits_sync_intent() {
    let mut app = App::new();
    app.handle_key(KeyEvent::new(KeyCode::Char('P'), KeyModifiers::shift()));
    // Client menu: Theme, Sync, Visible, Quit. "Sync" is index 1.
    app.handle_key(press(KeyCode::Down));
    app.handle_key(press(KeyCode::Enter));
    assert!(matches!(
        app.take_intents().as_slice(),
        [Intent::SyncLibraries]
    ));
}

#[test]
fn visible_libraries_entry_opens_picker_and_emits_load_intent() {
    let mut app = App::new();
    app.handle_key(KeyEvent::new(KeyCode::Char('P'), KeyModifiers::shift()));
    for _ in 0..2 {
        app.handle_key(press(KeyCode::Down));
    }
    app.handle_key(press(KeyCode::Enter));
    assert!(app.library_picker().is_some());
    assert!(matches!(
        app.take_intents().as_slice(),
        [Intent::LoadAllLibraryMeta]
    ));
}

#[test]
fn library_picker_save_emits_visible_libraries_intent() {
    let mut app = App::new();
    app.handle_key(KeyEvent::new(KeyCode::Char('P'), KeyModifiers::shift()));
    for _ in 0..2 {
        app.handle_key(press(KeyCode::Down));
    }
    app.handle_key(press(KeyCode::Enter));
    let _ = app.take_intents();
    app.set_library_picker_entries(vec![
        ("lib-a".to_string(), "Movies".to_string(), true),
        ("lib-b".to_string(), "Music".to_string(), true),
    ]);
    // Space toggles entry 0 off.
    app.handle_key(press(KeyCode::Char(' ')));
    app.handle_key(press(KeyCode::Enter));
    assert!(app.library_picker().is_none());
    assert!(matches!(
        app.take_intents().as_slice(),
        [Intent::SaveVisibleLibraries(ids)] if ids == &vec!["lib-b".to_string()]
    ));
}

#[test]
fn item_menu_includes_audio_specific_actions() {
    let mut app = App::with_libraries(vec![Library {
        id: "music".to_string(),
        name: "Music".to_string(),
        collection_type: Some("music".to_string()),
        items: vec![typed_item("Track A", "Audio")],
    }]);
    app.handle_key(press(KeyCode::Char('p')));
    let (_, entries, _) = app.popup_menu().expect("item menu open");
    assert!(entries.iter().any(|e| e == "Add to playlist…"));
    assert!(entries.iter().any(|e| e == "Instant mix"));
    assert!(entries.iter().any(|e| e == "Dislike track"));
    assert!(entries.iter().any(|e| e == "Copy URL to clipboard"));
}

#[test]
fn item_menu_hides_audio_actions_for_video_items() {
    let mut app = app_with_item("Movie");
    app.handle_key(press(KeyCode::Char('p')));
    let (_, entries, _) = app.popup_menu().expect("item menu open");
    // Instant mix + Dislike are audio-only; the rest of the menu is universal.
    assert!(!entries.iter().any(|e| e == "Instant mix"));
    assert!(!entries.iter().any(|e| e == "Dislike track"));
    assert!(entries.iter().any(|e| e == "Add to playlist…"));
    assert!(entries.iter().any(|e| e == "Copy URL to clipboard"));
}

#[test]
fn instant_mix_entry_emits_intent() {
    let mut app = App::with_libraries(vec![Library {
        id: "music".to_string(),
        name: "Music".to_string(),
        collection_type: Some("music".to_string()),
        items: vec![typed_item("Track A", "Audio")],
    }]);
    app.handle_key(press(KeyCode::Char('p')));
    let (_, entries, _) = app.popup_menu().expect("item menu open");
    let idx = entries
        .iter()
        .position(|e| e == "Instant mix")
        .expect("Instant mix entry present");
    for _ in 0..idx {
        app.handle_key(press(KeyCode::Down));
    }
    app.handle_key(press(KeyCode::Enter));
    assert!(matches!(
        app.take_intents().as_slice(),
        [Intent::InstantMix { item }] if item.name == "Track A"
    ));
}

#[test]
fn dislike_entry_emits_intent() {
    let mut app = App::with_libraries(vec![Library {
        id: "music".to_string(),
        name: "Music".to_string(),
        collection_type: Some("music".to_string()),
        items: vec![typed_item("Track A", "Audio")],
    }]);
    app.handle_key(press(KeyCode::Char('p')));
    let (_, entries, _) = app.popup_menu().expect("item menu open");
    let idx = entries
        .iter()
        .position(|e| e == "Dislike track")
        .expect("Dislike entry present");
    for _ in 0..idx {
        app.handle_key(press(KeyCode::Down));
    }
    app.handle_key(press(KeyCode::Enter));
    assert!(matches!(
        app.take_intents().as_slice(),
        [Intent::Dislike { item_id }] if item_id == "id-Track A"
    ));
}

#[test]
fn copy_url_entry_emits_intent() {
    let mut app = app_with_item("Movie");
    app.handle_key(press(KeyCode::Char('p')));
    // Movie order: Load info, Play, Add to favorites, Copy URL.
    let (_, entries, _) = app.popup_menu().expect("item menu open");
    let copy_index = entries
        .iter()
        .position(|e| e == "Copy URL to clipboard")
        .expect("Copy URL entry present");
    for _ in 0..copy_index {
        app.handle_key(press(KeyCode::Down));
    }
    app.handle_key(press(KeyCode::Enter));
    assert!(matches!(
        app.take_intents().as_slice(),
        [Intent::CopyItemUrl { item_id, .. }] if item_id == "id-Thing"
    ));
}

#[test]
fn add_to_playlist_entry_opens_picker_and_enter_emits_intent() {
    let mut app = App::with_libraries(vec![Library {
        id: "music".to_string(),
        name: "Music".to_string(),
        collection_type: Some("music".to_string()),
        items: vec![typed_item("Track A", "Audio")],
    }]);
    app.handle_key(press(KeyCode::Char('p')));
    // Walk to "Add to playlist…" (index 5: lyrics, info, play, favorite, mark played, playlist).
    for _ in 0..5 {
        app.handle_key(press(KeyCode::Down));
    }
    app.handle_key(press(KeyCode::Enter));
    assert!(app.playlist_picker().is_some());
    assert!(matches!(
        app.take_intents().as_slice(),
        [Intent::LoadPlaylists { target_item_id }] if target_item_id == "id-Track A"
    ));
    app.set_playlist_picker_entries(vec![("pl-1".to_string(), "Drive Mix".to_string())]);
    app.handle_key(press(KeyCode::Enter));
    assert!(app.playlist_picker().is_none());
    assert!(matches!(
        app.take_intents().as_slice(),
        [Intent::AddToPlaylist { playlist_id, item_id }]
            if playlist_id == "pl-1" && item_id == "id-Track A"
    ));
}

#[test]
fn video_item_menu_includes_track_entries() {
    let mut app = app_with_item("Movie");
    app.handle_key(press(KeyCode::Char('p')));
    let (_, entries, _) = app.popup_menu().expect("item menu open");
    assert!(entries.iter().any(|e| e.starts_with("Audio track:")));
    assert!(entries.iter().any(|e| e.starts_with("Subtitles:")));
}

#[test]
fn audio_track_entry_opens_picker_and_enter_records_choice() {
    let mut app = app_with_item("Movie");
    app.handle_key(press(KeyCode::Char('p')));
    let (_, entries, _) = app.popup_menu().expect("item menu open");
    let idx = entries
        .iter()
        .position(|e| e.starts_with("Audio track:"))
        .expect("Audio track entry");
    for _ in 0..idx {
        app.handle_key(press(KeyCode::Down));
    }
    app.handle_key(press(KeyCode::Enter));
    assert!(app.video_track_picker().is_some());
    assert!(matches!(
        app.take_intents().as_slice(),
        [Intent::LoadVideoTracks { item_id, kind }]
            if item_id == "id-Thing" && *kind == VideoTrackKind::Audio
    ));
    app.set_video_track_picker_entries(vec![
        TrackPickerEntry {
            label: "Auto".to_string(),
            choice: TrackChoice::Auto,
        },
        TrackPickerEntry {
            label: "#1 English".to_string(),
            choice: TrackChoice::Pick(1),
        },
    ]);
    app.handle_key(press(KeyCode::Down));
    app.handle_key(press(KeyCode::Enter));
    assert!(app.video_track_picker().is_none());
    let options = app.video_options_for("id-Thing");
    assert!(matches!(options.audio, Some(TrackChoice::Pick(1))));
}

#[test]
fn subtitle_picker_off_sets_off_choice() {
    let mut app = app_with_item("Movie");
    app.handle_key(press(KeyCode::Char('p')));
    let (_, entries, _) = app.popup_menu().expect("item menu open");
    let idx = entries
        .iter()
        .position(|e| e.starts_with("Subtitles:"))
        .expect("Subtitles entry");
    for _ in 0..idx {
        app.handle_key(press(KeyCode::Down));
    }
    app.handle_key(press(KeyCode::Enter));
    let _ = app.take_intents();
    app.set_video_track_picker_entries(vec![
        TrackPickerEntry {
            label: "Auto".to_string(),
            choice: TrackChoice::Auto,
        },
        TrackPickerEntry {
            label: "Off".to_string(),
            choice: TrackChoice::Off,
        },
    ]);
    app.handle_key(press(KeyCode::Down));
    app.handle_key(press(KeyCode::Enter));
    let options = app.video_options_for("id-Thing");
    assert!(matches!(options.subtitle, Some(TrackChoice::Off)));
}

#[test]
fn go_to_prefix_then_target_changes_focus() {
    let mut app = App::new();
    // g + i → Items pane
    app.handle_key(press(KeyCode::Char('g')));
    assert!(app.awaiting_go_to());
    app.handle_key(press(KeyCode::Char('i')));
    assert!(!app.awaiting_go_to());
    assert_eq!(app.focus, Pane::LibraryItems);
    // g + t → Top bar (libraries)
    app.handle_key(press(KeyCode::Char('g')));
    app.handle_key(press(KeyCode::Char('t')));
    assert_eq!(app.focus, Pane::TopBar);
    // g + q → Context bottom (queue)
    app.handle_key(press(KeyCode::Char('g')));
    app.handle_key(press(KeyCode::Char('q')));
    assert_eq!(app.focus, Pane::ContextBottom);
}

#[test]
fn go_to_esc_cancels_chord_without_focus_change() {
    let mut app = App::new();
    let before = app.focus;
    app.handle_key(press(KeyCode::Char('g')));
    assert!(app.awaiting_go_to());
    app.handle_key(press(KeyCode::Esc));
    assert!(!app.awaiting_go_to());
    assert_eq!(app.focus, before);
}

#[test]
fn go_to_s_opens_global_search() {
    let mut app = App::new();
    app.handle_key(press(KeyCode::Char('g')));
    app.handle_key(press(KeyCode::Char('s')));
    assert_eq!(app.focus, Pane::GlobalSearch);
    assert!(app.global_search_state().input_focused);
}

#[test]
fn slash_opens_library_scoped_search() {
    let mut app = App::new();
    app.handle_key(press(KeyCode::Char('/')));
    assert_eq!(app.focus, Pane::TopBar);
    assert!(app.search_query.is_some());
}

#[test]
fn global_search_input_typing_appends_query() {
    let mut app = App::new();
    app.enter_global_search();
    app.handle_key(press(KeyCode::Char('m')));
    app.handle_key(press(KeyCode::Char('x')));
    assert_eq!(app.global_search_state().query, "mx");
    app.handle_key(press(KeyCode::Backspace));
    assert_eq!(app.global_search_state().query, "m");
}

#[test]
fn global_search_enter_emits_global_search_intent() {
    let mut app = App::new();
    app.enter_global_search();
    app.handle_key(press(KeyCode::Char('a')));
    app.handle_key(press(KeyCode::Enter));
    let intents = app.take_intents();
    assert!(intents.iter().any(|i| matches!(
        i,
        Intent::GlobalSearch { query } if query == "a"
    )));
}

#[test]
fn go_to_works_from_inside_media_options_view() {
    let mut app = app_with_item("Movie");
    app.handle_key(press(KeyCode::Enter));
    assert!(app.media_options_view().is_some());
    assert_eq!(app.focus, Pane::Content);
    app.handle_key(press(KeyCode::Char('g')));
    assert!(app.awaiting_go_to());
    app.handle_key(press(KeyCode::Char('t')));
    assert!(!app.awaiting_go_to());
    assert!(app.media_options_view().is_none());
    assert_eq!(app.focus, Pane::TopBar);
}

#[test]
fn go_to_works_from_inside_popup_menu() {
    let mut app = App::new();
    app.handle_key(KeyEvent::new(KeyCode::Char('P'), KeyModifiers::shift()));
    assert!(app.popup_menu().is_some());
    app.handle_key(press(KeyCode::Char('g')));
    app.handle_key(press(KeyCode::Char('i')));
    assert!(app.popup_menu().is_none());
    assert_eq!(app.focus, Pane::LibraryItems);
}

#[test]
fn go_to_chips_render_in_status_bar() {
    let mut app = App::new();
    app.handle_key(press(KeyCode::Char('g')));
    let out = shown(&app);
    assert!(out.contains("Go to:"), "{out}");
    assert!(out.contains("Esc cancel"), "{out}");
}

#[test]
fn esc_closes_popup_without_action() {
    let mut app = app_with_item("Movie");
    app.handle_key(press(KeyCode::Char('p')));
    assert!(app.popup_menu().is_some());
    app.handle_key(press(KeyCode::Esc));
    assert!(app.popup_menu().is_none());
    assert!(app.take_intents().is_empty());
}

#[test]
fn queue_nav_keys_emit_intents() {
    // `p` is reserved for the item-options popup; `b` walks back.
    let mut app = App::new();
    app.handle_key(press(KeyCode::Char('n')));
    app.handle_key(press(KeyCode::Char('b')));
    assert_eq!(
        app.take_intents(),
        vec![Intent::QueueNext, Intent::QueuePrev]
    );
}

#[test]
fn advance_queue_with_repeat_all_wraps_to_start() {
    let mut app = App::with_libraries(vec![Library {
        id: "music".to_string(),
        name: "Music".to_string(),
        collection_type: Some("music".to_string()),
        items: vec![typed_item("A", "Audio"), typed_item("B", "Audio")],
    }]);
    let start = app.current_level().unwrap().items[1].clone(); // B (index 1)
    app.build_queue_for(&start);
    app.repeat_mode = RepeatMode::All;
    // Past the end wraps back to track A.
    assert_eq!(app.advance_queue().unwrap().name, "A");
    assert_eq!(app.queue_index, Some(0));
}

#[test]
fn advance_queue_with_repeat_one_replays_current() {
    let mut app = App::with_libraries(vec![Library {
        id: "music".to_string(),
        name: "Music".to_string(),
        collection_type: Some("music".to_string()),
        items: vec![typed_item("A", "Audio"), typed_item("B", "Audio")],
    }]);
    let start = app.current_level().unwrap().items[0].clone();
    app.build_queue_for(&start);
    app.repeat_mode = RepeatMode::One;
    assert_eq!(app.advance_queue().unwrap().name, "A");
    assert_eq!(app.queue_index, Some(0));
}

#[test]
fn previous_in_queue_steps_back_or_returns_none_at_start() {
    let mut app = App::with_libraries(vec![Library {
        id: "music".to_string(),
        name: "Music".to_string(),
        collection_type: Some("music".to_string()),
        items: vec![typed_item("A", "Audio"), typed_item("B", "Audio")],
    }]);
    let start = app.current_level().unwrap().items[1].clone();
    app.build_queue_for(&start);
    assert_eq!(app.previous_in_queue().unwrap().name, "A");
    // Already at start; without repeat there's nowhere to go.
    assert!(app.previous_in_queue().is_none());
}

#[test]
fn toggle_shuffle_pins_current_track_at_index_0() {
    let mut app = App::with_libraries(vec![Library {
        id: "music".to_string(),
        name: "Music".to_string(),
        collection_type: Some("music".to_string()),
        items: vec![
            typed_item("A", "Audio"),
            typed_item("B", "Audio"),
            typed_item("C", "Audio"),
        ],
    }]);
    let start = app.current_level().unwrap().items[1].clone(); // B
    app.build_queue_for(&start);
    app.toggle_shuffle();
    assert!(app.shuffle);
    assert_eq!(app.queue_index, Some(0));
    // The pinned current track is still B regardless of how the rest got
    // shuffled.
    assert_eq!(app.current_queue_track().unwrap().name, "B");
}

#[test]
fn clear_queue_resets_index() {
    let mut app = App::with_libraries(vec![Library {
        id: "music".to_string(),
        name: "Music".to_string(),
        collection_type: Some("music".to_string()),
        items: vec![typed_item("A", "Audio")],
    }]);
    app.build_queue_for(&app.current_level().unwrap().items[0].clone());
    app.clear_queue();
    assert!(app.queue.is_empty());
    assert!(app.queue_index.is_none());
    assert!(app.current_queue_track().is_none());
}

#[test]
fn set_current_detail_only_applies_when_id_matches_selection() {
    let mut app = app_with_item("Movie");
    let detail = ItemDetail {
        cast: vec![Person {
            id: None,
            name: "Neo".to_string(),
            role: Some("Hero".to_string()),
            kind: Some("Actor".to_string()),
        }],
        genres: vec!["Sci-Fi".to_string()],
        ..Default::default()
    };
    // Matching id is accepted.
    app.set_current_detail("id-Thing", detail.clone());
    assert!(app.current_detail().is_some());
    assert_eq!(app.current_detail().unwrap().cast[0].name, "Neo");
    // Stale id from a past selection is ignored.
    app.clear_current_detail();
    app.set_current_detail("id-Stale", detail);
    assert!(app.current_detail().is_none());
}

#[test]
fn cheatsheet_includes_top_bar_built_ins() {
    let mut app = App::new();
    app.show_help = true;
    let out = shown(&app);
    assert!(out.contains("Top bar"), "{out}");
    assert!(out.contains("1 – 9"), "{out}");
    assert!(out.contains("Switch library"));
    assert!(out.contains("Open search"));
}

#[test]
fn digit_keys_are_ignored_inside_search_input() {
    let mut app = App::new();
    app.handle_key(press(KeyCode::Char('/')));
    app.handle_key(press(KeyCode::Char('2')));
    // '2' is part of the query, not a library switch.
    assert_eq!(app.library_selected, 0);
    assert_eq!(app.search_query.as_deref(), Some("2"));
}
