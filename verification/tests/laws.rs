//! What holds of the client as a whole, on concrete values.

use aquafin::cli::{LevelFilter, LogLevel};
use aquafin::config::{
    current_visible_libraries, persist, AudioConfig, Config, EqConfig, EqPreset, RepeatModePref,
    Setting, UiConfig,
};
use aquafin::string_map::StringMap;
use aquafin::text::{decimal_text, padded_start, signed_decimal_text, trim};
use aquafin::theme::Theme;
use aquafin::time::{chrono_like_now_label, clock_label, days_to_ymd, utc_label, Duration};
use aquafin::ui::app::labels::{
    cycle_eq_preset, format_remaining, search_level_title, sleep_timer_menu_label,
};
use aquafin::ui::app::queue::{shuffle_in_place, shuffle_seed};
use aquafin::ui::app::sections::next_sort_override;
use aquafin::ui::app::{
    options_cursor_positions, sections_for, App, ClientMenuAction, HomeCursor, HomeData, Intent,
    Item, Library, Pane, PopupMenu, RepeatMode, SleepTimer, TrackPickerEntry,
};
use aquafin::ui::durations::ticks_to_duration;
use aquafin::ui::images::{cache_name, CoverState, Covers, DecodedCover, Picture, Rgb};
use aquafin::ui::keymap::{
    Action, Binding, KeyCode, KeyEvent, KeyEventKind, KeyModifiers, Keymap,
};
use aquafin::ui::panes::global_search::{glyph_for, hint, input_line, no_results, result_rows};
use aquafin::ui::run::{Command, SelectionWatch};
use aquafin::ui::screen::{menu_highlight, menu_title, MainView, Overlay};
use aquafin::video::TrackChoice;

fn press(code: KeyCode) -> KeyEvent {
    KeyEvent::new(code, KeyModifiers::empty())
}

fn track(name: &str) -> Item {
    Item {
        id: format!("id-{name}"),
        name: name.to_string(),
        kind: Some("Audio".to_string()),
        ..Default::default()
    }
}

fn music(names: &[&str]) -> App {
    App::with_libraries(vec![Library {
        id: "music".to_string(),
        name: "Music".to_string(),
        collection_type: Some("music".to_string()),
        items: names.iter().map(|name| track(name)).collect(),
    }])
}

#[test]
fn released_keys_do_nothing() {
    let mut app = App::new();
    let released = KeyEvent { kind: KeyEventKind::Release, ..press(KeyCode::Char('q')) };
    app.handle_key(released);
    assert!(!app.should_quit);
}

#[test]
fn keys_add_to_the_queued_intents() {
    let mut app = App::new();
    app.handle_key(press(KeyCode::Char(' ')));
    app.handle_key(press(KeyCode::Down));
    app.handle_key(press(KeyCode::Char('n')));
    assert_eq!(app.take_intents(), vec![Intent::TogglePause, Intent::QueueNext]);
    assert!(app.take_intents().is_empty());
}

#[test]
fn cursors_stay_in_range_under_any_keys() {
    let mut app = music(&["A", "B"]);
    for code in [
        KeyCode::Char('g'),
        KeyCode::Char('h'),
        KeyCode::Down,
        KeyCode::Right,
        KeyCode::Up,
        KeyCode::Enter,
        KeyCode::Char('p'),
        KeyCode::End,
        KeyCode::Up,
        KeyCode::Enter,
        KeyCode::Char('/'),
        KeyCode::Char('x'),
        KeyCode::Enter,
        KeyCode::Tab,
        KeyCode::Down,
        KeyCode::Backspace,
        KeyCode::Char('9'),
    ] {
        app.handle_key(press(code));
        assert!(app.library_selected < app.libraries.len());
        assert!(!app.stack.is_empty());
        if let Some(level) = app.current_level() {
            assert!(level.selected == 0 || level.selected < level.items.len());
        }
    }
}

#[test]
fn tab_and_shift_tab_undo_each_other() {
    let mut app = App::new();
    let start = app.focus;
    for _ in 0..3 {
        app.handle_key(press(KeyCode::Tab));
    }
    for _ in 0..3 {
        app.handle_key(press(KeyCode::BackTab));
    }
    assert_eq!(app.focus, start);
}

#[test]
fn a_failed_favorite_is_taken_back() {
    let mut app = music(&["A"]);
    app.toggle_favorite();
    assert!(app.current_item().unwrap().is_favorite);
    app.revert_favorite("id-A", false);
    assert!(!app.current_item().unwrap().is_favorite);
    app.toggle_played();
    app.revert_played("id-A", false);
    assert!(!app.current_item().unwrap().is_played);
}

fn drilled() -> App {
    let folder = Item {
        id: "r".to_string(),
        name: "Root".to_string(),
        kind: Some("MusicAlbum".to_string()),
        is_folder: true,
        ..Default::default()
    };
    let child = Item { id: "c".to_string(), ..track("Child") };
    let mut app = App::with_libraries(vec![Library {
        id: "music".to_string(),
        name: "Music".to_string(),
        collection_type: Some("music".to_string()),
        items: vec![folder.clone()],
    }]);
    app.drill_into(&folder);
    app.fill_level("r", vec![child]);
    let _ = app.take_intents();
    app
}

#[test]
fn the_focused_pane_says_what_is_marked() {
    let mut app = drilled();
    app.focus = Pane::LibraryItems;
    app.toggle_favorite();
    app.toggle_played();
    assert!(app.stack[0].items[0].is_favorite && app.stack[0].items[0].is_played);
    assert!(!app.stack[1].items[0].is_favorite && !app.stack[1].items[0].is_played);
    assert_eq!(
        app.take_intents(),
        vec![
            Intent::SetFavorite { item_id: "r".to_string(), favorite: true },
            Intent::SetPlayed { item_id: "r".to_string(), played: true },
        ]
    );
    app.revert_favorite("r", false);
    app.revert_played("r", false);
    assert!(!app.stack[0].items[0].is_favorite && !app.stack[0].items[0].is_played);
    app.focus = Pane::Content;
    app.toggle_favorite();
    app.toggle_played();
    assert!(app.stack[1].items[0].is_favorite && app.stack[1].items[0].is_played);
    assert!(!app.stack[0].items[0].is_favorite && !app.stack[0].items[0].is_played);
}

#[test]
fn the_go_to_key_is_typed_into_a_search() {
    let mut app = music(&["A"]);
    app.enter_global_search();
    app.handle_key(press(KeyCode::Char('g')));
    assert_eq!(app.global_search_state().query, "g");
    assert!(!app.awaiting_go_to());
    let mut app = music(&["A"]);
    app.handle_key(press(KeyCode::Char('/')));
    app.handle_key(press(KeyCode::Char('g')));
    assert_eq!(app.search_query.as_deref(), Some("g"));
    assert!(!app.awaiting_go_to());
}

#[test]
fn the_go_to_key_closes_the_help_too() {
    let mut app = music(&["A"]);
    app.show_help = true;
    app.handle_key(press(KeyCode::Char('g')));
    assert!(!app.show_help);
    assert!(!app.awaiting_go_to());
    app.handle_key(press(KeyCode::Char('g')));
    assert!(app.awaiting_go_to());
}

#[test]
fn shuffling_reorders_and_nothing_else() {
    for seed in [0u64, 1, 7, 99, u64::MAX] {
        let mut items: Vec<u32> = (0..20).collect();
        shuffle_in_place(&mut items, seed);
        let mut sorted = items.clone();
        sorted.sort();
        assert_eq!(sorted, (0..20).collect::<Vec<u32>>());
    }
    let mut first: Vec<u32> = (0..20).collect();
    let mut again: Vec<u32> = (0..20).collect();
    shuffle_in_place(&mut first, 42);
    shuffle_in_place(&mut again, 42);
    assert_eq!(first, again);
    assert_ne!(first, (0..20).collect::<Vec<u32>>());
    assert_ne!(shuffle_seed(Some(Duration::from_secs(5))), shuffle_seed(Some(Duration::from_secs(6))));
}

#[test]
fn a_repeating_queue_walks_in_a_circle() {
    let mut app = music(&["A", "B", "C"]);
    app.build_queue_for(&track("A"));
    app.repeat_mode = RepeatMode::All;
    assert_eq!(app.previous_in_queue().unwrap().name, "C");
    assert_eq!(app.advance_queue().unwrap().name, "A");
    app.repeat_mode = RepeatMode::One;
    assert!(app.previous_in_queue().is_none());
}

#[test]
fn tracks_can_be_put_next_or_last() {
    let mut app = music(&["A", "B"]);
    app.enqueue(track("X"), true);
    assert!(app.queue.is_empty());
    app.build_queue_for(&track("A"));
    app.enqueue(track("X"), true);
    app.enqueue(track("Y"), false);
    let names: Vec<&str> = app.queue.iter().map(|item| item.name.as_str()).collect();
    assert_eq!(names, vec!["A", "X", "B", "Y"]);
}

#[test]
fn a_saved_queue_is_named_by_the_time() {
    let mut app = music(&["A", "B"]);
    app.build_queue_for(&track("A"));
    app.save_queue_as_playlist(Some(Duration::from_secs(0)));
    match app.take_intents().as_slice() {
        [Intent::CreatePlaylist { name, item_ids }] => {
            assert!(name.contains("1970-01-01"), "{name}");
            assert_eq!(item_ids, &vec!["id-A".to_string(), "id-B".to_string()]);
        }
        other => panic!("expected a new playlist, got {other:?}"),
    }
}

#[test]
fn dates_are_civil() {
    assert_eq!(days_to_ymd(0), (1970, 1, 1));
    assert_eq!(days_to_ymd(-1), (1969, 12, 31));
    assert_eq!(days_to_ymd(11_016), (2000, 2, 29));
    assert_eq!(utc_label(951_782_400 + 3_600 + 120), "2000-02-29 01:02");
    assert_eq!(clock_label(Some(Duration::from_secs(951_786_120))), "2000-02-29 01:02");
    assert_eq!(clock_label(None), "1970-01-01 00:00");
    assert!(utc_label(951_782_400).starts_with("2000-02-29"));
    assert!(!chrono_like_now_label().is_empty());
}

#[test]
fn sleep_timers_count_down() {
    assert_eq!(format_remaining(59), "59s");
    assert_eq!(format_remaining(61), "1m 01s");
    assert_eq!(format_remaining(3_725), "1h 02m");
    assert_eq!(sleep_timer_menu_label(SleepTimer::Off, None), "Sleep timer: Off");
    assert_eq!(
        sleep_timer_menu_label(SleepTimer::EndOfTrack, Some(5)),
        "Sleep timer: End of track"
    );
    let mut app = App::new();
    app.pick_sleep_timer(SleepTimer::EndOfTrack);
    assert_eq!(app.sleep_timer, SleepTimer::EndOfTrack);
    assert!(SleepTimer::presets().contains(&SleepTimer::Off));
}

#[test]
fn cycles_come_back() {
    let mut preset = EqPreset::Flat;
    for _ in 0..4 {
        preset = cycle_eq_preset(preset);
    }
    assert_eq!(preset, EqPreset::Flat);
    assert_eq!(cycle_eq_preset(EqPreset::Custom), EqPreset::Flat);
    let mut sort = None;
    let mut steps = 0;
    loop {
        sort = next_sort_override(&sort);
        steps += 1;
        if sort.is_none() {
            break;
        }
    }
    assert!(steps > 1);
}

#[test]
fn titles_name_the_scope_of_a_search() {
    assert_eq!(search_level_title("", "neo"), "Search: neo");
    assert_eq!(search_level_title("Albums", "neo"), "Search · Albums: neo");
}

#[test]
fn the_search_history_holds_no_query_twice() {
    let mut app = App::new();
    for i in 0..60 {
        app.remember_search(&format!("query {i}"));
    }
    let before = app.search_history.len();
    app.remember_search("query 59");
    assert_eq!(app.search_history.len(), before);
    assert_eq!(app.search_history[0], "query 59");
    assert!(before < 60);
}

#[test]
fn home_can_be_walked() {
    let mut app = music(&["A"]);
    app.set_home_data(HomeData {
        resume: vec![track("R1"), track("R2")],
        next_up: vec![],
        recent_per_library: vec![],
        latest_global: vec![],
        loading: false,
    });
    app.enter_home();
    assert!(app.is_on_home());
    assert_eq!(app.take_intents(), vec![Intent::LoadHome]);
    app.move_home_col(5);
    assert_eq!(app.home_cursor(), HomeCursor { row: 0, col: 1 });
    app.cursor_down();
    assert_eq!(app.home_cursor(), HomeCursor { row: 1, col: 0 });
    app.cursor_up();
    assert_eq!(app.home_cursor(), HomeCursor { row: 0, col: 0 });
    app.home_cursor = HomeCursor { row: 0, col: 9 };
    app.move_home_row(0);
    app.move_home_col(0);
    assert_eq!(app.home_cursor(), HomeCursor { row: 0, col: 9 });
    app.move_home_col(5);
    assert_eq!(app.home_cursor(), HomeCursor { row: 0, col: 1 });
    app.home_bottom();
    assert!(app.home_cursor_valid());
    app.home_top();
    assert_eq!(app.home_cursor().row, 0);
    assert_eq!(app.home_focused().unwrap().2.name, "R1");
    app.activate_home();
    assert!(matches!(app.take_intents().as_slice(), [Intent::Play { .. }]));
}

#[test]
fn the_client_menu_toggles_what_it_names() {
    let mut app = music(&["A"]);
    let gapless = app.gapless;
    app.activate_client_action(ClientMenuAction::ToggleGapless);
    assert_ne!(app.gapless, gapless);
    assert_eq!(app.take_intents(), vec![Intent::SetGapless(!gapless)]);
    app.open_client_menu();
    assert!(matches!(app.popup, Some(PopupMenu::Client(0))));
    assert!(matches!(app.overlay(), Overlay::Menu("Client settings", _, 0)));
    app.show_error("boom");
    assert!(matches!(app.overlay(), Overlay::Error(_, false)));
    assert_eq!(menu_highlight(9, 3), 2);
    assert!(menu_title("Actions").contains("Actions"));
}

#[test]
fn intents_are_routed() {
    let mut app = music(&["A"]);
    assert!(matches!(
        app.route(Intent::TogglePause).as_slice(),
        [Command::Play(Intent::TogglePause)]
    ));
    assert!(matches!(
        app.route(Intent::SyncLibraries).as_slice(),
        [Command::SyncLibraries(None)]
    ));
    match app.route(Intent::SaveVolume(70)).as_slice() {
        [Command::Persist(Setting::Volume(70))] => {}
        other => panic!("expected the volume to be kept, got {other:?}"),
    }
    let search = Intent::Search {
        query: "neo".to_string(),
        item_types: vec![],
        scope_label: String::new(),
    };
    assert!(matches!(
        app.route(search).as_slice(),
        [Command::Search { library_id, .. }] if library_id == "music"
    ));
}

#[test]
fn only_a_settled_selection_is_fetched() {
    let mut app = music(&["A", "B"]);
    let mut watch = SelectionWatch::new();
    assert!(watch.frame(&mut app).detail.is_none());
    assert!(watch.frame(&mut app).detail.is_none());
    assert_eq!(watch.frame(&mut app).detail.unwrap().0, "id-A");
    app.handle_key(press(KeyCode::Down));
    assert!(watch.frame(&mut app).detail.is_none());
}

fn config() -> Config {
    Config {
        audio: AudioConfig {
            volume: 50,
            repeat_mode: RepeatModePref::Off,
            shuffle: false,
            gapless: true,
            normalization: false,
            eq: EqConfig { preset: EqPreset::Flat, enabled: false },
        },
        ui: UiConfig {
            theme: "default".to_string(),
            visible_libraries: None,
            section_memory: StringMap::new(),
            last_library_id: None,
            search_history: vec![],
        },
    }
}

#[test]
fn settings_are_kept() {
    let mut kept = config();
    persist(&mut kept, Setting::AudioPrefs { repeat_mode: RepeatMode::All, shuffle: true });
    assert_eq!(kept.audio.repeat_mode, RepeatModePref::All);
    assert!(kept.audio.shuffle);
    persist(&mut kept, Setting::EqPreset(EqPreset::Vocal));
    assert!(kept.audio.eq.enabled);
    persist(&mut kept, Setting::EqPreset(EqPreset::Flat));
    assert!(!kept.audio.eq.enabled);
    persist(&mut kept, Setting::Gapless(false));
    persist(&mut kept, Setting::Normalization(true));
    persist(&mut kept, Setting::Volume(70));
    persist(&mut kept, Setting::LastLibrary("music".to_string()));
    persist(&mut kept, Setting::SearchHistory(vec!["neo".to_string()]));
    persist(&mut kept, Setting::Theme("latte".to_string()));
    let mut memory = StringMap::new();
    memory.insert("music".to_string(), "Albums".to_string());
    persist(&mut kept, Setting::SectionMemory(memory));
    assert_eq!(current_visible_libraries(Some(&kept)), None);
    persist(&mut kept, Setting::VisibleLibraries(vec!["music".to_string()]));
    assert!(!kept.audio.gapless && kept.audio.normalization);
    assert_eq!(kept.audio.volume, 70);
    assert_eq!(kept.ui.last_library_id.as_deref(), Some("music"));
    assert_eq!(kept.ui.search_history, vec!["neo".to_string()]);
    assert_eq!(kept.ui.theme, "latte");
    assert_eq!(kept.ui.section_memory.get("music").map(String::as_str), Some("Albums"));
    assert_eq!(current_visible_libraries(Some(&kept)), Some(vec!["music".to_string()]));
    assert_eq!(current_visible_libraries(None), None);
}

#[test]
fn covers_are_ready_if_their_bytes_hold_a_picture() {
    let pixels = vec![255, 0, 0, 255, 0, 128, 64, 200];
    let source = image::RgbaImage::from_raw(2, 1, pixels.clone()).unwrap();
    let mut png = std::io::Cursor::new(Vec::new());
    source.write_to(&mut png, image::ImageFormat::Png).unwrap();
    let mut covers = Covers::new(true);

    let cover = DecodedCover::decode(png.into_inner()).ok().unwrap();
    assert_eq!(cover.as_picture().unwrap().width, 2);
    let picture = covers.finish_cover("png".to_string(), cover, None).unwrap();
    assert_eq!((picture.width, picture.height), (2, 1));
    assert_eq!(picture.pixels, pixels);
    assert_eq!(covers.cache.get("png"), Some(&CoverState::Ready));

    let broken = DecodedCover::decode(b"no image at all".to_vec()).ok().unwrap();
    assert!(covers.finish_cover("broken".to_string(), broken, None).is_none());
    assert_eq!(covers.cache.get("broken"), Some(&CoverState::Failed));

    let missing = DecodedCover::missing();
    assert!(covers.finish_cover("missing".to_string(), missing, None).is_none());
    assert_eq!(covers.cache.get("missing"), Some(&CoverState::Failed));

    let jpeg = DecodedCover::decode(vec![0xff, 0xd8, 0xff, 0xe0]).err().unwrap();
    assert_eq!(jpeg, vec![0xff, 0xd8, 0xff, 0xe0]);
    let found = Picture { width: 1, height: 1, pixels: vec![1, 2, 3, 255] };
    let cover = DecodedCover::of_jpeg(&jpeg, Some(found));
    let red = Rgb { r: 200, g: 10, b: 10 };
    let picture = covers.finish_cover("jpeg".to_string(), cover, Some(red)).unwrap();
    assert_eq!(picture.pixels, vec![1, 2, 3, 255]);
    assert_eq!(covers.cache.get("jpeg"), Some(&CoverState::Ready));
    assert_eq!(covers.color_for("jpeg"), Some(red));
}

#[test]
fn covers_are_downloaded_once() {
    let mut covers = Covers::new(true);
    assert!(covers.is_available());
    assert!(covers.request("a"));
    assert!(!covers.request("a"));
    covers.finish("a".to_string(), true, Some(Rgb { r: 1, g: 2, b: 3 }));
    assert!(!covers.request("a"));
    assert_eq!(covers.color_for("a"), Some(Rgb { r: 1, g: 2, b: 3 }));
    assert_eq!(covers.cache.get("a"), Some(&CoverState::Ready));
    assert!(covers.is_drawable("a", 10, 5));
    assert!(!covers.is_drawable("a", 0, 5));
    assert!(covers.request("b"));
    covers.finish("b".to_string(), false, None);
    assert!(!covers.request("b"));
    assert_eq!(covers.cache.get("b"), Some(&CoverState::Failed));
    assert_eq!(covers.color_for("b"), None);
    assert_eq!(covers.color_pending.get("b"), None);
    let mut colors_only = Covers::new(false);
    assert!(!colors_only.is_available());
    assert!(colors_only.request("c"));
    colors_only.finish("c".to_string(), true, None);
    assert!(!colors_only.request("c"));
    assert_eq!(cache_name("../a-1.png").as_deref(), Some("a-1png"));
    assert_eq!(cache_name("../.."), None);
}

#[test]
fn maps_keep_the_last_value() {
    let mut map = StringMap::new();
    map.insert("a".to_string(), 1);
    map.insert("a".to_string(), 2);
    map.insert("b".to_string(), 3);
    assert_eq!(map.get("a"), Some(&2));
    map.remove("a");
    assert_eq!(map.get("a"), None);
    assert_eq!(map.get("b"), Some(&3));
}

#[test]
fn numbers_and_blanks_are_written_out() {
    assert_eq!(decimal_text(0), "0");
    assert_eq!(decimal_text(u64::MAX), u64::MAX.to_string());
    assert_eq!(signed_decimal_text(i64::MIN), i64::MIN.to_string());
    assert_eq!(padded_start("7", 3, ' '), "  7");
    assert_eq!(trim(" \t neo \n"), "neo");
}

#[test]
fn log_levels_map_one_to_one() {
    assert_eq!(LogLevel::Error.as_level_filter(), LevelFilter::Error);
    assert_eq!(LogLevel::Trace.as_level_filter(), LevelFilter::Trace);
}

#[test]
fn keys_can_be_rebound() {
    let keymap = Keymap { bindings: vec![Binding::plain(KeyCode::Char('x'), Action::Quit)] };
    assert!(keymap.describe().iter().any(|group| {
        group.bindings.iter().any(|row| row.keys == "x" && row.desc == "Quit")
    }));
    let mut app = App::new().with_keymap(keymap);
    app.handle_key(press(KeyCode::Char('q')));
    assert!(!app.should_quit);
    app.handle_key(press(KeyCode::Char('x')));
    assert!(app.should_quit);
}

#[test]
fn the_global_search_view_follows_its_cursor() {
    let mut app = music(&["A"]);
    app.enter_global_search();
    assert_eq!(app.main_view(), MainView::GlobalSearch);
    assert_eq!(app.focus, Pane::GlobalSearch);
    app.handle_key(press(KeyCode::Char('a')));
    app.submit_global_search();
    assert!(no_results(app.global_search_state()).contains('…'));
    assert!(hint(app.global_search_state()).contains("Searching"));
    app.set_global_search_results("a", (0..30).map(|i| track(&format!("T{i}"))).collect());
    for _ in 0..25 {
        app.handle_key(press(KeyCode::Down));
    }
    let search = app.global_search_state();
    let rows = result_rows(search, 5, true);
    assert!(rows.len() <= 5);
    let wanted = search.results[search.selected].name.clone();
    assert!(rows.iter().any(|row| row.iter().any(|piece| piece.text.contains(&wanted))));
    assert!(input_line(search, true).iter().any(|piece| piece.text == "a"));
    assert_ne!(glyph_for("Movie"), glyph_for("Audio"));
}

fn movie() -> App {
    App::with_libraries(vec![Library {
        id: "movies".to_string(),
        name: "Movies".to_string(),
        collection_type: Some("movies".to_string()),
        items: vec![Item {
            id: "m".to_string(),
            name: "The Matrix".to_string(),
            kind: Some("Movie".to_string()),
            ..Default::default()
        }],
    }])
}

#[test]
fn option_cursor_steps_undo_each_other() {
    let mut app = movie();
    app.handle_key(press(KeyCode::Enter));
    let entry = |label: &str, choice| TrackPickerEntry { label: label.to_string(), choice };
    app.set_media_options_view_data(
        "m",
        vec![],
        vec![entry("Auto", TrackChoice::Auto), entry("#1", TrackChoice::Pick(1))],
        vec![entry("Off", TrackChoice::Off)],
    );
    let start = app.media_options_view().unwrap().cursor;
    app.handle_key(press(KeyCode::Down));
    assert_ne!(app.media_options_view().unwrap().cursor, start);
    app.handle_key(press(KeyCode::Up));
    assert_eq!(app.media_options_view().unwrap().cursor, start);
    let positions = options_cursor_positions(app.media_options_view().unwrap());
    assert!(positions.contains(&start));
}

#[test]
fn toggling_a_library_twice_changes_nothing() {
    let mut app = movie();
    app.open_library_picker();
    app.set_library_picker_entries(vec![("a".to_string(), "Movies".to_string(), true)]);
    app.handle_key(press(KeyCode::Char(' ')));
    assert_eq!(app.library_picker().unwrap().visible_ids().len(), 0);
    app.handle_key(press(KeyCode::Char(' ')));
    assert_eq!(app.library_picker().unwrap().visible_ids(), vec!["a".to_string()]);
}

#[test]
fn unshuffling_keeps_the_queue_as_it_is() {
    let mut app = music(&["A", "B", "C"]);
    app.build_queue_for(&track("B"));
    app.toggle_shuffle_seeded(7);
    let order: Vec<String> = app.queue.iter().map(|item| item.id.clone()).collect();
    app.toggle_shuffle_seeded(8);
    assert!(!app.shuffle);
    let after: Vec<String> = app.queue.iter().map(|item| item.id.clone()).collect();
    assert_eq!(order, after);
}

#[test]
fn keys_outside_the_menu_do_not_read_the_clock() {
    let mut early = music(&["A", "B"]);
    let mut late = music(&["A", "B"]);
    for code in [KeyCode::Down, KeyCode::Char('f'), KeyCode::Char('n'), KeyCode::Tab] {
        early.handle_key_at(press(code), Some(Duration::from_secs(1)));
        late.handle_key_at(press(code), Some(Duration::from_secs(1_000_000)));
    }
    assert_eq!(early.take_intents(), late.take_intents());
    assert_eq!(early.focus, late.focus);
}

#[test]
fn backspace_takes_back_what_was_typed() {
    let mut app = music(&["A"]);
    app.handle_key(press(KeyCode::Char('/')));
    app.handle_key(press(KeyCode::Char('é')));
    app.handle_key(press(KeyCode::Backspace));
    assert_eq!(app.search_query.as_deref(), Some(""));
}

#[test]
fn ticks_come_back_from_a_duration() {
    let span = ticks_to_duration(12_345_678).unwrap();
    assert_eq!(span.as_nanos() / 100, 12_345_678);
}

#[test]
fn going_somewhere_closes_what_lies_on_top() {
    let mut app = music(&["A"]);
    app.open_client_menu();
    app.handle_key(press(KeyCode::Char('g')));
    assert!(app.status_line().hint.is_none());
    app.handle_key(press(KeyCode::Char('c')));
    assert!(app.popup.is_none());
    assert_eq!(app.focus, Pane::Content);
    app.handle_key(press(KeyCode::Char('g')));
    app.handle_key(press(KeyCode::Char('x')));
    assert!(!app.awaiting_go_to());
    assert_eq!(app.focus, Pane::Content);
}

#[test]
fn sections_start_with_all_and_home_with_tiles() {
    for kind in [Some("music"), Some("movies"), Some("tvshows"), Some("books"), Some("photos"), None] {
        assert_eq!(sections_for(kind)[0].name, "All");
    }
    let app = music(&["A"]).with_home_start();
    assert!(app.home_data().loading);
    assert!(app.home_rows().iter().all(|row| !row.items.is_empty()));
    assert_eq!(app.home_rows()[0].items[0].name, "Music");
}

#[test]
fn startup_settings_are_taken_over() {
    let app = App::new()
        .with_theme(Theme::named("latte"))
        .with_audio_features(true, true, EqPreset::Vocal, 3);
    assert_eq!(app.theme.name(), "latte");
    assert!(app.gapless && app.normalization);
    assert_eq!((app.eq_preset, app.mpv_arg_count), (EqPreset::Vocal, 3));
    let mut app = app;
    app.theme_failed("gone", "no such file");
    assert_eq!(app.error.as_deref(), Some("Couldn't load theme \"gone\": no such file"));
}

#[test]
fn a_closed_options_view_leaves_no_choice_behind() {
    let mut app = movie();
    app.handle_key(press(KeyCode::Enter));
    app.close_media_options_view();
    assert!(app.media_options_view().is_none());
    assert_eq!(app.video_media_source_for("m"), None);
    assert_eq!(app.video_options_for("m").audio, Some(TrackChoice::Auto));
}
