//! The menus: what they offer, and what each entry does.

use vstd::prelude::*;
use vstd::string::*;

use crate::config::EqPreset;
use crate::sequences;
use crate::text;
use crate::time::Duration;
use crate::ui::app::actions;
use crate::ui::app::labels;
use crate::ui::app::menus;
use crate::ui::app::sections;
use crate::ui::app::state::AppModel;
use crate::ui::app::types;
use crate::ui::app::types::{
    ClientMenuAction, ContextTopView, IntentModel, ItemMenuAction, ItemModel, MediaKind, PopupMenu,
    SectionFiltersModel, SleepTimer, VideoTrackKind,
};
use crate::ui::keymap::KeyCode;

verus! {

// ---------------------------------------------------------------------------
// What the per-item menu offers

/// The place of an entry among the entries of the per-item menu.
pub open spec fn place_of(action: ItemMenuAction) -> int {
    match action {
        ItemMenuAction::ShowLyrics => 0,
        ItemMenuAction::LoadInfo => 1,
        ItemMenuAction::Play => 2,
        ItemMenuAction::ToggleFavorite => 3,
        ItemMenuAction::TogglePlayed => 4,
        ItemMenuAction::BrowseByGenre => 5,
        ItemMenuAction::BrowseByPerson => 6,
        ItemMenuAction::GoToArtist => 7,
        ItemMenuAction::GoToAlbum => 8,
        ItemMenuAction::AddToPlaylist => 9,
        ItemMenuAction::PlayNext => 10,
        ItemMenuAction::AddToQueue => 11,
        ItemMenuAction::InstantMix => 12,
        ItemMenuAction::GenreRadio => 13,
        ItemMenuAction::SaveQueueAsPlaylist => 14,
        ItemMenuAction::Dislike => 15,
        ItemMenuAction::WatchTrailer => 16,
        ItemMenuAction::AudioTrack => 17,
        ItemMenuAction::Subtitles => 18,
        ItemMenuAction::ToggleShuffle => 19,
        ItemMenuAction::CycleRepeat => 20,
        ItemMenuAction::OpenSleepTimerPicker => 21,
        ItemMenuAction::CopyUrl => 22,
    }
}

/// Whether a menu keeps to the places of its entries and lists nothing twice, up to the
/// given place.
pub open spec fn in_places(menu: Seq<(Seq<char>, ItemMenuAction)>, end: int) -> bool {
    &&& forall|i: int| 0 <= i < menu.len() ==> place_of((#[trigger] menu[i]).1) < end
    &&& forall|i: int, j: int|
        0 <= i < j < menu.len() ==> place_of((#[trigger] menu[i]).1) < place_of(
            (#[trigger] menu[j]).1,
        )
}

proof fn lemma_entry_if(
    menu: Seq<(Seq<char>, ItemMenuAction)>,
    show: bool,
    label: Seq<char>,
    action: ItemMenuAction,
    entry: (Seq<char>, ItemMenuAction),
)
    requires
        in_places(menu, place_of(action)),
    ensures
        in_places(menu + menus::entry_if(show, label, action), place_of(action) + 1),
        (menu + menus::entry_if(show, label, action)).contains(entry) <==> menu.contains(entry) || (
        show && entry == (label, action)),
{
    let longer = menu + menus::entry_if(show, label, action);
    if show {
        assert(longer =~= menu.push((label, action)));
        if menu.contains(entry) {
            let i = choose|i: int| 0 <= i < menu.len() && menu[i] == entry;
            assert(longer[i] == entry);
        }
        assert(longer[menu.len() as int] == (label, action));
        if longer.contains(entry) && entry != (label, action) {
            let i = choose|i: int| 0 <= i < longer.len() && longer[i] == entry;
            assert(menu[i] == entry);
        }
        assert forall|i: int, j: int| 0 <= i < j < longer.len() implies place_of(
            (#[trigger] longer[i]).1,
        ) < place_of((#[trigger] longer[j]).1) by {
            assert(longer[i] == menu[i]);
            if j < menu.len() {
                assert(longer[j] == menu[j]);
            }
        }
    } else {
        assert(longer =~= menu);
    }
}

proof fn lemma_entry_of(
    menu: Seq<(Seq<char>, ItemMenuAction)>,
    label: Option<Seq<char>>,
    action: ItemMenuAction,
    entry: (Seq<char>, ItemMenuAction),
)
    requires
        in_places(menu, place_of(action)),
    ensures
        in_places(menu + menus::entry_of(label, action), place_of(action) + 1),
        (menu + menus::entry_of(label, action)).contains(entry) <==> menu.contains(entry) || (label
            == Some(entry.0) && entry.1 == action),
{
    match label {
        Some(shown) => {
            lemma_entry_if(menu, true, shown, action, entry);
            assert(menus::entry_of(label, action) == menus::entry_if(true, shown, action));
        },
        None => {
            assert(menu + menus::entry_of(label, action) =~= menu);
        },
    }
}

#[verifier::rlimit(60)]
proof fn lemma_item_menu(app: AppModel, item: ItemModel, entry: (Seq<char>, ItemMenuAction))
    ensures
        ({
            let audio = item.media() == MediaKind::Audio;
            let video = item.media() == MediaKind::Video;
            let playable = !item.is_folder && (audio || video);
            let detail = app.shown_detail();
            let selection = app.selection_for(item.id);
            let menu = app.item_menu_for(item);
            &&& in_places(menu, 23)
            &&& entry.1 == ItemMenuAction::ShowLyrics ==> (menu.contains(entry)
                <==> audio && entry.0 == ("Show lyrics"@))
            &&& entry.1 == ItemMenuAction::LoadInfo ==> (menu.contains(entry)
                <==> entry.0 == (if audio {
                "Show info"@
            } else {
                "Load info"@
            }))
            &&& entry.1 == ItemMenuAction::Play ==> (menu.contains(entry)
                <==> playable && entry.0 == ("Play"@))
            &&& entry.1 == ItemMenuAction::ToggleFavorite ==> (menu.contains(entry)
                <==> entry.0 == (if item.is_favorite {
                "Remove from favorites"@
            } else {
                "Add to favorites"@
            }))
            &&& entry.1 == ItemMenuAction::TogglePlayed ==> (menu.contains(entry)
                <==> playable && entry.0 == (if item.is_played {
                "Mark unplayed"@
            } else {
                "Mark played"@
            }))
            &&& entry.1 == ItemMenuAction::BrowseByGenre ==> (menu.contains(entry)
                <==> menus::prefixed("Browse by genre: "@, menus::first_genre(detail))
                == Some(entry.0))
            &&& entry.1 == ItemMenuAction::BrowseByPerson ==> (menu.contains(entry)
                <==> menus::prefixed("Browse by person: "@, menus::first_browsable(detail))
                == Some(entry.0))
            &&& entry.1 == ItemMenuAction::GoToArtist ==> (menu.contains(entry)
                <==> labels::artist_entry(item) == Some(entry.0))
            &&& entry.1 == ItemMenuAction::GoToAlbum ==> (menu.contains(entry)
                <==> labels::album_entry(item) == Some(entry.0))
            &&& entry.1 == ItemMenuAction::AddToPlaylist ==> (menu.contains(entry)
                <==> entry.0 == ("Add to playlist…"@))
            &&& entry.1 == ItemMenuAction::PlayNext ==> (menu.contains(entry)
                <==> audio && entry.0 == ("Play next"@))
            &&& entry.1 == ItemMenuAction::AddToQueue ==> (menu.contains(entry)
                <==> audio && entry.0 == ("Add to queue"@))
            &&& entry.1 == ItemMenuAction::InstantMix ==> (menu.contains(entry)
                <==> audio && entry.0 == ("Instant mix"@))
            &&& entry.1 == ItemMenuAction::GenreRadio ==> (menu.contains(entry)
                <==> audio && entry.0 == ("Genre radio"@))
            &&& entry.1 == ItemMenuAction::SaveQueueAsPlaylist ==> (menu.contains(entry)
                <==> audio && entry.0 == ("Save queue as playlist…"@))
            &&& entry.1 == ItemMenuAction::Dislike ==> (menu.contains(entry)
                <==> audio && entry.0 == ("Dislike track"@))
            &&& entry.1 == ItemMenuAction::WatchTrailer ==> (menu.contains(entry)
                <==> menus::first_trailer(detail) is Some && entry.0 == ("Watch trailer"@))
            &&& entry.1 == ItemMenuAction::AudioTrack ==> (menu.contains(entry)
                <==> video && entry.0 == ("Audio track: "@ + labels::choice_text(selection.audio)))
            &&& entry.1 == ItemMenuAction::Subtitles ==> (menu.contains(entry)
                <==> video && entry.0 == ("Subtitles: "@ + labels::choice_text(selection.subtitle)))
            &&& entry.1 == ItemMenuAction::ToggleShuffle ==> (menu.contains(entry)
                <==> entry.0 == ("Shuffle: "@ + labels::on_off_text(app.shuffle)))
            &&& entry.1 == ItemMenuAction::CycleRepeat ==> (menu.contains(entry)
                <==> entry.0 == ("Repeat: "@ + app.repeat_mode.text()))
            &&& entry.1 == ItemMenuAction::OpenSleepTimerPicker ==> (menu.contains(entry)
                <==> entry.0 == (
                labels::sleep_menu_text(app.sleep_timer, app.sleep_remaining_secs)))
            &&& entry.1 == ItemMenuAction::CopyUrl ==> (menu.contains(entry)
                <==> entry.0 == ("Copy URL to clipboard"@))
        }),
{
    let audio = item.media() == MediaKind::Audio;
    let video = item.media() == MediaKind::Video;
    let playable = !item.is_folder && (audio || video);
    let detail = app.shown_detail();
    let selection = app.selection_for(item.id);
    let m0 = Seq::<(Seq<char>, ItemMenuAction)>::empty();
    let l0 = "Show lyrics"@;
    lemma_entry_if(m0, audio, l0, ItemMenuAction::ShowLyrics, entry);
    let m1 = m0 + menus::entry_if(audio, l0, ItemMenuAction::ShowLyrics);
    let l1 = if audio {
        "Show info"@
    } else {
        "Load info"@
    };
    lemma_entry_if(m1, true, l1, ItemMenuAction::LoadInfo, entry);
    let m2 = m1 + menus::entry_if(true, l1, ItemMenuAction::LoadInfo);
    let l2 = "Play"@;
    lemma_entry_if(m2, playable, l2, ItemMenuAction::Play, entry);
    let m3 = m2 + menus::entry_if(playable, l2, ItemMenuAction::Play);
    let l3 = if item.is_favorite {
        "Remove from favorites"@
    } else {
        "Add to favorites"@
    };
    lemma_entry_if(m3, true, l3, ItemMenuAction::ToggleFavorite, entry);
    let m4 = m3 + menus::entry_if(true, l3, ItemMenuAction::ToggleFavorite);
    let l4 = if item.is_played {
        "Mark unplayed"@
    } else {
        "Mark played"@
    };
    lemma_entry_if(m4, playable, l4, ItemMenuAction::TogglePlayed, entry);
    let m5 = m4 + menus::entry_if(playable, l4, ItemMenuAction::TogglePlayed);
    lemma_entry_of(
        m5,
        menus::prefixed("Browse by genre: "@, menus::first_genre(detail)),
        ItemMenuAction::BrowseByGenre,
        entry,
    );
    let m6 = m5 + menus::entry_of(
        menus::prefixed("Browse by genre: "@, menus::first_genre(detail)),
        ItemMenuAction::BrowseByGenre,
    );
    lemma_entry_of(
        m6,
        menus::prefixed("Browse by person: "@, menus::first_browsable(detail)),
        ItemMenuAction::BrowseByPerson,
        entry,
    );
    let m7 = m6 + menus::entry_of(
        menus::prefixed("Browse by person: "@, menus::first_browsable(detail)),
        ItemMenuAction::BrowseByPerson,
    );
    lemma_entry_of(m7, labels::artist_entry(item), ItemMenuAction::GoToArtist, entry);
    let m8 = m7 + menus::entry_of(labels::artist_entry(item), ItemMenuAction::GoToArtist);
    lemma_entry_of(m8, labels::album_entry(item), ItemMenuAction::GoToAlbum, entry);
    let m9 = m8 + menus::entry_of(labels::album_entry(item), ItemMenuAction::GoToAlbum);
    let l9 = "Add to playlist…"@;
    lemma_entry_if(m9, true, l9, ItemMenuAction::AddToPlaylist, entry);
    let m10 = m9 + menus::entry_if(true, l9, ItemMenuAction::AddToPlaylist);
    let l10 = "Play next"@;
    lemma_entry_if(m10, audio, l10, ItemMenuAction::PlayNext, entry);
    let m11 = m10 + menus::entry_if(audio, l10, ItemMenuAction::PlayNext);
    let l11 = "Add to queue"@;
    lemma_entry_if(m11, audio, l11, ItemMenuAction::AddToQueue, entry);
    let m12 = m11 + menus::entry_if(audio, l11, ItemMenuAction::AddToQueue);
    let l12 = "Instant mix"@;
    lemma_entry_if(m12, audio, l12, ItemMenuAction::InstantMix, entry);
    let m13 = m12 + menus::entry_if(audio, l12, ItemMenuAction::InstantMix);
    let l13 = "Genre radio"@;
    lemma_entry_if(m13, audio, l13, ItemMenuAction::GenreRadio, entry);
    let m14 = m13 + menus::entry_if(audio, l13, ItemMenuAction::GenreRadio);
    let l14 = "Save queue as playlist…"@;
    lemma_entry_if(m14, audio, l14, ItemMenuAction::SaveQueueAsPlaylist, entry);
    let m15 = m14 + menus::entry_if(audio, l14, ItemMenuAction::SaveQueueAsPlaylist);
    let l15 = "Dislike track"@;
    lemma_entry_if(m15, audio, l15, ItemMenuAction::Dislike, entry);
    let m16 = m15 + menus::entry_if(audio, l15, ItemMenuAction::Dislike);
    let l16 = "Watch trailer"@;
    lemma_entry_if(m16, menus::first_trailer(detail) is Some, l16, ItemMenuAction::WatchTrailer, entry);
    let m17 = m16 + menus::entry_if(menus::first_trailer(detail) is Some, l16, ItemMenuAction::WatchTrailer);
    let l17 = "Audio track: "@ + labels::choice_text(selection.audio);
    lemma_entry_if(m17, video, l17, ItemMenuAction::AudioTrack, entry);
    let m18 = m17 + menus::entry_if(video, l17, ItemMenuAction::AudioTrack);
    let l18 = "Subtitles: "@ + labels::choice_text(selection.subtitle);
    lemma_entry_if(m18, video, l18, ItemMenuAction::Subtitles, entry);
    let m19 = m18 + menus::entry_if(video, l18, ItemMenuAction::Subtitles);
    let l19 = "Shuffle: "@ + labels::on_off_text(app.shuffle);
    lemma_entry_if(m19, true, l19, ItemMenuAction::ToggleShuffle, entry);
    let m20 = m19 + menus::entry_if(true, l19, ItemMenuAction::ToggleShuffle);
    let l20 = "Repeat: "@ + app.repeat_mode.text();
    lemma_entry_if(m20, true, l20, ItemMenuAction::CycleRepeat, entry);
    let m21 = m20 + menus::entry_if(true, l20, ItemMenuAction::CycleRepeat);
    let l21 = labels::sleep_menu_text(app.sleep_timer, app.sleep_remaining_secs);
    lemma_entry_if(m21, true, l21, ItemMenuAction::OpenSleepTimerPicker, entry);
    let m22 = m21 + menus::entry_if(true, l21, ItemMenuAction::OpenSleepTimerPicker);
    let l22 = "Copy URL to clipboard"@;
    lemma_entry_if(m22, true, l22, ItemMenuAction::CopyUrl, entry);
    let m23 = m22 + menus::entry_if(true, l22, ItemMenuAction::CopyUrl);
    assert(m23 == app.item_menu_for(item));
}

/// The menu keeps one order whatever it leaves out, and lists nothing twice.
pub proof fn the_item_menu_keeps_its_order(app: AppModel, item: ItemModel, i: int, j: int)
    requires
        0 <= i < j < app.item_menu_for(item).len(),
    ensures
        place_of(app.item_menu_for(item)[i].1) < place_of(app.item_menu_for(item)[j].1),
{
    lemma_item_menu(app, item, app.item_menu_for(item)[i]);
}

/// Every item can be looked up, marked as a favorite, put on a playlist and linked to;
/// the marks are named by what choosing them does.
pub proof fn every_item_offers_the_common_entries(app: AppModel, item: ItemModel)
    ensures
        ({
            let menu = app.item_menu_for(item);
            let audio = item.media() == MediaKind::Audio;
            &&& menu.contains(("Add to playlist…"@, ItemMenuAction::AddToPlaylist))
            &&& menu.contains(("Copy URL to clipboard"@, ItemMenuAction::CopyUrl))
            &&& audio ==> menu.contains(("Show info"@, ItemMenuAction::LoadInfo))
            &&& !audio ==> menu.contains(("Load info"@, ItemMenuAction::LoadInfo))
            &&& item.is_favorite ==> menu.contains(
                ("Remove from favorites"@, ItemMenuAction::ToggleFavorite),
            )
            &&& !item.is_favorite ==> menu.contains(
                ("Add to favorites"@, ItemMenuAction::ToggleFavorite),
            )
        }),
{
    lemma_item_menu(app, item, ("Add to playlist…"@, ItemMenuAction::AddToPlaylist));
    lemma_item_menu(app, item, ("Copy URL to clipboard"@, ItemMenuAction::CopyUrl));
    lemma_item_menu(app, item, ("Show info"@, ItemMenuAction::LoadInfo));
    lemma_item_menu(app, item, ("Load info"@, ItemMenuAction::LoadInfo));
    lemma_item_menu(app, item, ("Remove from favorites"@, ItemMenuAction::ToggleFavorite));
    lemma_item_menu(app, item, ("Add to favorites"@, ItemMenuAction::ToggleFavorite));
}

/// Only what can be played can be played and marked as played.
pub proof fn playable_items_offer_to_play(app: AppModel, item: ItemModel, label: Seq<char>)
    ensures
        ({
            let menu = app.item_menu_for(item);
            let playable = !item.is_folder && (item.media() == MediaKind::Audio || item.media()
                == MediaKind::Video);
            &&& menu.contains((label, ItemMenuAction::Play)) <==> playable && label == "Play"@
            &&& menu.contains((label, ItemMenuAction::TogglePlayed)) <==> playable && label == (
            if item.is_played {
                "Mark unplayed"@
            } else {
                "Mark played"@
            })
        }),
{
    lemma_item_menu(app, item, (label, ItemMenuAction::Play));
    lemma_item_menu(app, item, (label, ItemMenuAction::TogglePlayed));
}

/// Lyrics, the queue, mixes and dislikes are for tracks only.
pub proof fn tracks_offer_the_queue(app: AppModel, item: ItemModel, label: Seq<char>)
    ensures
        ({
            let menu = app.item_menu_for(item);
            let audio = item.media() == MediaKind::Audio;
            &&& menu.contains((label, ItemMenuAction::ShowLyrics)) <==> audio && label
                == "Show lyrics"@
            &&& menu.contains((label, ItemMenuAction::PlayNext)) <==> audio && label
                == "Play next"@
            &&& menu.contains((label, ItemMenuAction::AddToQueue)) <==> audio && label
                == "Add to queue"@
            &&& menu.contains((label, ItemMenuAction::InstantMix)) <==> audio && label
                == "Instant mix"@
            &&& menu.contains((label, ItemMenuAction::GenreRadio)) <==> audio && label
                == "Genre radio"@
            &&& menu.contains((label, ItemMenuAction::SaveQueueAsPlaylist)) <==> audio && label
                == "Save queue as playlist…"@
            &&& menu.contains((label, ItemMenuAction::Dislike)) <==> audio && label
                == "Dislike track"@
        }),
{
    lemma_item_menu(app, item, (label, ItemMenuAction::ShowLyrics));
    lemma_item_menu(app, item, (label, ItemMenuAction::PlayNext));
    lemma_item_menu(app, item, (label, ItemMenuAction::AddToQueue));
    lemma_item_menu(app, item, (label, ItemMenuAction::InstantMix));
    lemma_item_menu(app, item, (label, ItemMenuAction::GenreRadio));
    lemma_item_menu(app, item, (label, ItemMenuAction::SaveQueueAsPlaylist));
    lemma_item_menu(app, item, (label, ItemMenuAction::Dislike));
}

/// Tracks are picked for videos only, and the entries name what is picked now.
pub proof fn videos_offer_their_tracks(app: AppModel, item: ItemModel, label: Seq<char>)
    ensures
        ({
            let menu = app.item_menu_for(item);
            let video = item.media() == MediaKind::Video;
            let picked = app.selection_for(item.id);
            &&& menu.contains((label, ItemMenuAction::AudioTrack)) <==> video && label
                == "Audio track: "@ + labels::choice_text(picked.audio)
            &&& menu.contains((label, ItemMenuAction::Subtitles)) <==> video && label
                == "Subtitles: "@ + labels::choice_text(picked.subtitle)
        }),
{
    lemma_item_menu(app, item, (label, ItemMenuAction::AudioTrack));
    lemma_item_menu(app, item, (label, ItemMenuAction::Subtitles));
}

/// Browsing and trailers are offered where the shown detail has something to go by, and
/// the entries name it.
pub proof fn details_offer_what_they_name(app: AppModel, item: ItemModel, label: Seq<char>)
    ensures
        ({
            let menu = app.item_menu_for(item);
            let detail = app.shown_detail();
            let has_genre = detail is Some && detail->0.genres.len() > 0;
            let has_trailer = detail is Some && detail->0.trailer_urls.len() > 0;
            &&& menu.contains((label, ItemMenuAction::BrowseByGenre)) <==> has_genre && label
                == "Browse by genre: "@ + detail->0.genres[0]
            &&& menu.contains((label, ItemMenuAction::WatchTrailer)) <==> has_trailer && label
                == "Watch trailer"@
            &&& detail is None ==> !menu.contains((label, ItemMenuAction::BrowseByPerson))
        }),
{
    lemma_item_menu(app, item, (label, ItemMenuAction::BrowseByGenre));
    lemma_item_menu(app, item, (label, ItemMenuAction::WatchTrailer));
    lemma_item_menu(app, item, (label, ItemMenuAction::BrowseByPerson));
}

/// A person can be browsed by where someone in the cast has an id and a name; the entry
/// names the first such person.
pub proof fn the_first_known_person_is_offered(
    app: AppModel,
    item: ItemModel,
    label: Seq<char>,
    i: int,
)
    requires
        app.shown_detail() is Some,
        0 <= i < app.shown_detail()->0.cast.len(),
        app.shown_detail()->0.cast[i].id is Some,
        app.shown_detail()->0.cast[i].name.len() > 0,
        forall|j: int|
            0 <= j < i ==> (#[trigger] app.shown_detail()->0.cast[j]).id is None
                || app.shown_detail()->0.cast[j].name.len() == 0,
    ensures
        app.item_menu_for(item).contains((label, ItemMenuAction::BrowseByPerson)) <==> label
            == "Browse by person: "@ + app.shown_detail()->0.cast[i].name,
{
    lemma_item_menu(app, item, (label, ItemMenuAction::BrowseByPerson));
    sequences::lemma_first_index_found(app.shown_detail()->0.cast, menus::is_browsable(), i);
}

/// The artist is offered for anything but an artist that has one, and the album for
/// anything that has one, by name where the name is known.
pub proof fn artist_and_album_are_offered_where_known(
    app: AppModel,
    item: ItemModel,
    label: Seq<char>,
)
    ensures
        ({
            let menu = app.item_menu_for(item);
            let artist = item.kind != Some("MusicArtist"@) && item.primary_artist_id is Some
                && item.primary_artist_id->0.len() > 0;
            let album = item.album_id is Some && item.album_id->0.len() > 0;
            &&& menu.contains((label, ItemMenuAction::GoToArtist)) <==> artist && label
                == "Go to artist: "@ + (if item.primary_artist_name is Some
                && item.primary_artist_name->0.len() > 0 {
                item.primary_artist_name->0
            } else {
                "artist"@
            })
            &&& menu.contains((label, ItemMenuAction::GoToAlbum)) <==> album && label
                == "Go to album: "@ + (if item.album_name is Some && item.album_name->0.len() > 0 {
                item.album_name->0
            } else {
                "album"@
            })
        }),
{
    lemma_item_menu(app, item, (label, ItemMenuAction::GoToArtist));
    lemma_item_menu(app, item, (label, ItemMenuAction::GoToAlbum));
}

/// Shuffle, repeat and the sleep timer are always offered, each with its present state.
pub proof fn the_player_switches_show_their_state(app: AppModel, item: ItemModel, label: Seq<char>)
    ensures
        ({
            let menu = app.item_menu_for(item);
            &&& menu.contains((label, ItemMenuAction::ToggleShuffle)) <==> label == "Shuffle: "@ + (
            if app.shuffle {
                "on"@
            } else {
                "off"@
            })
            &&& menu.contains((label, ItemMenuAction::CycleRepeat)) <==> label == "Repeat: "@
                + app.repeat_mode.text()
            &&& app.sleep_timer == SleepTimer::Off ==> (menu.contains(
                (label, ItemMenuAction::OpenSleepTimerPicker),
            ) <==> label == "Sleep timer: Off"@)
            &&& app.sleep_timer == SleepTimer::EndOfTrack ==> (menu.contains(
                (label, ItemMenuAction::OpenSleepTimerPicker),
            ) <==> label == "Sleep timer: End of track"@)
            &&& app.sleep_timer != SleepTimer::Off && app.sleep_timer != SleepTimer::EndOfTrack
                && app.sleep_remaining_secs is None ==> (menu.contains(
                (label, ItemMenuAction::OpenSleepTimerPicker),
            ) <==> label == "Sleep timer: "@ + app.sleep_timer.text())
            &&& app.sleep_timer != SleepTimer::Off && app.sleep_timer != SleepTimer::EndOfTrack
                && app.sleep_remaining_secs is Some ==> (menu.contains(
                (label, ItemMenuAction::OpenSleepTimerPicker),
            ) <==> label == "Sleep timer: "@ + app.sleep_timer.text() + " ("@
                + labels::remaining_text(app.sleep_remaining_secs->0) + " left)"@)
        }),
{
    lemma_item_menu(app, item, (label, ItemMenuAction::ToggleShuffle));
    lemma_item_menu(app, item, (label, ItemMenuAction::CycleRepeat));
    lemma_item_menu(app, item, (label, ItemMenuAction::OpenSleepTimerPicker));
}

/// The menu is that of the current item, and there is none without one.
pub proof fn the_menu_is_for_the_current_item(app: AppModel)
    ensures
        app.current_item() matches Some(item) ==> app.item_menu() == app.item_menu_for(item),
        app.current_item() is None ==> app.item_menu().len() == 0,
        app.current_item() is None ==> app.item_menu_opened() == app,
        app.current_item() is Some ==> app.item_menu_opened() == (AppModel {
            popup: Some(PopupMenu::Item(0)),
            ..app
        }),
{
}

// ---------------------------------------------------------------------------
// Walking and choosing

/// Up and Down move the highlight by one entry and stop at the ends; Escape closes the
/// menu and does nothing else.
pub proof fn the_menu_highlight_moves_by_one(app: AppModel, popup: PopupMenu, now: Option<Duration>)
    requires
        app.popup == Some(popup),
        popup.row() < app.popup_len(popup) <= usize::MAX,
    ensures
        ({
            let row = popup.row();
            let len = app.popup_len(popup);
            let down = app.popup_key(KeyCode::Down, now);
            let up = app.popup_key(KeyCode::Up, now);
            &&& down.popup is Some && up.popup is Some
            &&& row + 1 < len ==> down.popup->0.row() == row + 1
            &&& row + 1 == len ==> down.popup->0.row() == row
            &&& row > 0 ==> up.popup->0.row() == row - 1
            &&& row == 0 ==> up.popup->0.row() == 0
            &&& down.popup->0 is Item <==> popup is Item
            &&& down.popup->0 is Client <==> popup is Client
            &&& up.popup->0 is Item <==> popup is Item
            &&& up.popup->0 is Client <==> popup is Client
            &&& down == (AppModel { popup: down.popup, ..app })
            &&& up == (AppModel { popup: up.popup, ..app })
            &&& app.popup_key(KeyCode::Esc, now) == (AppModel { popup: None, ..app })
        }),
{
}

/// Enter on an entry of the per-item menu closes the menu and does what that entry says.
pub proof fn enter_does_what_the_item_entry_says(app: AppModel, row: usize, now: Option<Duration>)
    requires
        app.popup == Some(PopupMenu::Item(row)),
        row < app.item_menu().len(),
    ensures
        app.popup_key(KeyCode::Enter, now) == (AppModel { popup: None, ..app }).item_action(
            app.item_menu()[row as int].1,
            now,
        ),
{
    reveal(AppModel::popup_len);
    reveal(AppModel::popup_chosen);
    let closed = app.with_popup(None);
    assert(closed.current_item() == app.current_item());
    assert(closed.shown_detail() == app.shown_detail());
    assert(closed.item_menu() == app.item_menu());
}

/// Enter on an entry of the client menu closes the menu and does what that entry says.
pub proof fn enter_does_what_the_client_entry_says(app: AppModel, row: usize, now: Option<Duration>)
    requires
        app.popup == Some(PopupMenu::Client(row)),
        row < app.client_menu().len(),
    ensures
        app.popup_key(KeyCode::Enter, now) == (AppModel { popup: None, ..app }).client_action(
            app.client_menu()[row as int].1,
        ),
{
    reveal(AppModel::popup_len);
    reveal(AppModel::popup_chosen);
    let closed = app.with_popup(None);
    assert(closed.current_library() == app.current_library());
    assert(closed.client_menu() == app.client_menu());
}

/// Enter on a sleep-timer choice closes the overlay and arms that very choice.
pub proof fn enter_arms_the_highlighted_timer(app: AppModel, row: usize, now: Option<Duration>)
    requires
        app.popup == Some(PopupMenu::SleepTimer(row)),
        row < types::sleep_presets().len(),
    ensures
        ({
            let after = app.popup_key(KeyCode::Enter, now);
            &&& after.popup is None
            &&& after.sleep_timer == types::sleep_presets()[row as int]
        }),
{
    reveal(AppModel::popup_len);
    reveal(AppModel::popup_chosen);
}

/// The overlay names each choice, and the active one with what is left of it.
pub proof fn the_sleep_overlay_names_each_choice(app: AppModel, row: int)
    requires
        0 <= row < types::sleep_presets().len(),
    ensures
        ({
            let preset = types::sleep_presets()[row];
            let entry = app.sleep_menu()[row];
            let active = preset == app.sleep_timer;
            &&& app.sleep_menu().len() == types::sleep_presets().len()
            &&& entry.1 == preset
            &&& !active && preset != SleepTimer::Off ==> entry.0 == preset.text()
            &&& !active && preset == SleepTimer::Off ==> entry.0 == "Cancel timer"@
            &&& active && app.sleep_remaining_secs is Some ==> entry.0 == preset.text() + "  · "@
                + labels::remaining_text(app.sleep_remaining_secs->0) + " left"@
            &&& active && app.sleep_remaining_secs is None && preset != SleepTimer::Off ==> entry.0
                == preset.text() + "  · active"@
            &&& active && app.sleep_remaining_secs is None && preset == SleepTimer::Off ==> entry.0
                == preset.text()
        }),
{
}

// ---------------------------------------------------------------------------
// What the entries do

/// Browsing by genre or by person filters the active library by the first of the shown
/// item's, keeps every other filter, and applies its first section.
pub proof fn browsing_filters_by_what_is_shown(app: AppModel, now: Option<Duration>)
    requires
        app.library_selected < app.libraries.len(),
        app.shown_detail() is Some,
    ensures
        ({
            let library = app.libraries[app.library_selected as int];
            let detail = app.shown_detail()->0;
            let before = app.filters_for(library.id);
            let genre = app.item_action(ItemMenuAction::BrowseByGenre, now);
            &&& detail.genres.len() > 0 ==> {
                &&& genre.section_filters.dom().contains(library.id)
                &&& genre.section_filters[library.id] == (SectionFiltersModel {
                    genres: seq![detail.genres[0]],
                    ..before
                })
                &&& genre.section_filters.remove(library.id) == app.section_filters.remove(
                    library.id,
                )
                &&& genre.section_selected == 0
                &&& genre.stack.len() == 1
                &&& genre.stack[0].parent_id == library.id
                &&& genre.stack[0].loading
                &&& genre.pending[app.pending.len() as int] == (IntentModel::ApplySection {
                    library_id: library.id,
                    section: sections::sections_of(library.collection_type)[0],
                    extras: genre.section_filters[library.id],
                })
            }
            &&& detail.genres.len() == 0 ==> genre.section_filters == app.section_filters
                && genre.pending == app.pending && genre.stack == app.stack
        }),
{
    reveal(AppModel::item_action);
    let library = app.libraries[app.library_selected as int];
    let genre = app.item_action(ItemMenuAction::BrowseByGenre, now);
    sections::first_section_is_all(library.collection_type);
    assert(genre.section_filters.remove(library.id) =~= app.section_filters.remove(library.id));
}

/// Browsing by person filters the active library by the first of the cast who has an id.
pub proof fn browsing_by_person_takes_the_first_known(app: AppModel, now: Option<Duration>, i: int)
    requires
        app.library_selected < app.libraries.len(),
        app.shown_detail() is Some,
        0 <= i < app.shown_detail()->0.cast.len(),
        app.shown_detail()->0.cast[i].id is Some,
        forall|j: int| 0 <= j < i ==> (#[trigger] app.shown_detail()->0.cast[j]).id is None,
    ensures
        ({
            let library = app.libraries[app.library_selected as int];
            let person = app.shown_detail()->0.cast[i];
            let after = app.item_action(ItemMenuAction::BrowseByPerson, now);
            &&& after.section_filters.dom().contains(library.id)
            &&& after.section_filters[library.id] == (SectionFiltersModel {
                person_ids: seq![person.id->0],
                ..app.filters_for(library.id)
            })
            &&& after.section_filters.remove(library.id) == app.section_filters.remove(library.id)
            &&& after.section_selected == 0
            &&& after.pending[app.pending.len() as int] == (IntentModel::ApplySection {
                library_id: library.id,
                section: sections::sections_of(library.collection_type)[0],
                extras: after.section_filters[library.id],
            })
        }),
{
    reveal(AppModel::item_action);
    let library = app.libraries[app.library_selected as int];
    let after = app.item_action(ItemMenuAction::BrowseByPerson, now);
    sequences::lemma_first_index_found(app.shown_detail()->0.cast, actions::has_id(), i);
    sections::first_section_is_all(library.collection_type);
    assert(after.section_filters.remove(library.id) =~= app.section_filters.remove(library.id));
}

/// Going to the album or the artist opens the folder of that very id.
pub proof fn going_to_album_or_artist_opens_its_folder(app: AppModel, now: Option<Duration>)
    requires
        app.current_item() is Some,
    ensures
        ({
            let item = app.current_item()->0;
            let album = app.item_action(ItemMenuAction::GoToAlbum, now);
            let artist = app.item_action(ItemMenuAction::GoToArtist, now);
            &&& item.album_id is Some ==> {
                &&& album.stack.len() == app.stack.len() + 1
                &&& album.stack.last().parent_id == item.album_id->0
                &&& album.pending.last() is OpenFolder
                &&& album.pending.last()->OpenFolder_id == item.album_id->0
                &&& item.album_name is Some ==> album.stack.last().title == item.album_name->0
            }
            &&& item.album_id is None ==> album.stack == app.stack && album.pending == app.pending
            &&& item.primary_artist_id is Some ==> {
                &&& artist.stack.len() == app.stack.len() + 1
                &&& artist.stack.last().parent_id == item.primary_artist_id->0
                &&& artist.pending.last() is OpenFolder
                &&& artist.pending.last()->OpenFolder_id == item.primary_artist_id->0
                &&& item.primary_artist_name is Some && item.primary_artist_name->0.len() > 0
                    ==> artist.stack.last().title == item.primary_artist_name->0
            }
            &&& item.primary_artist_id is None ==> artist.stack == app.stack && artist.pending
                == app.pending
        }),
{
    reveal(AppModel::item_action);
}

/// A focused track goes next or last into a queue that plays, and starts where there is
/// none; nothing else can be queued.
pub proof fn queueing_puts_the_track_where_it_says(app: AppModel, now: Option<Duration>)
    requires
        app.current_item() is Some,
    ensures
        ({
            let item = app.current_item()->0;
            let next = app.item_action(ItemMenuAction::PlayNext, now);
            let last = app.item_action(ItemMenuAction::AddToQueue, now);
            &&& item.media() != MediaKind::Audio ==> next.queue == app.queue && last.queue
                == app.queue && next.pending == app.pending && last.pending == app.pending
            &&& item.media() == MediaKind::Audio && app.queue.len() == 0 ==> {
                let play = IntentModel::Play { item, media: MediaKind::Audio, start_ticks: None };
                next.pending == app.pending.push(play) && last.pending == app.pending.push(play)
            }
            &&& item.media() == MediaKind::Audio && app.queue.len() > 0 ==> {
                &&& last.queue == app.queue.push(item)
                &&& last.pending == app.pending && next.pending == app.pending
                &&& next.queue.len() == app.queue.len() + 1
                &&& app.queue_index is Some && app.queue_index->0 < app.queue.len()
                    ==> next.queue == app.queue.insert(app.queue_index->0 + 1, item)
            }
        }),
{
    reveal(AppModel::item_action);
}

/// The requests of the per-item menu name the current item.
pub proof fn item_requests_name_the_current_item(app: AppModel, now: Option<Duration>)
    requires
        app.current_item() is Some,
    ensures
        ({
            let item = app.current_item()->0;
            let detail = IntentModel::LoadCurrentDetail { item_id: item.id, kind: item.kind };
            &&& app.item_action(ItemMenuAction::LoadInfo, now).pending == app.pending.push(detail)
            &&& app.item_action(ItemMenuAction::LoadInfo, now).context_view == ContextTopView::Info
            &&& app.item_action(ItemMenuAction::ShowLyrics, now).pending == app.pending.push(detail)
            &&& app.item_action(ItemMenuAction::ShowLyrics, now).context_view
                == ContextTopView::Lyrics
            &&& app.item_action(ItemMenuAction::InstantMix, now).pending == app.pending.push(
                IntentModel::InstantMix { item },
            )
            &&& app.item_action(ItemMenuAction::Dislike, now).pending == app.pending.push(
                IntentModel::Dislike { item_id: item.id },
            )
            &&& app.item_action(ItemMenuAction::CopyUrl, now).pending == app.pending.push(
                IntentModel::CopyItemUrl { item_id: item.id, item_name: item.name },
            )
            &&& app.item_action(ItemMenuAction::Play, now) == app.activated()
            &&& app.item_action(ItemMenuAction::ToggleFavorite, now) == app.favorite_toggled()
            &&& app.item_action(ItemMenuAction::TogglePlayed, now) == app.played_toggled()
            &&& app.item_action(ItemMenuAction::AddToPlaylist, now) == app.playlist_picker_opened()
            &&& app.item_action(ItemMenuAction::AudioTrack, now) == app.track_picker_opened(
                VideoTrackKind::Audio,
            )
            &&& app.item_action(ItemMenuAction::Subtitles, now) == app.track_picker_opened(
                VideoTrackKind::Subtitle,
            )
            &&& app.item_action(ItemMenuAction::CycleRepeat, now) == app.repeat_cycled()
            &&& app.item_action(ItemMenuAction::OpenSleepTimerPicker, now)
                == app.sleep_picker_open()
        }),
{
    reveal(AppModel::item_action);
    assert(app.viewing(ContextTopView::Lyrics).current_item() == app.current_item());
}

/// A radio plays the shown item's first genre in the active library, a trailer is the
/// shown item's first.
pub proof fn radio_and_trailer_follow_the_detail(app: AppModel, now: Option<Duration>)
    requires
        app.shown_detail() is Some,
        app.current_item() is Some,
    ensures
        ({
            let detail = app.shown_detail()->0;
            let radio = app.item_action(ItemMenuAction::GenreRadio, now);
            let trailer = app.item_action(ItemMenuAction::WatchTrailer, now);
            &&& app.library_selected < app.libraries.len() && detail.genres.len() > 0
                ==> radio.pending == app.pending.push(
                IntentModel::GenreRadio {
                    library_id: app.libraries[app.library_selected as int].id,
                    genre: detail.genres[0],
                },
            )
            &&& detail.genres.len() == 0 ==> radio.pending == app.pending
            &&& detail.trailer_urls.len() > 0 ==> trailer.pending == app.pending.push(
                IntentModel::WatchTrailer {
                    url: detail.trailer_urls[0],
                    title: app.current_item()->0.name,
                },
            )
            &&& detail.trailer_urls.len() == 0 ==> trailer.pending == app.pending
            &&& radio.queue == app.queue && trailer.queue == app.queue
        }),
{
    reveal(AppModel::item_action);
}

/// A saved queue is a playlist of exactly the queue's tracks, in order; an empty queue is
/// not saved.
pub proof fn a_saved_queue_holds_every_track(app: AppModel, now: Option<Duration>)
    ensures
        ({
            let after = app.item_action(ItemMenuAction::SaveQueueAsPlaylist, now);
            &&& app.queue.len() == 0 ==> after.pending == app.pending
            &&& app.queue.len() > 0 ==> {
                &&& after.pending.drop_last() == app.pending
                &&& after.pending.last() matches IntentModel::CreatePlaylist { item_ids, .. }
                &&& item_ids.len() == app.queue.len()
                &&& forall|i: int|
                    0 <= i < item_ids.len() ==> #[trigger] item_ids[i] == app.queue[i].id
            }
            &&& after.queue == app.queue
        }),
{
    reveal(AppModel::item_action);
    let after = app.item_action(ItemMenuAction::SaveQueueAsPlaylist, now);
    if app.queue.len() > 0 {
        assert(after.pending.drop_last() =~= app.pending);
    }
}

// ---------------------------------------------------------------------------
// The client menu

/// The client menu lists the settings in a fixed order, each with its present value.
pub proof fn the_client_menu_shows_the_settings(app: AppModel)
    ensures
        ({
            let menu = app.client_menu();
            let filters = app.current_filters();
            let on_off = |on: bool| if on {
                "on"@
            } else {
                "off"@
            };
            &&& menu.len() == 11
            &&& menu[0] == ("Theme…"@, ClientMenuAction::Themes)
            &&& menu[1] == ("Sync with server now"@, ClientMenuAction::SyncNow)
            &&& menu[2] == ("Visible libraries…"@, ClientMenuAction::VisibleLibraries)
            &&& menu[3].1 == ClientMenuAction::CycleSort
            &&& filters.sort_override is None ==> menu[3].0 == "Sort by: "@ + "Section default"@
            &&& filters.sort_override is Some && filters.sort_override->0.len() > 0 ==> menu[3].0
                == "Sort by: "@ + filters.sort_override->0[0]
            &&& menu[4].1 == ClientMenuAction::ToggleUnplayed
            &&& menu[4].0 == "Show only unplayed: "@ + on_off(
                filters.filters.contains("IsUnplayed"@),
            )
            &&& menu[5].1 == ClientMenuAction::ClearFilters
            &&& filters == SectionFiltersModel::none() ==> menu[5].0 == "Clear filters (none)"@
            &&& (filters.genres.len() > 0 || filters.person_ids.len() > 0
                || filters.studio_ids.len() > 0 || filters.years.len() > 0 || filters.tags.len() > 0
                || filters.filters.len() > 0 || filters.sort_override is Some) ==> menu[5].0
                == "Clear filters (active)"@
            &&& menu[6] == ("Gapless audio: "@ + on_off(app.gapless), ClientMenuAction::ToggleGapless)
            &&& menu[7] == (
                "Volume normalization: "@ + on_off(app.normalization),
                ClientMenuAction::ToggleNormalization,
            )
            &&& menu[8] == (
                "EQ: "@ + labels::eq_text(app.eq_preset),
                ClientMenuAction::CycleEqPreset,
            )
            &&& menu[9] == (
                "Custom mpv args: "@ + text::decimal(app.mpv_arg_count as nat),
                ClientMenuAction::ShowMpvArgs,
            )
            &&& menu[10] == ("Quit"@, ClientMenuAction::Quit)
        }),
{
    let filters = app.current_filters();
    sequences::lemma_first_index(filters.filters, menus::is_unplayed());
    if filters.filters.contains("IsUnplayed"@) {
        let i = choose|i: int|
            0 <= i < filters.filters.len() && filters.filters[i] == "IsUnplayed"@;
        assert(menus::is_unplayed()(filters.filters[i]));
    }
}

/// The switches flip their setting, and tell the event loop the new value.
pub proof fn the_client_switches_flip(app: AppModel)
    ensures
        ({
            let gapless = app.client_action(ClientMenuAction::ToggleGapless);
            let normalization = app.client_action(ClientMenuAction::ToggleNormalization);
            let preset = app.client_action(ClientMenuAction::CycleEqPreset);
            &&& gapless.gapless == !app.gapless
            &&& gapless.pending == app.pending.push(IntentModel::SetGapless(!app.gapless))
            &&& normalization.normalization == !app.normalization
            &&& normalization.pending == app.pending.push(
                IntentModel::SetNormalization(!app.normalization),
            )
            &&& preset.pending == app.pending.push(IntentModel::SetEqPreset(preset.eq_preset))
            &&& preset.eq_preset != app.eq_preset
            &&& preset.eq_preset != EqPreset::Custom
            &&& gapless.normalization == app.normalization && gapless.eq_preset == app.eq_preset
            &&& normalization.gapless == app.gapless && normalization.eq_preset == app.eq_preset
            &&& preset.gapless == app.gapless && preset.normalization == app.normalization
        }),
{
    reveal(AppModel::client_action);
}

/// The presets come in the order flat, bass, vocal, treble, and then flat again.
pub proof fn equalizer_presets_come_round(app: AppModel)
    ensures
        ({
            let next = app.client_action(ClientMenuAction::CycleEqPreset).eq_preset;
            &&& app.eq_preset == EqPreset::Flat ==> next == EqPreset::BassBoost
            &&& app.eq_preset == EqPreset::BassBoost ==> next == EqPreset::Vocal
            &&& app.eq_preset == EqPreset::Vocal ==> next == EqPreset::TrebleBoost
            &&& app.eq_preset == EqPreset::TrebleBoost ==> next == EqPreset::Flat
            &&& app.eq_preset == EqPreset::Custom ==> next == EqPreset::Flat
        }),
{
    reveal(AppModel::client_action);
}

/// The remaining entries open their picker, ask for a sync, or leave.
pub proof fn the_client_entries_do_what_they_say(app: AppModel)
    ensures
        app.client_action(ClientMenuAction::Quit) == (AppModel { should_quit: true, ..app }),
        app.client_action(ClientMenuAction::SyncNow).pending == app.pending.push(
            IntentModel::SyncLibraries,
        ),
        app.client_action(ClientMenuAction::Themes) == app.theme_picker_opened(),
        app.client_action(ClientMenuAction::VisibleLibraries) == app.library_picker_opened(),
        app.client_action(ClientMenuAction::ShowMpvArgs).pending == app.pending,
        app.client_action(ClientMenuAction::ShowMpvArgs).status_message is Some,
{
    reveal(AppModel::client_action);
}

/// The unplayed filter is switched on and off for the active library alone, and nothing
/// else is filtered otherwise.
pub proof fn the_unplayed_filter_is_switched(app: AppModel)
    requires
        app.library_selected < app.libraries.len(),
        app.filters_for(
            app.libraries[app.library_selected as int].id,
        ).filters.no_duplicates(),
    ensures
        ({
            let library = app.libraries[app.library_selected as int];
            let before = app.filters_for(library.id);
            let after = app.client_action(ClientMenuAction::ToggleUnplayed);
            let now = after.section_filters[library.id];
            &&& after.section_filters.dom().contains(library.id)
            &&& now.filters.contains("IsUnplayed"@) == !before.filters.contains("IsUnplayed"@)
            &&& forall|flag: Seq<char>|
                flag != "IsUnplayed"@ ==> (#[trigger] now.filters.contains(flag)
                    <==> before.filters.contains(flag))
            &&& now == (SectionFiltersModel { filters: now.filters, ..before })
            &&& after.section_filters.remove(library.id) == app.section_filters.remove(library.id)
        }),
{
    reveal(AppModel::client_action);
    let library = app.libraries[app.library_selected as int];
    let before = app.filters_for(library.id);
    let after = app.client_action(ClientMenuAction::ToggleUnplayed);
    let now = after.section_filters[library.id];
    assert(after.section_filters.remove(library.id) =~= app.section_filters.remove(library.id));
    let p = menus::is_unplayed();
    let name = "IsUnplayed"@;
    sequences::lemma_first_index(before.filters, p);
    if before.filters.contains(name) {
        let k = choose|k: int| 0 <= k < before.filters.len() && before.filters[k] == name;
        assert(p(before.filters[k]));
        let i = sequences::first_index(before.filters, p)->0;
        assert(now.filters == before.filters.remove(i));
        assert forall|flag: Seq<char>| flag != name implies (#[trigger] now.filters.contains(flag)
            <==> before.filters.contains(flag)) by {
            if before.filters.contains(flag) {
                let j = choose|j: int| 0 <= j < before.filters.len() && before.filters[j] == flag;
                assert(now.filters[if j < i {
                    j
                } else {
                    j - 1
                }] == flag);
            }
            if now.filters.contains(flag) {
                let j = choose|j: int| 0 <= j < now.filters.len() && now.filters[j] == flag;
                assert(before.filters[if j < i {
                    j
                } else {
                    j + 1
                }] == flag);
            }
        }
        if now.filters.contains(name) {
            let j = choose|j: int| 0 <= j < now.filters.len() && now.filters[j] == name;
            let at = if j < i {
                j
            } else {
                j + 1
            };
            assert(before.filters[at] == name);
            assert(at != i);
        }
    } else {
        assert(now.filters == before.filters.push(name));
        assert(now.filters[before.filters.len() as int] == name);
        assert forall|flag: Seq<char>| flag != name implies (#[trigger] now.filters.contains(flag)
            <==> before.filters.contains(flag)) by {
            if before.filters.contains(flag) {
                let j = choose|j: int| 0 <= j < before.filters.len() && before.filters[j] == flag;
                assert(now.filters[j] == flag);
            }
        }
    }
}

/// Cleared filters are gone for the active library, and the other libraries keep theirs;
/// the section on display is fetched again without any.
pub proof fn cleared_filters_are_gone(app: AppModel)
    requires
        app.library_selected < app.libraries.len(),
        app.section_selected < sections::sections_of(
            app.libraries[app.library_selected as int].collection_type,
        ).len(),
    ensures
        ({
            let library = app.libraries[app.library_selected as int];
            let after = app.client_action(ClientMenuAction::ClearFilters);
            &&& !after.section_filters.dom().contains(library.id)
            &&& after.section_filters == app.section_filters.remove(library.id)
            &&& after.section_selected == app.section_selected
            &&& after.pending[app.pending.len() as int] matches IntentModel::ApplySection {
                library_id,
                extras,
                ..
            }
            &&& library_id == library.id
            &&& extras.genres.len() == 0 && extras.person_ids.len() == 0 && extras.years.len() == 0
            &&& extras.studio_ids.len() == 0 && extras.tags.len() == 0 && extras.filters.len() == 0
            &&& extras.sort_override is None
        }),
{
    reveal(AppModel::client_action);
}

/// Another sort order is the active library's alone, filters nothing, and the section on
/// display is fetched again in it.
pub proof fn a_sort_order_is_applied_at_once(app: AppModel)
    requires
        app.library_selected < app.libraries.len(),
        app.section_selected < sections::sections_of(
            app.libraries[app.library_selected as int].collection_type,
        ).len(),
    ensures
        ({
            let library = app.libraries[app.library_selected as int];
            let before = app.filters_for(library.id);
            let after = app.client_action(ClientMenuAction::CycleSort);
            let now = after.section_filters[library.id];
            &&& after.section_filters.dom().contains(library.id)
            &&& now == (SectionFiltersModel { sort_override: now.sort_override, ..before })
            &&& after.section_filters.remove(library.id) == app.section_filters.remove(library.id)
            &&& after.section_selected == app.section_selected
            &&& after.pending[app.pending.len() as int] matches IntentModel::ApplySection {
                library_id,
                extras,
                ..
            }
            &&& library_id == library.id
            &&& extras == now
        }),
{
    reveal(AppModel::client_action);
    let library = app.libraries[app.library_selected as int];
    let after = app.client_action(ClientMenuAction::CycleSort);
    assert(after.section_filters.remove(library.id) =~= app.section_filters.remove(library.id));
}

/// The sort orders follow one another by name, newest, year, rating, plays, random and
/// runtime, and then the section's own order comes back.
pub proof fn sort_orders_follow_one_another(keys: Seq<Seq<char>>)
    requires
        keys.len() > 0,
    ensures
        sections::sort_after(None) == Some(seq!["SortName"@]),
        keys[0] == "SortName"@ ==> sections::sort_after(Some(keys)) == Some(seq!["DateCreated"@]),
        keys[0] == "DateCreated"@ ==> sections::sort_after(Some(keys)) == Some(
            seq!["ProductionYear"@],
        ),
        keys[0] == "ProductionYear"@ ==> sections::sort_after(Some(keys)) == Some(
            seq!["CommunityRating"@],
        ),
        keys[0] == "CommunityRating"@ ==> sections::sort_after(Some(keys)) == Some(
            seq!["PlayCount"@],
        ),
        keys[0] == "PlayCount"@ ==> sections::sort_after(Some(keys)) == Some(seq!["Random"@]),
        keys[0] == "Random"@ ==> sections::sort_after(Some(keys)) == Some(seq!["Runtime"@]),
        keys[0] == "Runtime"@ ==> sections::sort_after(Some(keys)) is None,
{
    reveal_strlit("SortName");
    reveal_strlit("DateCreated");
    reveal_strlit("ProductionYear");
    reveal_strlit("CommunityRating");
    reveal_strlit("PlayCount");
    reveal_strlit("Random");
    reveal_strlit("Runtime");
    assert("SortName"@[0] != "DateCreated"@[0]);
    assert("SortName"@[0] != "ProductionYear"@[0]);
    assert("SortName"@[0] != "CommunityRating"@[0]);
    assert("SortName"@[0] != "PlayCount"@[0]);
    assert("SortName"@[0] != "Random"@[0]);
    assert("SortName"@[0] != "Runtime"@[0]);
    assert("DateCreated"@[0] != "ProductionYear"@[0]);
    assert("DateCreated"@[0] != "CommunityRating"@[0]);
    assert("DateCreated"@[0] != "PlayCount"@[0]);
    assert("DateCreated"@[0] != "Random"@[0]);
    assert("DateCreated"@[0] != "Runtime"@[0]);
    assert("ProductionYear"@[0] != "CommunityRating"@[0]);
    assert("ProductionYear"@[1] != "PlayCount"@[1]);
    assert("ProductionYear"@[0] != "Random"@[0]);
    assert("ProductionYear"@[0] != "Runtime"@[0]);
    assert("CommunityRating"@[0] != "PlayCount"@[0]);
    assert("CommunityRating"@[0] != "Random"@[0]);
    assert("CommunityRating"@[0] != "Runtime"@[0]);
    assert("PlayCount"@[0] != "Random"@[0]);
    assert("PlayCount"@[0] != "Runtime"@[0]);
    assert("Random"@[1] != "Runtime"@[1]);
}

} // verus!
