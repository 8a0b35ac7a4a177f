//! What the server is asked for: every request says what the user asked for.

use vstd::prelude::*;
use vstd::string::*;

use crate::config::SettingModel;
use crate::sequences;
use crate::ui::app::state;
use crate::ui::app::state::AppModel;
use crate::ui::app::types::{IntentModel, Section, SectionFilters};
use crate::ui::browse;
use crate::ui::browse::ItemsQuery;
use crate::ui::details;
use crate::ui::details::{DetailWants, ItemFacts};
use crate::ui::run::CommandModel;

verus! {

/// Whether a request filters by nothing: no genre, person, studio, year, tag, flag or
/// artist.
pub open spec fn unfiltered(query: ItemsQuery) -> bool {
    &&& query.genres@.len() == 0
    &&& query.person_ids@.len() == 0
    &&& query.studio_ids@.len() == 0
    &&& query.years@.len() == 0
    &&& query.tags@.len() == 0
    &&& query.filters@.len() == 0
    &&& query.artist_ids@.len() == 0
    &&& query.album_artist_ids@.len() == 0
}

proof fn lemma_unfiltered(query: ItemsQuery)
    ensures
        query@.genres.len() == query.genres@.len(),
        query@.person_ids.len() == query.person_ids@.len(),
        query@.studio_ids.len() == query.studio_ids@.len(),
        query@.years.len() == query.years@.len(),
        query@.tags.len() == query.tags@.len(),
        query@.filters.len() == query.filters@.len(),
        query@.artist_ids.len() == query.artist_ids@.len(),
        query@.album_artist_ids.len() == query.album_artist_ids@.len(),
        query@.include_item_types.len() == query.include_item_types@.len(),
        query@.sort_by.len() == query.sort_by@.len(),
{
}

// ---------------------------------------------------------------------------
// Sections

/// Each filter of a section request reaches the server unchanged: genres, people,
/// studios, years, tags and flags of the query are those of the filters, and it asks for
/// the section's library and item types.
pub proof fn section_filters_reach_the_server(
    library_id: &str,
    section: Section,
    extras: SectionFilters,
    query: ItemsQuery,
)
    requires
        call_ensures(browse::section_query, (library_id, &section, &extras), query),
    ensures
        query.parent_id.deep_view() == Some(library_id@),
        query.include_item_types.deep_view() == section.item_types.deep_view(),
        query.genres.deep_view() == extras.genres.deep_view(),
        query.person_ids.deep_view() == extras.person_ids.deep_view(),
        query.studio_ids.deep_view() == extras.studio_ids.deep_view(),
        query.years.deep_view() == extras.years.deep_view(),
        query.tags.deep_view() == extras.tags.deep_view(),
        query.filters.deep_view() == extras.filters.deep_view(),
        query.search_term is None,
        query.artist_ids@.len() == 0,
        query.album_artist_ids@.len() == 0,
        query.limit == Some(500i32),
        query.fields.deep_view() == seq!["Overview"@],
{
    lemma_unfiltered(query);
}

/// A section request is sorted by the order picked at run time; without one, in the
/// section's own order.
pub proof fn a_picked_order_wins_over_the_sections(
    library_id: &str,
    section: Section,
    extras: SectionFilters,
    query: ItemsQuery,
)
    requires
        call_ensures(browse::section_query, (library_id, &section, &extras), query),
    ensures
        extras.sort_override matches Some(keys) ==> query.sort_by.deep_view() == keys.deep_view(),
        extras.sort_override is None ==> query.sort_by.deep_view() == section.sort_by.deep_view(),
{
}

/// A section request goes into subfolders exactly where the section names item types or
/// something is filtered by; a sort order alone does not widen it.
pub proof fn sections_widen_only_for_types_and_filters(
    library_id: &str,
    section: Section,
    extras: SectionFilters,
    query: ItemsQuery,
)
    requires
        call_ensures(browse::section_query, (library_id, &section, &extras), query),
    ensures
        query.recursive is Some,
        query.recursive->0 <==> (section.item_types@.len() > 0 || extras.genres@.len() > 0
            || extras.person_ids@.len() > 0 || extras.studio_ids@.len() > 0
            || extras.years@.len() > 0 || extras.tags@.len() > 0 || extras.filters@.len() > 0),
{
    assert(section@.item_types.len() == section.item_types@.len());
    assert(extras@.genres.len() == extras.genres@.len());
    assert(extras@.person_ids.len() == extras.person_ids@.len());
    assert(extras@.studio_ids.len() == extras.studio_ids@.len());
    assert(extras@.years.len() == extras.years@.len());
    assert(extras@.tags.len() == extras.tags@.len());
    assert(extras@.filters.len() == extras.filters@.len());
}

/// An applied section asks the server, through the event loop, for that section of that
/// library with the filters it was applied with.
pub proof fn an_applied_section_is_asked_for(app: AppModel, intent: IntentModel)
    requires
        intent is ApplySection,
    ensures
        app.commands_for(intent).len() == 1,
        app.commands_for(intent)[0] matches CommandModel::ApplySection {
            library_id,
            section,
            extras,
            ..
        } ==> library_id == intent->ApplySection_library_id && section
            == intent->ApplySection_section && extras == intent->ApplySection_extras,
        app.commands_for(intent)[0] is ApplySection,
{
}

// ---------------------------------------------------------------------------
// Searches

/// A library-scoped search only asks for descendants of that library, for the words that
/// were searched for, and for the item types of its scope.
pub proof fn a_scoped_search_stays_in_its_library(
    library_id: &str,
    words: &str,
    item_types: Vec<String>,
    query: ItemsQuery,
)
    requires
        call_ensures(browse::search_query, (library_id, words, &item_types), query),
    ensures
        query.parent_id.deep_view() == Some(library_id@),
        query.search_term.deep_view() == Some(words@),
        query.include_item_types.deep_view() == item_types.deep_view(),
        query.recursive == Some(true),
        query.sort_by.deep_view() == seq!["SortName"@],
        query.limit == Some(200i32),
        query.fields.deep_view() == seq!["Overview"@],
        unfiltered(query),
{
    lemma_unfiltered(query);
}

/// A search that was started in a library is sent out for that library: the command
/// names the library the search was started in, the words, and the item types of the
/// section that was active.
pub proof fn a_search_is_sent_out_for_its_library(app: AppModel, words: Seq<char>)
    requires
        app.library_selected < app.libraries.len(),
        app.libraries[app.library_selected as int].id.len() > 0,
    ensures
        ({
            let library = app.libraries[app.library_selected as int];
            let after = app.search_started(words);
            let commands = after.commands_for(after.pending.last());
            &&& after.pending.drop_last() == app.pending
            &&& commands.len() == 1
            &&& after.stack.len() == 1
            &&& after.stack[0].parent_id == library.id
            &&& after.stack[0].loading
            &&& after.stack[0].items.len() == 0
            &&& commands[0] matches CommandModel::Search { library_id, query, item_types, .. }
            &&& library_id == library.id
            &&& query == words
            &&& item_types == match app.current_section() {
                Some(section) => section.item_types,
                None => Seq::<Seq<char>>::empty(),
            }
        }),
{
    let after = app.search_started(words);
    assert(after.pending.drop_last() =~= app.pending);
}

// ---------------------------------------------------------------------------
// The other lists

/// Opening a folder asks for the children of that folder itself, in sequence, and for
/// nothing less.
pub proof fn a_folder_request_asks_for_its_children(id: &str, query: ItemsQuery)
    requires
        call_ensures(browse::folder_query, (id,), query),
    ensures
        query.parent_id.deep_view() == Some(id@),
        query.recursive != Some(true),
        query.search_term is None,
        query.include_item_types@.len() == 0,
        query.sort_by.deep_view() == seq!["ParentIndexNumber"@, "IndexNumber"@, "SortName"@],
        query.fields.deep_view() == seq!["Overview"@],
        query.limit == Some(500i32),
        unfiltered(query),
{
    lemma_unfiltered(query);
}

/// A library request asks for that library's top level.
pub proof fn a_library_request_asks_for_its_top_level(id: &str, query: ItemsQuery)
    requires
        call_ensures(browse::library_query, (id,), query),
    ensures
        query.parent_id.deep_view() == Some(id@),
        query.recursive != Some(true),
        query.search_term is None,
        query.include_item_types@.len() == 0,
        query.sort_by@.len() == 0,
        query.fields.deep_view() == seq!["Overview"@],
        query.limit == Some(200i32),
        unfiltered(query),
{
    lemma_unfiltered(query);
}

/// A count covers everything inside the library and fetches a single item.
pub proof fn a_count_covers_the_whole_library(id: &str, query: ItemsQuery)
    requires
        call_ensures(browse::count_query, (id,), query),
    ensures
        query.parent_id.deep_view() == Some(id@),
        query.recursive == Some(true),
        query.limit == Some(1i32),
        query.search_term is None,
        query.include_item_types@.len() == 0,
        unfiltered(query),
{
    lemma_unfiltered(query);
}

/// A genre radio asks for tracks of that genre in that library, in random order.
pub proof fn a_radio_asks_for_tracks_of_the_genre(
    library_id: &str,
    genre: &str,
    query: ItemsQuery,
)
    requires
        call_ensures(browse::genre_radio_query, (library_id, genre), query),
    ensures
        query.parent_id.deep_view() == Some(library_id@),
        query.genres.deep_view() == seq![genre@],
        query.include_item_types.deep_view() == seq!["Audio"@],
        query.sort_by.deep_view() == seq!["Random"@],
        query.recursive == Some(true),
        query.limit == Some(50i32),
        query.search_term is None,
        query.person_ids@.len() == 0,
        query.studio_ids@.len() == 0,
        query.years@.len() == 0,
        query.tags@.len() == 0,
        query.filters@.len() == 0,
        query.artist_ids@.len() == 0,
        query.album_artist_ids@.len() == 0,
{
    lemma_unfiltered(query);
}

/// Playlists and the newest items are asked for on the whole server.
pub proof fn server_wide_lists_have_no_parent(playlists: ItemsQuery, latest: ItemsQuery)
    requires
        call_ensures(browse::playlists_query, (), playlists),
        call_ensures(browse::latest_query, (), latest),
    ensures
        playlists.parent_id is None,
        playlists.recursive == Some(true),
        playlists.include_item_types.deep_view() == seq!["Playlist"@],
        playlists.sort_by.deep_view() == seq!["SortName"@],
        playlists.limit == Some(500i32),
        playlists.search_term is None,
        unfiltered(playlists),
        latest.parent_id is None,
        latest.recursive == Some(true),
        latest.include_item_types.deep_view() == seq!["Movie"@, "Series"@, "MusicAlbum"@],
        latest.sort_by.deep_view() == seq!["DateCreated"@],
        latest.fields.deep_view() == seq!["Overview"@],
        latest.limit == Some(20i32),
        latest.search_term is None,
        unfiltered(latest),
{
    lemma_unfiltered(playlists);
    lemma_unfiltered(latest);
}

/// An item's children are asked for by its own id and come in sequence.
pub proof fn children_are_asked_for_by_their_parent(id: &str, query: ItemsQuery)
    requires
        call_ensures(details::children_query, (id,), query),
    ensures
        query.parent_id.deep_view() == Some(id@),
        query.recursive != Some(true),
        query.sort_by.deep_view() == seq!["ParentIndexNumber"@, "IndexNumber"@, "SortName"@],
        query.limit == Some(200i32),
        query.search_term is None,
        query.include_item_types@.len() == 0,
        unfiltered(query),
{
    lemma_unfiltered(query);
}

/// An artist's own albums are asked for by album artist and the albums they appear on by
/// artist; the two requests agree in everything else.
pub proof fn own_albums_and_appearances_differ_by_credit(
    id: &str,
    own: ItemsQuery,
    appears_on: ItemsQuery,
)
    requires
        call_ensures(details::artist_albums_query, (id,), own),
        call_ensures(details::appears_on_query, (id,), appears_on),
    ensures
        own.album_artist_ids.deep_view() == seq![id@],
        own.artist_ids@.len() == 0,
        appears_on.artist_ids.deep_view() == seq![id@],
        appears_on.album_artist_ids@.len() == 0,
        own.include_item_types.deep_view() == seq!["MusicAlbum"@],
        own.recursive == Some(true),
        own.sort_by.deep_view() == seq!["ProductionYear"@, "SortName"@],
        own.fields.deep_view() == seq!["Overview"@],
        own.limit == Some(200i32),
        own.parent_id is None,
        own.search_term is None,
        own.genres@.len() == 0,
        own.filters@.len() == 0,
        appears_on@ == (browse::QueryModel {
            artist_ids: seq![id@],
            album_artist_ids: Seq::empty(),
            ..own@
        }),
{
    lemma_unfiltered(own);
    lemma_unfiltered(appears_on);
}

/// Siblings are looked for under the item's own parent, and only where they are wanted.
pub proof fn siblings_are_under_the_items_parent(
    wants: DetailWants,
    facts: ItemFacts,
    parent: Option<&str>,
)
    requires
        call_ensures(details::siblings_parent, (wants, &facts), parent),
    ensures
        parent is Some <==> wants.siblings && facts.parent_id is Some,
        parent matches Some(id) ==> facts.parent_id.deep_view() == Some(id@),
{
    assert(facts@.parent_id == facts.parent_id.deep_view());
    if let Some(id) = parent {
        assert(parent.deep_view() == Some(id@));
    }
}

// ---------------------------------------------------------------------------
// Routing

/// Every request reaches the event loop as one command that carries exactly what was
/// asked for.
pub proof fn requests_keep_their_arguments(app: AppModel, intent: IntentModel)
    ensures
        intent matches IntentModel::OpenFolder { id, .. } ==> app.commands_for(intent)
            == seq![CommandModel::OpenFolder { id }],
        intent matches IntentModel::SetTheme(name) ==> app.commands_for(intent)
            == seq![CommandModel::LoadTheme(name)],
        intent matches IntentModel::LoadCurrentDetail { item_id, kind } ==> app.commands_for(intent)
            == seq![CommandModel::RequestDetail { item_id, kind }],
        intent matches IntentModel::AddToPlaylist { playlist_id, item_id } ==> app.commands_for(
            intent,
        ) == seq![CommandModel::AddToPlaylist { playlist_id, item_id }],
        intent matches IntentModel::InstantMix { item } ==> app.commands_for(intent)
            == seq![CommandModel::InstantMix { item }],
        intent matches IntentModel::GenreRadio { library_id, genre } ==> app.commands_for(intent)
            == seq![CommandModel::GenreRadio { library_id, genre }],
        intent matches IntentModel::CreatePlaylist { name, item_ids } ==> app.commands_for(intent)
            == seq![CommandModel::CreatePlaylist { name, item_ids }],
        intent matches IntentModel::Dislike { item_id } ==> app.commands_for(intent)
            == seq![CommandModel::Dislike { item_id }],
        intent matches IntentModel::CopyItemUrl { item_id, item_name } ==> app.commands_for(intent)
            == seq![CommandModel::CopyItemUrl { item_id, item_name }],
        intent matches IntentModel::LoadVideoTracks { item_id, kind } ==> app.commands_for(intent)
            == seq![CommandModel::LoadVideoTracks { item_id, kind }],
        intent matches IntentModel::LoadMediaOptions { item_id } ==> app.commands_for(intent)
            == seq![CommandModel::LoadMediaOptions { item_id }],
        intent matches IntentModel::GlobalSearch { query } ==> app.commands_for(intent)
            == seq![CommandModel::GlobalSearch { query }],
        intent is LoadPlaylists ==> app.commands_for(intent) == seq![CommandModel::LoadPlaylists],
        intent is SyncLibraries ==> app.commands_for(intent) == seq![
            CommandModel::SyncLibraries(None),
        ],
        intent is LoadAllLibraryMeta ==> app.commands_for(intent) == seq![
            CommandModel::LoadLibraryMeta,
        ],
        intent is CopyLogLocation ==> app.commands_for(intent) == seq![
            CommandModel::CopyLogLocation,
        ],
{
}

/// A setting that is changed is kept, with the value it was given.
pub proof fn changed_settings_are_kept(app: AppModel, intent: IntentModel)
    ensures
        intent matches IntentModel::SaveAudioPrefs { repeat_mode, shuffle } ==> app.commands_for(
            intent,
        ).contains(CommandModel::Persist(SettingModel::AudioPrefs { repeat_mode, shuffle })),
        intent matches IntentModel::SetGapless(on) ==> app.commands_for(intent).contains(
            CommandModel::Persist(SettingModel::Gapless(on)),
        ),
        intent matches IntentModel::SetNormalization(on) ==> app.commands_for(intent).contains(
            CommandModel::Persist(SettingModel::Normalization(on)),
        ),
        intent matches IntentModel::SetEqPreset(preset) ==> app.commands_for(intent).contains(
            CommandModel::Persist(SettingModel::EqPreset(preset)),
        ),
        intent matches IntentModel::SaveVolume(volume) ==> app.commands_for(intent).contains(
            CommandModel::Persist(SettingModel::Volume(volume)),
        ),
        intent matches IntentModel::SaveSectionMemory(memory) ==> app.commands_for(intent).contains(
            CommandModel::Persist(SettingModel::SectionMemory(memory)),
        ),
        intent matches IntentModel::SaveLastLibrary(id) ==> app.commands_for(intent).contains(
            CommandModel::Persist(SettingModel::LastLibrary(id)),
        ),
        intent matches IntentModel::SaveSearchHistory(history) ==> app.commands_for(
            intent,
        ).contains(CommandModel::Persist(SettingModel::SearchHistory(history))),
        intent matches IntentModel::SaveVisibleLibraries(ids) ==> app.commands_for(intent).contains(
            CommandModel::Persist(SettingModel::VisibleLibraries(ids)),
        ),
{
    let commands = app.commands_for(intent);
    if commands.len() > 0 {
        assert(commands.contains(commands[0]));
    }
}

/// A setting that the player or the libraries must hear of is applied at once, with the
/// same value.
pub proof fn audible_settings_are_applied_at_once(app: AppModel, intent: IntentModel)
    ensures
        intent matches IntentModel::SetGapless(on) ==> app.commands_for(intent).last()
            == CommandModel::SetGapless(on),
        intent matches IntentModel::SetNormalization(on) ==> app.commands_for(intent).last()
            == CommandModel::SetNormalization(on),
        intent matches IntentModel::SetEqPreset(preset) ==> app.commands_for(intent).last()
            == CommandModel::SetEqPreset(preset),
        intent matches IntentModel::SaveVisibleLibraries(ids) ==> app.commands_for(intent).last()
            == CommandModel::SyncLibraries(Some(ids)),
{
}

/// Home is asked for with every library, in order, each under its own id, name and type.
pub proof fn home_covers_every_library(app: AppModel)
    ensures
        ({
            let commands = app.commands_for(IntentModel::LoadHome);
            &&& commands.len() == 1
            &&& commands[0] matches CommandModel::LoadHome(refs)
            &&& refs.len() == app.libraries.len()
            &&& forall|i: int|
                0 <= i < refs.len() ==> #[trigger] refs[i] == (
                    app.libraries[i].id,
                    app.libraries[i].name,
                    app.libraries[i].collection_type,
                )
        }),
{
}

/// Only a request for details changes what is on display: it shows the item it asks for.
pub proof fn routing_shows_the_item_asked_for(app: AppModel, intent: IntentModel)
    ensures
        intent matches IntentModel::LoadCurrentDetail { item_id, .. }
            ==> app.routed(intent).revealed_item_id == Some(item_id),
        !(intent is LoadCurrentDetail) ==> app.routed(intent) == app,
        app.routed(intent).pending == app.pending,
        app.routed(intent).stack == app.stack,
        app.routed(intent).queue == app.queue,
        app.routed(intent).focus == app.focus,
{
}

/// A section's answer is titled by the library it was asked for in.
pub proof fn a_section_names_its_library(app: AppModel, i: int, intent: IntentModel)
    requires
        0 <= i < app.libraries.len() <= usize::MAX,
        forall|j: int|
            0 <= j < i ==> (#[trigger] app.libraries[j]).id != app.libraries[i].id,
        intent is ApplySection,
        intent->ApplySection_library_id == app.libraries[i].id,
    ensures
        app.commands_for(intent)[0]->ApplySection_library_name == app.libraries[i].name,
{
    sequences::lemma_first_index_found(
        app.libraries,
        state::library_has_id(app.libraries[i].id),
        i,
    );
}

} // verus!
