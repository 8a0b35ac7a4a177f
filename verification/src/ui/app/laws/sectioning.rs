//! The sections of a library.

use vstd::prelude::*;
use vstd::string::*;

use crate::ui::app::sections;
use crate::ui::app::types::SectionModel;

verus! {

/// Whether a section lists the items of one type, in one order.
pub open spec fn lists(section: SectionModel, name: Seq<char>, kind: Seq<char>, order: Seq<char>) -> bool {
    &&& section.name == name
    &&& section.item_types == seq![kind]
    &&& section.sort_by == seq![order]
}

/// Every library starts with everything it holds, by name, and ends with its playlists.
pub proof fn every_library_has_all_and_playlists(kind: Option<Seq<char>>)
    ensures
        ({
            let list = sections::sections_of(kind);
            &&& list.len() >= 2
            &&& list[0].name == "All"@
            &&& list[0].item_types.len() == 0
            &&& list[0].sort_by == seq!["SortName"@]
            &&& lists(list.last(), "Playlists"@, "Playlist"@, "SortName"@)
        }),
{
}

/// A music library has albums, album artists and songs in between.
pub proof fn music_has_albums_artists_and_songs()
    ensures
        ({
            let list = sections::sections_of(Some("music"@));
            &&& list.len() == 5
            &&& lists(list[1], "Albums"@, "MusicAlbum"@, "SortName"@)
            &&& lists(list[2], "Album Artists"@, "MusicArtist"@, "SortName"@)
            &&& lists(list[3], "Songs"@, "Audio"@, "SortName"@)
        }),
{
}

/// A movie library has the latest movies, collections and favorites in between.
pub proof fn movies_have_latest_collections_and_favorites()
    ensures
        ({
            let list = sections::sections_of(Some("movies"@));
            &&& list.len() == 5
            &&& lists(list[1], "Latest"@, "Movie"@, "DateCreated"@)
            &&& lists(list[2], "Collections"@, "BoxSet"@, "SortName"@)
            &&& lists(list[3], "Favorites"@, "Movie"@, "SortName"@)
        }),
{
    lemma_library_kinds();
}

/// A show library has series and episodes in between, the newest episodes first.
pub proof fn shows_have_series_and_episodes()
    ensures
        ({
            let list = sections::sections_of(Some("tvshows"@));
            &&& list.len() == 4
            &&& lists(list[1], "Series"@, "Series"@, "SortName"@)
            &&& lists(list[2], "Episodes"@, "Episode"@, "DateCreated"@)
        }),
{
    lemma_library_kinds();
}

/// Books have books and authors in between, photos albums and photos.
pub proof fn books_and_photos_have_their_own()
    ensures
        ({
            let books = sections::sections_of(Some("books"@));
            let photos = sections::sections_of(Some("photos"@));
            &&& books.len() == 4
            &&& lists(books[1], "Books"@, "Book"@, "SortName"@)
            &&& lists(books[2], "Authors"@, "Person"@, "SortName"@)
            &&& photos.len() == 4
            &&& lists(photos[1], "Albums"@, "PhotoAlbum"@, "SortName"@)
            &&& lists(photos[2], "Photos"@, "Photo"@, "DateCreated"@)
        }),
{
    lemma_library_kinds();
}

/// Any other library has everything and its playlists.
pub proof fn other_libraries_have_two_sections(kind: Option<Seq<char>>)
    requires
        kind != Some("music"@),
        kind != Some("movies"@),
        kind != Some("tvshows"@),
        kind != Some("books"@),
        kind != Some("photos"@),
    ensures
        sections::sections_of(kind).len() == 2,
{
}

proof fn lemma_library_kinds()
    ensures
        "music"@ != "movies"@ && "music"@ != "tvshows"@ && "music"@ != "books"@ && "music"@
            != "photos"@,
        "movies"@ != "tvshows"@ && "movies"@ != "books"@ && "movies"@ != "photos"@,
        "tvshows"@ != "books"@ && "tvshows"@ != "photos"@ && "books"@ != "photos"@,
{
    reveal_strlit("music");
    reveal_strlit("movies");
    reveal_strlit("tvshows");
    reveal_strlit("books");
    reveal_strlit("photos");
    assert("music"@[0] == 'm' && "movies"@[0] == 'm' && "tvshows"@[0] == 't');
    assert("books"@[0] == 'b' && "photos"@[0] == 'p');
    assert("music"@[1] != "movies"@[1]);
}

} // verus!
