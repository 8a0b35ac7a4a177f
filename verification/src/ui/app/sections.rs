//! The sections a library is divided into, and the runtime sort orders.

use vstd::prelude::*;

use super::types::{Section, SectionModel};
use crate::sequences::push_deep;
use crate::text::is_text;

verus! {

impl SectionModel {
    /// A section that lists the given item types in the given order.
    pub open spec fn listing(
        name: Seq<char>,
        item_types: Seq<Seq<char>>,
        sort_key: Seq<char>,
    ) -> SectionModel {
        SectionModel { name, item_types, sort_by: seq![sort_key] }
    }
}

impl Section {
    /// A section of the items of one type, or of all top-level items.
    pub fn new(name: &str, item_type: Option<&str>, sort_key: &str) -> (section: Section)
        ensures
            section@ == SectionModel::listing(
                name@,
                match item_type {
                    Some(kind) => seq![kind@],
                    None => Seq::empty(),
                },
                sort_key@,
            ),
    {
        let mut item_types: Vec<String> = Vec::new();
        if let Some(kind) = item_type {
            item_types.push(kind.to_owned());
        }
        let mut sort_by: Vec<String> = Vec::new();
        sort_by.push(sort_key.to_owned());
        let section = Section { name: name.to_owned(), item_types, sort_by };
        assert(section@ =~~= SectionModel::listing(
            name@,
            match item_type {
                Some(kind) => seq![kind@],
                None => Seq::empty(),
            },
            sort_key@,
        ));
        section
    }
}

/// The section that shows a library's top-level items.
pub open spec fn all_section() -> SectionModel {
    SectionModel::listing("All"@, Seq::empty(), "SortName"@)
}

/// The section of a library's playlists.
pub open spec fn playlists_section() -> SectionModel {
    SectionModel::listing("Playlists"@, seq!["Playlist"@], "SortName"@)
}

/// The section list for a Jellyfin collection type.
pub open spec fn sections_of(collection_type: Option<Seq<char>>) -> Seq<SectionModel> {
    if collection_type == Some("music"@) {
        seq![
            all_section(),
            SectionModel::listing("Albums"@, seq!["MusicAlbum"@], "SortName"@),
            SectionModel::listing("Album Artists"@, seq!["MusicArtist"@], "SortName"@),
            SectionModel::listing("Songs"@, seq!["Audio"@], "SortName"@),
            playlists_section(),
        ]
    } else if collection_type == Some("movies"@) {
        seq![
            all_section(),
            SectionModel::listing("Latest"@, seq!["Movie"@], "DateCreated"@),
            SectionModel::listing("Collections"@, seq!["BoxSet"@], "SortName"@),
            SectionModel::listing("Favorites"@, seq!["Movie"@], "SortName"@),
            playlists_section(),
        ]
    } else if collection_type == Some("tvshows"@) {
        seq![
            all_section(),
            SectionModel::listing("Series"@, seq!["Series"@], "SortName"@),
            SectionModel::listing("Episodes"@, seq!["Episode"@], "DateCreated"@),
            playlists_section(),
        ]
    } else if collection_type == Some("books"@) {
        seq![
            all_section(),
            SectionModel::listing("Books"@, seq!["Book"@], "SortName"@),
            SectionModel::listing("Authors"@, seq!["Person"@], "SortName"@),
            playlists_section(),
        ]
    } else if collection_type == Some("photos"@) {
        seq![
            all_section(),
            SectionModel::listing("Albums"@, seq!["PhotoAlbum"@], "SortName"@),
            SectionModel::listing("Photos"@, seq!["Photo"@], "DateCreated"@),
            playlists_section(),
        ]
    } else {
        seq![all_section(), playlists_section()]
    }
}

fn push_section(sections: &mut Vec<Section>, name: &str, item_type: Option<&str>, sort_key: &str)
    ensures
        final(sections).deep_view() == old(sections).deep_view().push(
            SectionModel::listing(
                name@,
                match item_type {
                    Some(kind) => seq![kind@],
                    None => Seq::empty(),
                },
                sort_key@,
            ),
        ),
{
    push_deep(sections, Section::new(name, item_type, sort_key));
}

/// Static section list for a Jellyfin collection type. The first entry ("All")
/// is the default that matches the library root.
pub fn sections_for(collection_type: Option<&str>) -> (sections: Vec<Section>)
    ensures
        sections.deep_view() == sections_of(collection_type.deep_view()),
{
    let mut sections: Vec<Section> = Vec::new();
    push_section(&mut sections, "All", None, "SortName");
    if is_text(collection_type, "music") {
        push_section(&mut sections, "Albums", Some("MusicAlbum"), "SortName");
        push_section(&mut sections, "Album Artists", Some("MusicArtist"), "SortName");
        push_section(&mut sections, "Songs", Some("Audio"), "SortName");
    } else if is_text(collection_type, "movies") {
        push_section(&mut sections, "Latest", Some("Movie"), "DateCreated");
        push_section(&mut sections, "Collections", Some("BoxSet"), "SortName");
        push_section(&mut sections, "Favorites", Some("Movie"), "SortName");
    } else if is_text(collection_type, "tvshows") {
        push_section(&mut sections, "Series", Some("Series"), "SortName");
        push_section(&mut sections, "Episodes", Some("Episode"), "DateCreated");
    } else if is_text(collection_type, "books") {
        push_section(&mut sections, "Books", Some("Book"), "SortName");
        push_section(&mut sections, "Authors", Some("Person"), "SortName");
    } else if is_text(collection_type, "photos") {
        push_section(&mut sections, "Albums", Some("PhotoAlbum"), "SortName");
        push_section(&mut sections, "Photos", Some("Photo"), "DateCreated");
    }
    push_section(&mut sections, "Playlists", Some("Playlist"), "SortName");
    assert(sections.deep_view() =~= sections_of(collection_type.deep_view()));
    sections
}

/// Whatever the library kind, the first section is "All": the library root
/// without a type filter.
pub proof fn first_section_is_all(collection_type: Option<Seq<char>>)
    ensures
        sections_of(collection_type).len() >= 2,
        sections_of(collection_type)[0].name == "All"@,
        sections_of(collection_type)[0].item_types.len() == 0,
{
}

/// The first sort key of an override, if there is one.
pub open spec fn first_key(keys: Option<Seq<Seq<char>>>) -> Option<Seq<char>> {
    match keys {
        Some(list) => if list.len() > 0 {
            Some(list[0])
        } else {
            None
        },
        None => None,
    }
}

/// The sort override after the given one. `None` is the section's own order.
pub open spec fn sort_after(current: Option<Seq<Seq<char>>>) -> Option<Seq<Seq<char>>> {
    let key = first_key(current);
    if key == Some("SortName"@) {
        Some(seq!["DateCreated"@])
    } else if key == Some("DateCreated"@) {
        Some(seq!["ProductionYear"@])
    } else if key == Some("ProductionYear"@) {
        Some(seq!["CommunityRating"@])
    } else if key == Some("CommunityRating"@) {
        Some(seq!["PlayCount"@])
    } else if key == Some("PlayCount"@) {
        Some(seq!["Random"@])
    } else if key == Some("Random"@) {
        Some(seq!["Runtime"@])
    } else if key == Some("Runtime"@) {
        None
    } else {
        Some(seq!["SortName"@])
    }
}

fn single_key(key: &str) -> (keys: Option<Vec<String>>)
    ensures
        keys.deep_view() == Some(seq![key@]),
{
    let mut list: Vec<String> = Vec::new();
    list.push(key.to_owned());
    assert(list.deep_view() =~= seq![key@]);
    Some(list)
}

/// Cycle through the runtime sort presets. `None` means "use section default".
pub fn next_sort_override(current: &Option<Vec<String>>) -> (next: Option<Vec<String>>)
    ensures
        next.deep_view() == sort_after(current.deep_view()),
{
    let key: Option<&str> = match current {
        Some(list) => if list.len() > 0 {
            Some(list[0].as_str())
        } else {
            None
        },
        None => None,
    };
    assert(key.deep_view() == first_key(current.deep_view()));
    if is_text(key, "SortName") {
        single_key("DateCreated")
    } else if is_text(key, "DateCreated") {
        single_key("ProductionYear")
    } else if is_text(key, "ProductionYear") {
        single_key("CommunityRating")
    } else if is_text(key, "CommunityRating") {
        single_key("PlayCount")
    } else if is_text(key, "PlayCount") {
        single_key("Random")
    } else if is_text(key, "Random") {
        single_key("Runtime")
    } else if is_text(key, "Runtime") {
        None
    } else {
        single_key("SortName")
    }
}

/// Cycling the sort order from the section's own comes back to it after the seven
/// presets, and not before.
pub proof fn sort_cycle_returns_to_the_section_order()
    ensures
        ({
            let a = sort_after(None);
            let b = sort_after(a);
            let c = sort_after(b);
            let d = sort_after(c);
            let e = sort_after(d);
            let f = sort_after(e);
            let g = sort_after(f);
            a is Some && b is Some && c is Some && d is Some && e is Some && f is Some && g is Some
                && sort_after(g) is None
        }),
{
    reveal_strlit("SortName");
    reveal_strlit("DateCreated");
    reveal_strlit("ProductionYear");
    reveal_strlit("CommunityRating");
    reveal_strlit("PlayCount");
    reveal_strlit("Random");
    reveal_strlit("Runtime");
    let sort_name = "SortName"@;
    let created = "DateCreated"@;
    let year = "ProductionYear"@;
    let rating = "CommunityRating"@;
    let plays = "PlayCount"@;
    let random = "Random"@;
    let runtime = "Runtime"@;
    assert(sort_name.len() == 8 && created.len() == 11 && year.len() == 14 && rating.len() == 15
        && plays.len() == 9 && random.len() == 6 && runtime.len() == 7);
}

} // verus!
