//! What the detail of an item is put together from.

use aquafin::ui::app::Item;
use aquafin::ui::details::{
    appears_on_query, artist_albums_query, assemble_detail, children_query, detail_wants,
    siblings_parent, CreditFacts, DetailFetch, DetailRequests, DetailWants, ItemFacts,
};

fn facts() -> ItemFacts {
    ItemFacts {
        overview: None,
        people: None,
        genres: None,
        parent_id: None,
        trailer_urls: None,
        chapters: None,
    }
}

fn nothing() -> DetailFetch {
    DetailFetch {
        lyrics: None,
        children: None,
        neighbours: None,
        albums: None,
        credited_on: None,
    }
}

fn wants(children: bool, siblings: bool) -> DetailWants {
    DetailWants { lyrics: false, children, siblings, discography: false }
}

fn named(id: &str, name: &str) -> Item {
    Item { id: id.to_string(), name: name.to_string(), ..Default::default() }
}

#[test]
fn fetch_detail_extracts_cast_and_genres() {
    let about = ItemFacts {
        people: Some(vec![CreditFacts {
            id: Some("p1".to_string()),
            name: Some("Neo Reeves".to_string()),
            role: Some("Neo".to_string()),
            type_: Some("Actor".to_string()),
        }]),
        genres: Some(vec!["Sci-Fi".to_string()]),
        ..facts()
    };
    let detail = assemble_detail("m1", wants(false, false), about, nothing());
    assert_eq!(detail.cast.len(), 1);
    assert_eq!(detail.cast[0].name, "Neo Reeves");
    assert_eq!(detail.cast[0].role.as_deref(), Some("Neo"));
    assert_eq!(detail.genres, vec!["Sci-Fi"]);
    assert!(detail.lyrics.is_none());
    assert!(detail.children.is_empty());
    assert!(detail.siblings.is_empty());
}

#[test]
fn fetch_detail_loads_children_when_requested() {
    let fetch = DetailFetch {
        children: Some(vec![named("s1", "Season 1"), named("s2", "Season 2")]),
        ..nothing()
    };
    assert_eq!(children_query("series1").parent_id.as_deref(), Some("series1"));
    let detail = assemble_detail("series1", wants(true, false), facts(), fetch);
    assert_eq!(detail.children.len(), 2);
    assert_eq!(detail.children[0].name, "Season 1");
}

#[test]
fn fetch_detail_collects_siblings_minus_self() {
    let about = ItemFacts { parent_id: Some("season1".to_string()), ..facts() };
    assert_eq!(siblings_parent(wants(false, true), &about), Some("season1"));
    let fetch = DetailFetch {
        neighbours: Some(vec![
            named("ep1", "Episode 1"),
            named("ep2", "Episode 2"),
            named("ep3", "Episode 3"),
        ]),
        ..nothing()
    };
    let detail = assemble_detail("ep2", wants(false, true), about, fetch);
    assert_eq!(detail.siblings.len(), 2);
    assert!(detail.siblings.iter().all(|s| s.id != "ep2"));
}

#[test]
fn an_artist_calls_for_a_discography() {
    assert!(detail_wants(Some("MusicArtist")).discography);
    assert!(detail_wants(Some("Audio")).lyrics);
    assert!(detail_wants(Some("Series")).children);
    assert!(!detail_wants(None).lyrics);
    assert_eq!(artist_albums_query("a").album_artist_ids, vec!["a".to_string()]);
    assert_eq!(appears_on_query("a").artist_ids, vec!["a".to_string()]);
    let fetch = DetailFetch {
        albums: Some(vec![named("own", "Discovery")]),
        credited_on: Some(vec![named("own", "Discovery"), named("ost", "Tron: Legacy OST")]),
        ..nothing()
    };
    let detail = assemble_detail("a", detail_wants(Some("MusicArtist")), facts(), fetch);
    assert_eq!(detail.artist_albums.len(), 1);
    assert_eq!(detail.appears_on.len(), 1);
    assert_eq!(detail.appears_on[0].id, "ost");
}

#[test]
fn a_detail_is_asked_for_once() {
    let mut requests = DetailRequests::new();
    assert!(requests.request("m1", Some("Movie")).is_some());
    assert!(requests.request("m1", Some("Movie")).is_none());
    assert!(requests.request("m2", Some("Movie")).is_some());
}
