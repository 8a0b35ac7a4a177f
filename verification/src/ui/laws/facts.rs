//! An item's detail: what is asked for, and what the answers amount to.

use vstd::prelude::*;
use vstd::string::*;

use crate::sequences;
use crate::text;
use crate::ui::app::types::{ItemDetail, ItemModel};
use crate::ui::details;
use crate::ui::details::{
    DetailFetch, DetailFetchModel, DetailRequests, DetailWants, ItemFacts, ItemFactsModel,
};

verus! {

/// The kind of an item decides what is fetched besides its record: lyrics for tracks,
/// children for what holds others, siblings for episodes and seasons, albums for artists.
pub proof fn the_kind_decides_what_is_fetched(kind: Option<&str>, wants: DetailWants)
    requires
        call_ensures(details::detail_wants, (kind,), wants),
    ensures
        ({
            let named = |name: Seq<char>| kind is Some && kind->0@ == name;
            &&& wants.lyrics <==> named("Audio"@) || named("AudioBook"@)
            &&& wants.children <==> named("Series"@) || named("Season"@) || named("MusicAlbum"@)
            &&& wants.siblings <==> named("Episode"@) || named("Season"@)
            &&& wants.discography <==> named("MusicArtist"@)
        }),
{
    assert(kind.deep_view() == match kind {
        Some(name) => Some(name@),
        None => None,
    });
}

/// A detail is asked for once in a row, under its own id, and never without one.
pub proof fn a_new_item_is_asked_for(
    requests: &mut DetailRequests,
    id: &str,
    kind: Option<&str>,
    wants: Option<DetailWants>,
)
    requires
        call_ensures(DetailRequests::request, (requests, id, kind), wants),
    ensures
        wants is Some <==> id@.len() > 0 && old(requests).last_requested.deep_view() != Some(id@),
        wants is Some ==> final(requests).last_requested.deep_view() == Some(id@),
        wants is None ==> final(requests).last_requested.deep_view()
            == old(requests).last_requested.deep_view(),
        wants matches Some(wanted) ==> wanted == details::wants_of(kind.deep_view()),
{
    assert(final(requests)@.last_requested == final(requests).last_requested.deep_view());
    assert(old(requests)@.last_requested == old(requests).last_requested.deep_view());
}

/// Overview, genres and the people come from the record itself.
pub proof fn the_record_is_shown_as_it_is(
    id: Seq<char>,
    wants: DetailWants,
    facts: ItemFactsModel,
    fetch: DetailFetchModel,
)
    ensures
        ({
            let detail = details::detail_of(id, wants, facts, fetch);
            &&& detail.overview == facts.overview
            &&& facts.genres matches Some(genres) ==> detail.genres == genres
            &&& facts.genres is None ==> detail.genres.len() == 0
            &&& facts.people is None ==> detail.cast.len() == 0
            &&& facts.people matches Some(people) ==> {
                &&& detail.cast.len() == people.len()
                &&& forall|i: int|
                    0 <= i < people.len() ==> {
                        let person = #[trigger] detail.cast[i];
                        &&& person.id == people[i].id
                        &&& person.role == people[i].role
                        &&& person.kind == people[i].type_
                        &&& people[i].name is Some ==> person.name == people[i].name->0
                        &&& people[i].name is None ==> person.name.len() == 0
                    }
            }
        }),
{
}

/// Chapters keep their order, their names and where they start; one without a name is
/// numbered from one.
pub proof fn chapters_keep_their_order(
    id: Seq<char>,
    wants: DetailWants,
    facts: ItemFactsModel,
    fetch: DetailFetchModel,
    i: int,
)
    requires
        facts.chapters is Some,
        0 <= i < facts.chapters->0.len(),
    ensures
        ({
            let shown = details::detail_of(id, wants, facts, fetch).chapters;
            let given = facts.chapters->0[i];
            &&& shown.len() == facts.chapters->0.len()
            &&& given.name is Some && given.name->0.len() > 0 ==> shown[i].name == given.name->0
            &&& given.name is None || given.name->0.len() == 0 ==> shown[i].name == "Chapter "@
                + text::decimal((i + 1) as nat)
            &&& given.start_position_ticks matches Some(ticks) ==> shown[i].start_position_ticks
                == ticks
            &&& given.start_position_ticks is None ==> shown[i].start_position_ticks == 0
        }),
{
}

/// Trailers keep their order; only those without an address are left out.
pub proof fn trailers_keep_their_order(urls: Seq<Option<Seq<char>>>, next: Option<Seq<char>>)
    ensures
        details::trailers_of(None).len() == 0,
        details::trailers_of(Some(Seq::empty())).len() == 0,
        next is Some && next->0.len() > 0 ==> details::trailers_of(Some(urls.push(next)))
            == details::trailers_of(Some(urls)).push(next->0),
        next is None || next->0.len() == 0 ==> details::trailers_of(Some(urls.push(next)))
            == details::trailers_of(Some(urls)),
{
    sequences::lemma_filter_empty(details::has_url());
    sequences::lemma_filter_push(urls, next, details::has_url());
    if next is Some && next->0.len() > 0 {
        assert(details::trailers_of(Some(urls.push(next))) =~= details::trailers_of(
            Some(urls),
        ).push(next->0));
    }
}

/// Lyrics, children and an artist's albums are shown where they were wanted, and only
/// there.
pub proof fn lists_are_shown_where_wanted(
    id: Seq<char>,
    wants: DetailWants,
    facts: ItemFactsModel,
    fetch: DetailFetchModel,
)
    ensures
        ({
            let detail = details::detail_of(id, wants, facts, fetch);
            &&& wants.lyrics ==> detail.lyrics == fetch.lyrics
            &&& !wants.lyrics ==> detail.lyrics is None
            &&& wants.children && fetch.children is Some ==> detail.children == fetch.children->0
            &&& !wants.children || fetch.children is None ==> detail.children.len() == 0
            &&& wants.discography && fetch.albums is Some ==> detail.artist_albums
                == fetch.albums->0
            &&& !wants.discography || fetch.albums is None ==> detail.artist_albums.len() == 0
            &&& !wants.discography ==> detail.appears_on.len() == 0
            &&& !wants.siblings || facts.parent_id is None ==> detail.siblings.len() == 0
            &&& detail.trailer_urls == details::trailers_of(facts.trailer_urls)
        }),
{
}

/// Siblings are the other children of the item's parent: all of them, in order, and not
/// the item itself.
pub proof fn siblings_are_the_others(
    id: Seq<char>,
    wants: DetailWants,
    facts: ItemFactsModel,
    fetch: DetailFetchModel,
    longer: DetailFetchModel,
    next: ItemModel,
)
    requires
        wants.siblings,
        facts.parent_id is Some,
        fetch.neighbours is Some,
        longer == (DetailFetchModel { neighbours: Some(fetch.neighbours->0.push(next)), ..fetch }),
    ensures
        ({
            let before = details::detail_of(id, wants, facts, fetch).siblings;
            let after = details::detail_of(id, wants, facts, longer).siblings;
            &&& next.id == id ==> after == before
            &&& next.id != id ==> after == before.push(next)
            &&& fetch.neighbours->0.len() == 0 ==> before.len() == 0
        }),
{
    let p = details::is_other(id);
    sequences::lemma_filter_push(fetch.neighbours->0, next, p);
    if fetch.neighbours->0.len() == 0 {
        sequences::lemma_filter_empty(p);
        assert(fetch.neighbours->0 =~= Seq::empty());
    }
}

/// An artist appears on the albums they are credited on but for their own: all of those,
/// in order.
pub proof fn appearances_are_the_other_albums(
    id: Seq<char>,
    wants: DetailWants,
    facts: ItemFactsModel,
    fetch: DetailFetchModel,
    longer: DetailFetchModel,
    next: ItemModel,
)
    requires
        wants.discography,
        fetch.credited_on is Some,
        fetch.albums is Some,
        longer == (DetailFetchModel {
            credited_on: Some(fetch.credited_on->0.push(next)),
            ..fetch
        }),
    ensures
        ({
            let before = details::detail_of(id, wants, facts, fetch).appears_on;
            let after = details::detail_of(id, wants, facts, longer).appears_on;
            let own = exists|i: int|
                0 <= i < fetch.albums->0.len() && (#[trigger] fetch.albums->0[i]).id == next.id;
            &&& own ==> after == before
            &&& !own ==> after == before.push(next)
            &&& fetch.credited_on->0.len() == 0 ==> before.len() == 0
        }),
{
    let p = details::is_not_among(fetch.albums->0);
    sequences::lemma_filter_push(fetch.credited_on->0, next, p);
    if fetch.credited_on->0.len() == 0 {
        sequences::lemma_filter_empty(p);
        assert(fetch.credited_on->0 =~= Seq::empty());
    }
}

/// A detail is assembled from nothing but the record and the answers.
pub proof fn details_are_assembled_from_the_answers(
    id: &str,
    wants: DetailWants,
    facts: ItemFacts,
    fetch: DetailFetch,
    detail: ItemDetail,
)
    requires
        call_ensures(details::assemble_detail, (id, wants, facts, fetch), detail),
    ensures
        detail@ == details::detail_of(id@, wants, facts@, fetch@),
        detail.overview.deep_view() == facts.overview.deep_view(),
{
    assert(detail@.overview == detail.overview.deep_view());
    assert(facts@.overview == facts.overview.deep_view());
}

} // verus!
