//! On-demand item detail: when the user lingers on an item, its full record (for
//! cast/credits), lyrics (audio), and children / siblings (tvshows) are fetched for
//! the right-column context panes. Which requests that takes and what their answers
//! amount to is decided here.

use vstd::prelude::*;

use super::app::types::{
    Chapter, ChapterModel, Item, ItemDetail, ItemDetailModel, ItemModel, LyricLine,
    LyricLineModel, Person, PersonModel,
};
use super::browse;
use super::browse::{index_sort, ItemsQuery, QueryModel};
use crate::sequences;
use crate::sequences::push_deep;
use crate::text;
use crate::text::{concat2, decimal_text, is_text, same_text};

verus! {

/// A person on an item, as the server describes them.
#[derive(Debug, Clone)]
pub struct CreditFacts {
    pub id: Option<String>,
    pub name: Option<String>,
    pub role: Option<String>,
    pub type_: Option<String>,
}

/// The contents of a [`CreditFacts`].
#[verifier::ext_equal]
pub struct CreditModel {
    pub id: Option<Seq<char>>,
    pub name: Option<Seq<char>>,
    pub role: Option<Seq<char>>,
    pub type_: Option<Seq<char>>,
}

impl View for CreditFacts {
    type V = CreditModel;

    open spec fn view(&self) -> CreditModel {
        CreditModel {
            id: self.id.deep_view(),
            name: self.name.deep_view(),
            role: self.role.deep_view(),
            type_: self.type_.deep_view(),
        }
    }
}

impl DeepView for CreditFacts {
    type V = CreditModel;

    open spec fn deep_view(&self) -> CreditModel {
        self@
    }
}

/// A chapter of an item, as the server describes it.
#[derive(Debug, Clone)]
pub struct ChapterFacts {
    pub name: Option<String>,
    pub start_position_ticks: Option<i64>,
}

/// The contents of a [`ChapterFacts`].
#[verifier::ext_equal]
pub struct ChapterFactsModel {
    pub name: Option<Seq<char>>,
    pub start_position_ticks: Option<i64>,
}

impl View for ChapterFacts {
    type V = ChapterFactsModel;

    open spec fn view(&self) -> ChapterFactsModel {
        ChapterFactsModel {
            name: self.name.deep_view(),
            start_position_ticks: self.start_position_ticks,
        }
    }
}

impl DeepView for ChapterFacts {
    type V = ChapterFactsModel;

    open spec fn deep_view(&self) -> ChapterFactsModel {
        self@
    }
}

/// What the server says of one item.
#[derive(Debug)]
pub struct ItemFacts {
    pub overview: Option<String>,
    pub people: Option<Vec<CreditFacts>>,
    pub genres: Option<Vec<String>>,
    pub parent_id: Option<String>,
    pub trailer_urls: Option<Vec<Option<String>>>,
    pub chapters: Option<Vec<ChapterFacts>>,
}

/// The contents of an [`ItemFacts`].
#[verifier::ext_equal]
pub struct ItemFactsModel {
    pub overview: Option<Seq<char>>,
    pub people: Option<Seq<CreditModel>>,
    pub genres: Option<Seq<Seq<char>>>,
    pub parent_id: Option<Seq<char>>,
    pub trailer_urls: Option<Seq<Option<Seq<char>>>>,
    pub chapters: Option<Seq<ChapterFactsModel>>,
}

impl View for ItemFacts {
    type V = ItemFactsModel;

    open spec fn view(&self) -> ItemFactsModel {
        ItemFactsModel {
            overview: self.overview.deep_view(),
            people: self.people.deep_view(),
            genres: self.genres.deep_view(),
            parent_id: self.parent_id.deep_view(),
            trailer_urls: self.trailer_urls.deep_view(),
            chapters: self.chapters.deep_view(),
        }
    }
}

impl DeepView for ItemFacts {
    type V = ItemFactsModel;

    open spec fn deep_view(&self) -> ItemFactsModel {
        self@
    }
}

/// What the follow-up requests of a detail fetch brought: `None` for a request that
/// failed or was not made.
#[derive(Debug)]
pub struct DetailFetch {
    pub lyrics: Option<Vec<LyricLine>>,
    pub children: Option<Vec<Item>>,
    /// The children of the item's parent, the item itself among them.
    pub neighbours: Option<Vec<Item>>,
    /// Albums credited to the artist.
    pub albums: Option<Vec<Item>>,
    /// Albums the artist contributes to, their own among them.
    pub credited_on: Option<Vec<Item>>,
}

/// The contents of a [`DetailFetch`].
#[verifier::ext_equal]
pub struct DetailFetchModel {
    pub lyrics: Option<Seq<LyricLineModel>>,
    pub children: Option<Seq<ItemModel>>,
    pub neighbours: Option<Seq<ItemModel>>,
    pub albums: Option<Seq<ItemModel>>,
    pub credited_on: Option<Seq<ItemModel>>,
}

impl View for DetailFetch {
    type V = DetailFetchModel;

    open spec fn view(&self) -> DetailFetchModel {
        DetailFetchModel {
            lyrics: self.lyrics.deep_view(),
            children: self.children.deep_view(),
            neighbours: self.neighbours.deep_view(),
            albums: self.albums.deep_view(),
            credited_on: self.credited_on.deep_view(),
        }
    }
}

impl DeepView for DetailFetch {
    type V = DetailFetchModel;

    open spec fn deep_view(&self) -> DetailFetchModel {
        self@
    }
}

/// Which detail was asked for last, so that the same selection is not fetched twice.
#[derive(Debug)]
pub struct DetailRequests {
    pub last_requested: Option<String>,
}

/// The contents of a [`DetailRequests`].
#[verifier::ext_equal]
pub struct DetailRequestsModel {
    pub last_requested: Option<Seq<char>>,
}

impl View for DetailRequests {
    type V = DetailRequestsModel;

    open spec fn view(&self) -> DetailRequestsModel {
        DetailRequestsModel {
            last_requested: self.last_requested.deep_view(),
        }
    }
}

impl DeepView for DetailRequests {
    type V = DetailRequestsModel;

    open spec fn deep_view(&self) -> DetailRequestsModel {
        self@
    }
}

/// Which supplementary endpoints a detail fetch calls.
#[derive(Debug, Clone, Copy, PartialEq, Eq, Structural)]
pub struct DetailWants {
    pub lyrics: bool,
    pub children: bool,
    pub siblings: bool,
    pub discography: bool,
}

/// Which supplementary endpoints an item of a kind calls for.
pub open spec fn wants_of(kind: Option<Seq<char>>) -> DetailWants {
    DetailWants {
        lyrics: kind == Some("Audio"@) || kind == Some("AudioBook"@),
        children: kind == Some("Series"@) || kind == Some("Season"@) || kind == Some(
            "MusicAlbum"@,
        ),
        siblings: kind == Some("Episode"@) || kind == Some("Season"@),
        discography: kind == Some("MusicArtist"@),
    }
}

impl DetailRequestsModel {
    /// Whether a detail is worth a request: it has an id, and was not the last one
    /// asked for.
    pub open spec fn worth_asking(self, item_id: Seq<char>) -> bool {
        item_id.len() > 0 && self.last_requested != Some(item_id)
    }

    /// After a detail was asked for.
    pub open spec fn asked(self, item_id: Seq<char>) -> DetailRequestsModel {
        if self.worth_asking(item_id) {
            DetailRequestsModel { last_requested: Some(item_id) }
        } else {
            self
        }
    }
}

/// Which supplementary endpoints an item of a kind calls for.
pub fn detail_wants(kind: Option<&str>) -> (wants: DetailWants)
    ensures
        wants == wants_of(kind.deep_view()),
{
    DetailWants {
        lyrics: is_text(kind, "Audio") || is_text(kind, "AudioBook"),
        children: is_text(kind, "Series") || is_text(kind, "Season") || is_text(
            kind,
            "MusicAlbum",
        ),
        siblings: is_text(kind, "Episode") || is_text(kind, "Season"),
        discography: is_text(kind, "MusicArtist"),
    }
}

impl DetailRequests {
    /// Nothing asked for yet.
    pub fn new() -> (requests: DetailRequests)
        ensures
            requests@ == (DetailRequestsModel { last_requested: None }),
    {
        DetailRequests { last_requested: None }
    }

    /// Ask for the detail of `item_id` if it differs from the most recent request.
    /// The answer says what to fetch; `None` means nothing.
    pub fn request(&mut self, item_id: &str, kind: Option<&str>) -> (wants: Option<DetailWants>)
        ensures
            final(self)@ == old(self)@.asked(item_id@),
            wants == (if old(self)@.worth_asking(item_id@) {
                Some(wants_of(kind.deep_view()))
            } else {
                None
            }),
    {
        if item_id.is_empty() {
            return None;
        }
        if let Some(last) = &self.last_requested {
            if same_text(last.as_str(), item_id) {
                return None;
            }
        }
        self.last_requested = Some(item_id.to_owned());
        Some(detail_wants(kind))
    }
}

impl Default for DetailRequests {
    fn default() -> (requests: DetailRequests)
        ensures
            requests@ == (DetailRequestsModel { last_requested: None }),
    {
        DetailRequests::new()
    }
}

// ---------------------------------------------------------------------------
// Queries

impl QueryModel {
    /// An item's children, in sequence.
    pub open spec fn children(parent_id: Seq<char>) -> QueryModel {
        QueryModel {
            parent_id: Some(parent_id),
            sort_by: browse::index_order(),
            limit: Some(200),
            ..QueryModel::anything()
        }
    }

    /// Albums, oldest first.
    pub open spec fn albums() -> QueryModel {
        QueryModel {
            include_item_types: seq!["MusicAlbum"@],
            recursive: Some(true),
            sort_by: seq!["ProductionYear"@, "SortName"@],
            fields: seq!["Overview"@],
            limit: Some(200),
            ..QueryModel::anything()
        }
    }

    /// Albums credited to the artist as the primary album artist.
    pub open spec fn artist_albums(artist_id: Seq<char>) -> QueryModel {
        QueryModel { album_artist_ids: seq![artist_id], ..QueryModel::albums() }
    }

    /// Albums the artist contributes to.
    pub open spec fn appears_on(artist_id: Seq<char>) -> QueryModel {
        QueryModel { artist_ids: seq![artist_id], ..QueryModel::albums() }
    }
}

fn one_text(value: &str) -> (list: Vec<String>)
    ensures
        list.deep_view() == seq![value@],
{
    let mut list: Vec<String> = Vec::new();
    push_deep(&mut list, value.to_owned());
    assert(list.deep_view() =~= seq![value@]);
    list
}

/// What is asked for to list an item's children.
pub fn children_query(parent_id: &str) -> (query: ItemsQuery)
    ensures
        query@ == QueryModel::children(parent_id@),
{
    let mut query = ItemsQuery::default();
    query.parent_id = Some(parent_id.to_owned());
    query.sort_by = index_sort();
    query.limit = Some(200);
    query
}

fn albums_query() -> (query: ItemsQuery)
    ensures
        query@ == QueryModel::albums(),
{
    let mut order: Vec<String> = Vec::new();
    push_deep(&mut order, "ProductionYear".to_owned());
    push_deep(&mut order, "SortName".to_owned());
    assert(order.deep_view() =~= seq!["ProductionYear"@, "SortName"@]);
    let mut query = ItemsQuery::default();
    query.include_item_types = one_text("MusicAlbum");
    query.recursive = Some(true);
    query.sort_by = order;
    query.fields = one_text("Overview");
    query.limit = Some(200);
    query
}

/// What is asked for to list the albums credited to an artist.
pub fn artist_albums_query(artist_id: &str) -> (query: ItemsQuery)
    ensures
        query@ == QueryModel::artist_albums(artist_id@),
{
    let mut query = albums_query();
    query.album_artist_ids = one_text(artist_id);
    query
}

/// What is asked for to list the albums an artist contributes to.
pub fn appears_on_query(artist_id: &str) -> (query: ItemsQuery)
    ensures
        query@ == QueryModel::appears_on(artist_id@),
{
    let mut query = albums_query();
    query.artist_ids = one_text(artist_id);
    query
}

/// The parent whose children are the item's siblings, if they are wanted and it has
/// one.
pub fn siblings_parent<'a>(wants: DetailWants, facts: &'a ItemFacts) -> (parent: Option<&'a str>)
    ensures
        parent.deep_view() == (if wants.siblings {
            facts@.parent_id
        } else {
            None
        }),
{
    if wants.siblings {
        match &facts.parent_id {
            Some(id) => Some(id.as_str()),
            None => None,
        }
    } else {
        None
    }
}

// ---------------------------------------------------------------------------
// Assembly

/// A credit as the panes show it.
pub open spec fn person_of(facts: CreditModel) -> PersonModel {
    PersonModel {
        id: facts.id,
        name: match facts.name {
            Some(name) => name,
            None => Seq::empty(),
        },
        role: facts.role,
        kind: facts.type_,
    }
}

/// The cast and crew.
pub open spec fn people_of(people: Option<Seq<CreditModel>>) -> Seq<PersonModel> {
    match people {
        Some(known) => known.map_values(|facts: CreditModel| person_of(facts)),
        None => Seq::empty(),
    }
}

/// A chapter, numbered if it has no name.
pub open spec fn chapter_of(facts: ChapterFactsModel, i: int) -> ChapterModel {
    ChapterModel {
        name: if facts.name matches Some(name) && name.len() > 0 {
            facts.name->0
        } else {
            "Chapter "@ + text::decimal((i + 1) as nat)
        },
        start_position_ticks: match facts.start_position_ticks {
            Some(ticks) => ticks,
            None => 0,
        },
    }
}

/// The chapters.
pub open spec fn chapters_of(chapters: Option<Seq<ChapterFactsModel>>) -> Seq<ChapterModel> {
    match chapters {
        Some(known) => Seq::new(known.len(), |i: int| chapter_of(known[i], i)),
        None => Seq::empty(),
    }
}

/// Whether a trailer has an address.
pub open spec fn has_url() -> spec_fn(Option<Seq<char>>) -> bool {
    |url: Option<Seq<char>>| url matches Some(known) && known.len() > 0
}

/// The addresses of the trailers that have one.
pub open spec fn trailers_of(urls: Option<Seq<Option<Seq<char>>>>) -> Seq<Seq<char>> {
    match urls {
        Some(known) => known.filter(has_url()).map_values(|url: Option<Seq<char>>| url->0),
        None => Seq::empty(),
    }
}

/// Whether an item has another id.
pub open spec fn is_other(id: Seq<char>) -> spec_fn(ItemModel) -> bool {
    |item: ItemModel| item.id != id
}

/// Whether an item is none of the given ones.
pub open spec fn is_not_among(own: Seq<ItemModel>) -> spec_fn(ItemModel) -> bool {
    |item: ItemModel| forall|i: int| 0 <= i < own.len() ==> (#[trigger] own[i]).id != item.id
}

/// The genres.
pub open spec fn genres_of(genres: Option<Seq<Seq<char>>>) -> Seq<Seq<char>> {
    match genres {
        Some(known) => known,
        None => Seq::empty(),
    }
}

/// A list, if it was wanted.
pub open spec fn if_wanted(wanted: bool, items: Seq<ItemModel>) -> Seq<ItemModel> {
    if wanted {
        items
    } else {
        Seq::empty()
    }
}

/// The items that a request brought. One that failed brought none.
pub open spec fn brought(items: Option<Seq<ItemModel>>) -> Seq<ItemModel> {
    match items {
        Some(listed) => listed,
        None => Seq::empty(),
    }
}

/// What the answers amount to.
pub open spec fn detail_of(
    id: Seq<char>,
    wants: DetailWants,
    facts: ItemFactsModel,
    fetch: DetailFetchModel,
) -> ItemDetailModel {
    ItemDetailModel {
        overview: facts.overview,
        cast: people_of(facts.people),
        genres: genres_of(facts.genres),
        lyrics: if wants.lyrics {
            fetch.lyrics
        } else {
            None
        },
        children: if_wanted(wants.children, brought(fetch.children)),
        siblings: if_wanted(
            wants.siblings && facts.parent_id is Some,
            brought(fetch.neighbours).filter(is_other(id)),
        ),
        artist_albums: if_wanted(wants.discography, brought(fetch.albums)),
        appears_on: if_wanted(
            wants.discography,
            brought(fetch.credited_on).filter(is_not_among(brought(fetch.albums))),
        ),
        trailer_urls: trailers_of(facts.trailer_urls),
        chapters: chapters_of(facts.chapters),
    }
}

fn people_from(people: &Option<Vec<CreditFacts>>) -> (cast: Vec<Person>)
    ensures
        cast.deep_view() == people_of(people.deep_view()),
{
    let mut cast: Vec<Person> = Vec::new();
    assert(cast.deep_view() =~= Seq::empty());
    let known = match people {
        Some(known) => known,
        None => {
            return cast;
        },
    };
    let ghost goal = known.deep_view().map_values(|facts: CreditModel| person_of(facts));
    let mut i: usize = 0;
    while i < known.len()
        invariant
            i <= known@.len(),
            people.deep_view() == Some(known.deep_view()),
            goal == known.deep_view().map_values(|facts: CreditModel| person_of(facts)),
            cast.deep_view() =~= goal.take(i as int),
        decreases known@.len() - i,
    {
        let name = match &known[i].name {
            Some(name) => name.clone(),
            None => {
                let name = String::new();
                assert(name@ =~= Seq::empty());
                name
            },
        };
        push_deep(
            &mut cast,
            Person {
                id: known[i].id.clone(),
                name,
                role: known[i].role.clone(),
                kind: known[i].type_.clone(),
            },
        );
        proof {
            sequences::lemma_take_push(goal, i as int);
        }
        i = i + 1;
    }
    proof {
        sequences::lemma_take_all(goal);
    }
    cast
}

fn chapter_name(name: &Option<String>, i: usize) -> (shown: String)
    requires
        i < usize::MAX,
    ensures
        shown@ == (if name.deep_view() matches Some(known) && known.len() > 0 {
            name.deep_view()->0
        } else {
            "Chapter "@ + text::decimal((i + 1) as nat)
        }),
{
    if let Some(known) = name {
        if !known.as_str().is_empty() {
            return known.clone();
        }
    }
    concat2("Chapter ", decimal_text((i + 1) as u64).as_str())
}

fn chapters_from(chapters: &Option<Vec<ChapterFacts>>) -> (list: Vec<Chapter>)
    ensures
        list.deep_view() == chapters_of(chapters.deep_view()),
{
    let mut list: Vec<Chapter> = Vec::new();
    assert(list.deep_view() =~= Seq::empty());
    let known = match chapters {
        Some(known) => known,
        None => {
            return list;
        },
    };
    let ghost goal = chapters_of(chapters.deep_view());
    let mut i: usize = 0;
    while i < known.len()
        invariant
            i <= known@.len(),
            chapters.deep_view() == Some(known.deep_view()),
            goal == chapters_of(chapters.deep_view()),
            list.deep_view() =~= goal.take(i as int),
        decreases known@.len() - i,
    {
        push_deep(
            &mut list,
            Chapter {
                name: chapter_name(&known[i].name, i),
                start_position_ticks: match known[i].start_position_ticks {
                    Some(ticks) => ticks,
                    None => 0,
                },
            },
        );
        proof {
            sequences::lemma_take_push(goal, i as int);
        }
        i = i + 1;
    }
    proof {
        sequences::lemma_take_all(goal);
    }
    list
}

fn trailers_from(urls: &Option<Vec<Option<String>>>) -> (list: Vec<String>)
    ensures
        list.deep_view() == trailers_of(urls.deep_view()),
{
    let mut list: Vec<String> = Vec::new();
    assert(list.deep_view() =~= Seq::empty());
    let known = match urls {
        Some(known) => known,
        None => {
            return list;
        },
    };
    let ghost p = has_url();
    let ghost models = known.deep_view();
    proof {
        sequences::lemma_filter_empty(p);
        assert(models.take(0) =~= Seq::empty());
        assert(list.deep_view() =~= trailers_of(Some(models.take(0))));
    }
    let mut i: usize = 0;
    while i < known.len()
        invariant
            i <= known@.len(),
            models == known.deep_view(),
            urls.deep_view() == Some(models),
            p == has_url(),
            list.deep_view() =~= trailers_of(Some(models.take(i as int))),
        decreases known@.len() - i,
    {
        proof {
            sequences::lemma_take_push(models, i as int);
            sequences::lemma_filter_push(models.take(i as int), models[i as int], p);
            assert(models[i as int] == known@[i as int].deep_view());
        }
        if let Some(url) = &known[i] {
            if !url.as_str().is_empty() {
                push_deep(&mut list, url.clone());
            }
        }
        assert(list.deep_view() =~= trailers_of(Some(models.take(i + 1))));
        i = i + 1;
    }
    proof {
        sequences::lemma_take_all(models);
    }
    list
}

fn without_id(items: &Vec<Item>, id: &str) -> (others: Vec<Item>)
    ensures
        others.deep_view() == items.deep_view().filter(is_other(id@)),
{
    let ghost p = is_other(id@);
    let ghost models = items.deep_view();
    let mut others: Vec<Item> = Vec::new();
    proof {
        sequences::lemma_filter_empty(p);
        assert(models.take(0) =~= Seq::empty());
        assert(others.deep_view() =~= models.take(0).filter(p));
    }
    let mut i: usize = 0;
    while i < items.len()
        invariant
            i <= items@.len(),
            models == items.deep_view(),
            p == is_other(id@),
            others.deep_view() =~= models.take(i as int).filter(p),
        decreases items@.len() - i,
    {
        proof {
            sequences::lemma_take_push(models, i as int);
            sequences::lemma_filter_push(models.take(i as int), models[i as int], p);
            assert(models[i as int] == items@[i as int]@);
        }
        if !same_text(items[i].id.as_str(), id) {
            push_deep(&mut others, items[i].clone());
        }
        i = i + 1;
    }
    proof {
        sequences::lemma_take_all(models);
    }
    others
}

fn among(item: &Item, own: &Vec<Item>) -> (found: bool)
    ensures
        found == !is_not_among(own.deep_view())(item@),
{
    let ghost models = own.deep_view();
    let mut i: usize = 0;
    while i < own.len()
        invariant
            i <= own@.len(),
            models == own.deep_view(),
            forall|j: int| 0 <= j < i ==> (#[trigger] models[j]).id != item@.id,
        decreases own@.len() - i,
    {
        if same_text(own[i].id.as_str(), item.id.as_str()) {
            assert(models[i as int].id == item@.id);
            return true;
        }
        i = i + 1;
    }
    false
}

fn without_own(items: &Vec<Item>, own: &Vec<Item>) -> (others: Vec<Item>)
    ensures
        others.deep_view() == items.deep_view().filter(is_not_among(own.deep_view())),
{
    let ghost p = is_not_among(own.deep_view());
    let ghost models = items.deep_view();
    let mut others: Vec<Item> = Vec::new();
    proof {
        sequences::lemma_filter_empty(p);
        assert(models.take(0) =~= Seq::empty());
        assert(others.deep_view() =~= models.take(0).filter(p));
    }
    let mut i: usize = 0;
    while i < items.len()
        invariant
            i <= items@.len(),
            models == items.deep_view(),
            p == is_not_among(own.deep_view()),
            others.deep_view() =~= models.take(i as int).filter(p),
        decreases items@.len() - i,
    {
        proof {
            sequences::lemma_take_push(models, i as int);
            sequences::lemma_filter_push(models.take(i as int), models[i as int], p);
            assert(models[i as int] == items@[i as int]@);
        }
        if !among(&items[i], own) {
            push_deep(&mut others, items[i].clone());
        }
        i = i + 1;
    }
    proof {
        sequences::lemma_take_all(models);
    }
    others
}

fn kept_if(wanted: bool, items: Vec<Item>) -> (kept: Vec<Item>)
    ensures
        kept.deep_view() == if_wanted(wanted, items.deep_view()),
{
    if wanted {
        items
    } else {
        let none: Vec<Item> = Vec::new();
        assert(none.deep_view() =~= Seq::empty());
        none
    }
}

fn items_of(answer: Option<Vec<Item>>) -> (items: Vec<Item>)
    ensures
        items.deep_view() == brought(answer.deep_view()),
{
    match answer {
        Some(items) => items,
        None => {
            let none: Vec<Item> = Vec::new();
            assert(none.deep_view() =~= Seq::empty());
            none
        },
    }
}

/// What the answers of a detail fetch amount to. A request that failed brought nothing. Lyrics are a music-only concept, so
/// they are only kept for audio; an item is not its own sibling, and an artist's own
/// albums are not among those they appear on.
pub fn assemble_detail(id: &str, wants: DetailWants, facts: ItemFacts, fetch: DetailFetch) -> (detail:
    ItemDetail)
    ensures
        detail@ == detail_of(id@, wants, facts@, fetch@),
{
    let siblings = without_id(&items_of(fetch.neighbours), id);
    let albums = items_of(fetch.albums);
    let appears_on = without_own(&items_of(fetch.credited_on), &albums);
    let has_parent = facts.parent_id.is_some();
    let genres = match facts.genres {
        Some(known) => known,
        None => {
            let none: Vec<String> = Vec::new();
            assert(none.deep_view() =~= Seq::empty());
            none
        },
    };
    ItemDetail {
        overview: facts.overview,
        cast: people_from(&facts.people),
        genres,
        lyrics: if wants.lyrics {
            fetch.lyrics
        } else {
            None
        },
        children: kept_if(wants.children, items_of(fetch.children)),
        siblings: kept_if(wants.siblings && has_parent, siblings),
        artist_albums: kept_if(wants.discography, albums),
        appears_on: kept_if(wants.discography, appears_on),
        trailer_urls: trailers_from(&facts.trailer_urls),
        chapters: chapters_from(&facts.chapters),
    }
}

/// Asking twice in a row for the same detail asks the server once.
pub proof fn the_same_detail_is_asked_for_once(requests: DetailRequestsModel, item_id: Seq<char>)
    ensures
        !requests.asked(item_id).worth_asking(item_id),
{
}

/// An item is never listed among its own siblings.
pub proof fn siblings_leave_the_item_out(
    id: Seq<char>,
    wants: DetailWants,
    facts: ItemFactsModel,
    fetch: DetailFetchModel,
    i: int,
)
    requires
        0 <= i < detail_of(id, wants, facts, fetch).siblings.len(),
    ensures
        detail_of(id, wants, facts, fetch).siblings[i].id != id,
{
    let p = is_other(id);
    brought(fetch.neighbours).lemma_filter_pred(p, i);
}

/// An artist's own albums are not among those they appear on.
pub proof fn appearances_leave_own_albums_out(
    id: Seq<char>,
    wants: DetailWants,
    facts: ItemFactsModel,
    fetch: DetailFetchModel,
    i: int,
    j: int,
)
    requires
        0 <= i < detail_of(id, wants, facts, fetch).appears_on.len(),
        0 <= j < detail_of(id, wants, facts, fetch).artist_albums.len(),
    ensures
        detail_of(id, wants, facts, fetch).appears_on[i].id != detail_of(
            id,
            wants,
            facts,
            fetch,
        ).artist_albums[j].id,
{
    let albums = brought(fetch.albums);
    let p = is_not_among(albums);
    brought(fetch.credited_on).lemma_filter_pred(p, i);
    assert(albums[j].id == detail_of(id, wants, facts, fetch).artist_albums[j].id);
}

} // verus!
