//! How a list row tells what kind of item it stands for.

use vstd::prelude::*;

use crate::sequences::push_deep;
use crate::text::{as_slice, concat2, is_text};
use crate::ui::app::types::{Item, ItemModel, MediaKind};
use crate::ui::lines;
use crate::ui::lines::{span, Span, SpanModel, Tone};

verus! {

/// Glyph and tones of a list row.
#[derive(Debug, Clone, Copy)]
pub struct ItemKindDecor {
    pub glyph: &'static str,
    pub glyph_tone: Tone,
    pub name_tone: Tone,
}

/// The contents of an [`ItemKindDecor`].
#[verifier::ext_equal]
pub struct DecorModel {
    pub glyph: Seq<char>,
    pub glyph_tone: Tone,
    pub name_tone: Tone,
}

impl View for ItemKindDecor {
    type V = DecorModel;

    open spec fn view(&self) -> DecorModel {
        DecorModel {
            glyph: self.glyph@,
            glyph_tone: self.glyph_tone,
            name_tone: self.name_tone,
        }
    }
}

/// A leaf that plays.
pub open spec fn playable_decor(glyph: Seq<char>) -> DecorModel {
    DecorModel { glyph, glyph_tone: Tone::Progress, name_tone: Tone::ListItem }
}

/// A container that opens.
pub open spec fn folder_decor(glyph: Seq<char>, name_tone: Tone) -> DecorModel {
    DecorModel { glyph, glyph_tone: Tone::Folder, name_tone }
}

/// How an item of the given kind is shown.
pub open spec fn decor_of(item: ItemModel) -> DecorModel {
    let kind = item.kind;
    if kind == Some("Audio"@) || kind == Some("AudioBook"@) {
        playable_decor("♪"@)
    } else if kind == Some("Movie"@) || kind == Some("Episode"@) || kind == Some("Video"@) || kind
        == Some("MusicVideo"@) || kind == Some("Trailer"@) {
        playable_decor("▶"@)
    } else if kind == Some("MusicAlbum"@) {
        folder_decor("▣"@, Tone::Header)
    } else if kind == Some("MusicArtist"@) {
        folder_decor("♫"@, Tone::Header)
    } else if kind == Some("Playlist"@) {
        folder_decor("≡"@, Tone::Header)
    } else if kind == Some("Series"@) {
        folder_decor("❒"@, Tone::Header)
    } else if kind == Some("Season"@) {
        folder_decor("❍"@, Tone::HeaderItalic)
    } else if kind == Some("BoxSet"@) || kind == Some("Collection"@) || kind == Some(
        "CollectionFolder"@,
    ) {
        folder_decor("❖"@, Tone::Header)
    } else if kind == Some("Genre"@) || kind == Some("MusicGenre"@) || kind == Some("Studio"@)
        || kind == Some("Tag"@) {
        folder_decor("#"@, Tone::ListItemItalic)
    } else if item.is_folder {
        folder_decor("›"@, Tone::Header)
    } else {
        match item.media() {
            MediaKind::Audio => playable_decor("♪"@),
            MediaKind::Video => playable_decor("▶"@),
            MediaKind::Other => DecorModel {
                glyph: "·"@,
                glyph_tone: Tone::Muted,
                name_tone: Tone::ListItem,
            },
        }
    }
}

/// A list row: heart, kind glyph, name.
pub open spec fn row_spans(decor: DecorModel, item: ItemModel) -> Seq<SpanModel> {
    seq![
        lines::styled(
            Tone::Plain,
            if item.is_favorite {
                "♥ "@
            } else {
                ""@
            },
        ),
        lines::styled(decor.glyph_tone, decor.glyph + " "@),
        lines::styled(decor.name_tone, item.name),
    ]
}

fn playable(glyph: &'static str) -> (decor: ItemKindDecor)
    ensures
        decor@ == playable_decor(glyph@),
{
    ItemKindDecor { glyph, glyph_tone: Tone::Progress, name_tone: Tone::ListItem }
}

fn folder(glyph: &'static str, name_tone: Tone) -> (decor: ItemKindDecor)
    ensures
        decor@ == folder_decor(glyph@, name_tone),
{
    ItemKindDecor { glyph, glyph_tone: Tone::Folder, name_tone }
}

/// Visual signal for the kind of an item in a list:
/// - playable leaves get a coloured ▶ / ♪ glyph and the regular text style,
/// - containers (album, playlist, series, season, …) get a kind-specific glyph
///   plus the bold `header` text style so the eye separates "open this" from
///   "play this" at a glance.
pub fn item_kind_decor(item: &Item) -> (decor: ItemKindDecor)
    ensures
        decor@ == decor_of(item@),
{
    let kind = as_slice(&item.kind);
    if is_text(kind, "Audio") || is_text(kind, "AudioBook") {
        playable("♪")
    } else if is_text(kind, "Movie") || is_text(kind, "Episode") || is_text(kind, "Video")
        || is_text(kind, "MusicVideo") || is_text(kind, "Trailer") {
        playable("▶")
    } else if is_text(kind, "MusicAlbum") {
        folder("▣", Tone::Header)
    } else if is_text(kind, "MusicArtist") {
        folder("♫", Tone::Header)
    } else if is_text(kind, "Playlist") {
        folder("≡", Tone::Header)
    } else if is_text(kind, "Series") {
        folder("❒", Tone::Header)
    } else if is_text(kind, "Season") {
        folder("❍", Tone::HeaderItalic)
    } else if is_text(kind, "BoxSet") || is_text(kind, "Collection") || is_text(
        kind,
        "CollectionFolder",
    ) {
        folder("❖", Tone::Header)
    } else if is_text(kind, "Genre") || is_text(kind, "MusicGenre") || is_text(kind, "Studio")
        || is_text(kind, "Tag") {
        folder("#", Tone::ListItemItalic)
    } else if item.is_folder {
        folder("›", Tone::Header)
    } else {
        match item.media() {
            MediaKind::Audio => playable("♪"),
            MediaKind::Video => playable("▶"),
            MediaKind::Other => ItemKindDecor {
                glyph: "·",
                glyph_tone: Tone::Muted,
                name_tone: Tone::ListItem,
            },
        }
    }
}

impl ItemKindDecor {
    /// `[heart] [kind-glyph] [name]` for a list row.
    pub fn line_spans(&self, item: &Item) -> (spans: Vec<Span>)
        ensures
            spans.deep_view() == row_spans(self@, item@),
    {
        let favorite = if item.is_favorite {
            "♥ "
        } else {
            ""
        };
        let mut spans: Vec<Span> = Vec::new();
        push_deep(&mut spans, span(Tone::Plain, favorite));
        push_deep(&mut spans, span(self.glyph_tone, concat2(self.glyph, " ").as_str()));
        push_deep(&mut spans, span(self.name_tone, item.name.as_str()));
        assert(spans.deep_view() =~= row_spans(self@, item@));
        spans
    }
}

/// The row of an item.
pub open spec fn item_row(item: ItemModel) -> Seq<SpanModel> {
    row_spans(decor_of(item), item)
}

/// The rows of a list of items.
pub open spec fn item_rows(items: Seq<ItemModel>) -> Seq<Seq<SpanModel>> {
    items.map_values(|item: ItemModel| item_row(item))
}

/// The rows of a list of items.
pub(crate) fn rows_of(items: &Vec<Item>) -> (rows: Vec<Vec<Span>>)
    ensures
        rows.deep_view() == item_rows(items.deep_view()),
{
    let ghost goal = item_rows(items.deep_view());
    let mut rows: Vec<Vec<Span>> = Vec::new();
    let mut i: usize = 0;
    while i < items.len()
        invariant
            i <= items@.len(),
            goal == item_rows(items.deep_view()),
            rows.deep_view() =~= goal.take(i as int),
        decreases items@.len() - i,
    {
        let decor = item_kind_decor(&items[i]);
        push_deep(&mut rows, decor.line_spans(&items[i]));
        proof {
            crate::sequences::lemma_take_push(goal, i as int);
        }
        i = i + 1;
    }
    proof {
        crate::sequences::lemma_take_all(goal);
    }
    rows
}

/// What plays never looks like what opens: the two have different glyph tones.
pub proof fn playable_rows_look_unlike_folders(leaf: ItemModel, folder: ItemModel)
    requires
        !leaf.is_folder,
        leaf.media() != MediaKind::Other,
        folder.is_folder,
        folder.media() == MediaKind::Other,
    ensures
        decor_of(leaf).glyph_tone == Tone::Progress,
        decor_of(folder).glyph_tone == Tone::Folder,
{
    reveal_strlit("Audio");
    reveal_strlit("AudioBook");
    reveal_strlit("Movie");
    reveal_strlit("Episode");
    reveal_strlit("Video");
    reveal_strlit("MusicVideo");
    reveal_strlit("Trailer");
    reveal_strlit("MusicAlbum");
    reveal_strlit("MusicArtist");
    reveal_strlit("Playlist");
    reveal_strlit("Series");
    reveal_strlit("Season");
    reveal_strlit("BoxSet");
    reveal_strlit("Collection");
    reveal_strlit("CollectionFolder");
    reveal_strlit("Genre");
    reveal_strlit("MusicGenre");
    reveal_strlit("Studio");
    reveal_strlit("Tag");
}

} // verus!
