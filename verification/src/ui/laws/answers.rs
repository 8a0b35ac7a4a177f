//! What comes of the server's answers.

use vstd::prelude::*;
use vstd::string::*;

use crate::sequences;
use crate::text;
use crate::ui::app::queue;
use crate::ui::app::state;
use crate::ui::app::state::AppModel;
use crate::ui::app::types::{
    IntentModel, Item, ItemModel, Library, LibraryModel, MediaKind, VideoTrackKind,
};
use crate::ui::browse;
use crate::ui::browse::{
    BrowseResult, BrowseResultModel, HintModel, HomeFetchModel, MediaSource, MediaStream,
    SearchHint, SourceModel, StreamModel, UserView,
};
use crate::video::TrackChoice;

verus! {

// ---------------------------------------------------------------------------
// Track labels

/// A part of a label behind its separator, if it is known.
pub open spec fn also(part: Option<Seq<char>>) -> Seq<char> {
    if part is Some && part->0.len() > 0 {
        "  ·  "@ + part->0
    } else {
        Seq::empty()
    }
}

/// Whether a text is there and not empty.
pub open spec fn known(part: Option<Seq<char>>) -> bool {
    part is Some && part->0.len() > 0
}

proof fn lemma_one_more_part(parts: Seq<Seq<char>>, part: Option<Seq<char>>)
    requires
        parts.len() > 0,
    ensures
        text::joined(parts + browse::filled(part), "  ·  "@) == text::joined(parts, "  ·  "@)
            + also(part),
{
    if known(part) {
        text::lemma_joined_push(parts, part->0, "  ·  "@);
        assert(parts + browse::filled(part) =~= parts.push(part->0));
        assert(text::joined(parts, "  ·  "@) + "  ·  "@ + part->0 =~= text::joined(
            parts,
            "  ·  "@,
        ) + also(part));
    } else {
        assert(parts + browse::filled(part) =~= parts);
        assert(text::joined(parts, "  ·  "@) + also(part) =~= text::joined(parts, "  ·  "@));
    }
}

/// A track with a title of its own is listed under its number and that title, and is
/// marked where it is the default or forced.
pub proof fn titled_tracks_are_listed_by_title(stream: MediaStream, index: i32, label: String)
    requires
        call_ensures(browse::format_track_label, (&stream, index), label),
        known(stream@.display_title),
    ensures
        ({
            let plain = "#"@ + text::signed_decimal(index as int) + "  "@
                + stream@.display_title->0;
            let default = stream@.is_default == Some(true);
            let forced = stream@.is_forced == Some(true);
            &&& !default && !forced ==> label@ == plain
            &&& default && !forced ==> label@ == plain + "  (default)"@
            &&& !default && forced ==> label@ == plain + "  (forced)"@
            &&& default && forced ==> label@ == plain + "  (default)"@ + "  (forced)"@
        }),
{
    reveal_strlit("");
    let plain = "#"@ + text::signed_decimal(index as int) + "  "@ + stream@.display_title->0;
    assert(plain + ""@ =~= plain);
    assert(plain + ""@ + ""@ =~= plain);
    assert(plain + "  (default)"@ + ""@ =~= plain + "  (default)"@);
}

/// A track without a title is listed under its number and whatever is known of it:
/// language, name, codec and channels, in that order, each behind a dot; it is unnamed
/// where nothing is.
pub proof fn untitled_tracks_are_listed_by_what_is_known(
    stream: MediaStream,
    index: i32,
    label: String,
)
    requires
        call_ensures(browse::format_track_label, (&stream, index), label),
        !known(stream@.display_title),
    ensures
        ({
            let number = "#"@ + text::signed_decimal(index as int);
            let s = stream@;
            if known(s.language) || known(s.title) || known(s.codec) || known(s.channel_layout) {
                label@ == number + also(s.language) + also(s.title) + also(s.codec) + also(
                    s.channel_layout,
                )
            } else {
                label@ == number + "  ·  "@ + "Unnamed track"@
            }
        }),
{
    let number = "#"@ + text::signed_decimal(index as int);
    let s = stream@;
    let none = seq![number];
    let one = none + browse::filled(s.language);
    let two = one + browse::filled(s.title);
    let three = two + browse::filled(s.codec);
    let four = three + browse::filled(s.channel_layout);
    lemma_one_more_part(none, s.language);
    lemma_one_more_part(one, s.title);
    lemma_one_more_part(two, s.codec);
    lemma_one_more_part(three, s.channel_layout);
    assert(text::joined(none, "  ·  "@) == number);
    if known(s.language) || known(s.title) || known(s.codec) || known(s.channel_layout) {
        assert(four =~= seq![number] + browse::track_parts(s));
    } else {
        text::lemma_joined_push(none, "Unnamed track"@, "  ·  "@);
        assert(none.push("Unnamed track"@) =~= seq![number] + browse::track_parts(s));
    }
}

// ---------------------------------------------------------------------------
// Tracks and versions

/// Without streams a picker offers the server's choice, and for subtitles none at all.
pub proof fn every_picker_offers_the_default()
    ensures
        browse::track_entries(Seq::empty(), VideoTrackKind::Audio).len() == 1,
        browse::track_entries(Seq::empty(), VideoTrackKind::Subtitle).len() == 2,
        browse::track_entries(Seq::empty(), VideoTrackKind::Audio)[0].choice == TrackChoice::Auto,
        browse::track_entries(Seq::empty(), VideoTrackKind::Subtitle)[0].choice
            == TrackChoice::Auto,
        browse::track_entries(Seq::empty(), VideoTrackKind::Subtitle)[1].choice
            == TrackChoice::Off,
{
    sequences::lemma_filter_empty(browse::is_stream(browse::stream_kind(VideoTrackKind::Audio)));
    sequences::lemma_filter_empty(
        browse::is_stream(browse::stream_kind(VideoTrackKind::Subtitle)),
    );
}

/// One more stream of a picker's type is one more entry at its end, under the next
/// number of that type; a stream of another type changes nothing.
pub proof fn each_track_gets_the_next_number(streams: Seq<StreamModel>, next: StreamModel)
    ensures
        ({
            let before = browse::track_entries(streams, VideoTrackKind::Audio);
            let after = browse::track_entries(streams.push(next), VideoTrackKind::Audio);
            if next.type_ == Some("Audio"@) {
                &&& after.drop_last() == before
                &&& after.last().choice == TrackChoice::Pick(before.len() as i32)
                &&& after.last().label == browse::track_label(next, before.len() as int)
            } else {
                after == before
            }
        }),
        ({
            let before = browse::track_entries(streams, VideoTrackKind::Subtitle);
            let after = browse::track_entries(streams.push(next), VideoTrackKind::Subtitle);
            if next.type_ == Some("Subtitle"@) {
                &&& after.drop_last() == before
                &&& after.last().choice == TrackChoice::Pick((before.len() - 1) as i32)
                &&& after.last().label == browse::track_label(next, before.len() - 1)
            } else {
                after == before
            }
        }),
{
    let audio = browse::is_stream("Audio"@);
    sequences::lemma_filter_push(streams, next, audio);
    let tracks = streams.filter(audio);
    if next.type_ == Some("Audio"@) {
        assert(browse::numbered_entries(tracks.push(next)) =~= browse::numbered_entries(
            tracks,
        ).push(browse::track_entry(next, tracks.len() as int + 1)));
        assert(browse::track_entries(streams.push(next), VideoTrackKind::Audio).drop_last()
            =~= browse::track_entries(streams, VideoTrackKind::Audio));
    }
    let subtitle = browse::is_stream("Subtitle"@);
    sequences::lemma_filter_push(streams, next, subtitle);
    let texts = streams.filter(subtitle);
    if next.type_ == Some("Subtitle"@) {
        assert(browse::numbered_entries(texts.push(next)) =~= browse::numbered_entries(
            texts,
        ).push(browse::track_entry(next, texts.len() as int + 1)));
        assert(browse::track_entries(streams.push(next), VideoTrackKind::Subtitle).drop_last()
            =~= browse::track_entries(streams, VideoTrackKind::Subtitle));
    }
}

/// Every source that can be asked for is a version under its own id, in the server's
/// order; one without an id is left out.
pub proof fn every_source_with_an_id_is_a_version(sources: Seq<SourceModel>, next: SourceModel)
    ensures
        browse::versions_of(Seq::empty()).len() == 0,
        next.id is None ==> browse::versions_of(sources.push(next)) == browse::versions_of(sources),
        next.id is Some ==> {
            let after = browse::versions_of(sources.push(next));
            &&& after.drop_last() == browse::versions_of(sources)
            &&& after.last().source_id == next.id->0
            &&& after.last().label == text::joined(browse::version_parts(next), "  ·  "@)
            &&& after.len() == browse::versions_of(sources).len() + 1
        },
{
    let p = browse::has_source_id();
    sequences::lemma_filter_empty(p);
    sequences::lemma_filter_push(sources, next, p);
    if next.id is Some {
        assert(browse::versions_of(sources.push(next)).drop_last() =~= browse::versions_of(
            sources,
        ));
    }
}

/// A version is described by its name, its container in capitals, its video codec and
/// its size, in that order, as far as each is known.
pub proof fn versions_are_described_by_what_is_known(source: MediaSource, label: String)
    requires
        call_ensures(browse::format_version_label, (&source,), label),
    ensures
        ({
            let s = source@;
            let codec = browse::video_codec(s.media_streams);
            &&& known(s.name) ==> label@ == s.name->0 + (if known(s.container) {
                "  ·  "@ + text::uppercase(s.container->0)
            } else {
                Seq::empty()
            }) + also(codec) + (if s.size_label is Some {
                "  ·  "@ + s.size_label->0
            } else {
                Seq::empty()
            })
            &&& !known(s.name) && known(s.container) ==> label@ == text::uppercase(s.container->0)
                + also(codec) + (if s.size_label is Some {
                "  ·  "@ + s.size_label->0
            } else {
                Seq::empty()
            })
            &&& !known(s.name) && !known(s.container) && known(codec) ==> label@ == codec->0 + (
            if s.size_label is Some {
                "  ·  "@ + s.size_label->0
            } else {
                Seq::empty()
            })
            &&& !known(s.name) && !known(s.container) && !known(codec) && s.size_label is Some
                ==> label@ == s.size_label->0
            &&& !known(s.name) && !known(s.container) && !known(codec) && s.size_label is None
                ==> label@ == "Default"@
        }),
{
    let s = source@;
    let codec = browse::video_codec(s.media_streams);
    let container = if known(s.container) {
        seq![text::uppercase(s.container->0)]
    } else {
        Seq::empty()
    };
    let size = if s.size_label is Some {
        seq![s.size_label->0]
    } else {
        Seq::empty()
    };
    let none = Seq::<Seq<char>>::empty();
    let one = none + browse::filled(s.name);
    let two = one + container;
    let three = two + browse::filled(codec);
    let four = three + size;
    assert(browse::filled(s.name) + container + browse::filled(codec) + size =~= four);
    if known(s.name) {
        assert(one =~= seq![s.name->0]);
    } else {
        assert(one =~= none);
    }
    if known(s.container) {
        text::lemma_joined_push(one, text::uppercase(s.container->0), "  ·  "@);
        assert(two =~= one.push(text::uppercase(s.container->0)));
    } else {
        assert(two =~= one);
    }
    if two.len() > 0 {
        lemma_one_more_part(two, codec);
    } else {
        if known(codec) {
            assert(three =~= seq![codec->0]);
        } else {
            assert(three =~= none);
        }
    }
    if s.size_label is Some {
        text::lemma_joined_push(three, s.size_label->0, "  ·  "@);
        assert(four =~= three.push(s.size_label->0));
    } else {
        assert(four =~= three);
    }
    assert(label@ == text::joined(browse::version_parts(s), "  ·  "@));
    if four.len() > 0 {
        assert(browse::version_parts(s) =~= four);
    } else {
        assert(browse::version_parts(s) =~= seq!["Default"@]);
    }
    if known(s.name) {
        assert(label@ =~= s.name->0 + (if known(s.container) {
            "  ·  "@ + text::uppercase(s.container->0)
        } else {
            Seq::empty()
        }) + also(codec) + (if s.size_label is Some {
            "  ·  "@ + s.size_label->0
        } else {
            Seq::empty()
        }));
    } else if known(s.container) {
        assert(label@ =~= text::uppercase(s.container->0) + also(codec) + (
        if s.size_label is Some {
            "  ·  "@ + s.size_label->0
        } else {
            Seq::empty()
        }));
    } else if known(codec) {
        assert(label@ =~= codec->0 + (if s.size_label is Some {
            "  ·  "@ + s.size_label->0
        } else {
            Seq::empty()
        }));
    }
}

/// The codec that describes a version is that of its first video stream.
pub proof fn the_first_video_stream_gives_the_codec(streams: Seq<StreamModel>, i: int)
    requires
        0 <= i < streams.len(),
        streams[i].type_ == Some("Video"@),
        forall|j: int| 0 <= j < i ==> (#[trigger] streams[j]).type_ != Some("Video"@),
    ensures
        browse::video_codec(streams) == streams[i].codec,
{
    sequences::lemma_first_index_found(streams, browse::is_stream("Video"@), i);
}

/// A video's options are those of its own sources: one version per source, and the tracks
/// of the first source, under the item that was asked about.
pub proof fn options_are_of_the_item_asked_about(
    item_id: String,
    sources: Vec<MediaSource>,
    result: BrowseResult,
)
    requires
        call_ensures(browse::media_options_result, (item_id, Ok(sources)), result),
        sources@.len() > 0,
    ensures
        result@ matches BrowseResultModel::MediaOptions {
            item_id: id,
            versions,
            audio_entries,
            subtitle_entries,
        } && id == item_id@ && versions == browse::versions_of(sources.deep_view())
            && audio_entries == browse::track_entries(
            sources@[0].media_streams.deep_view(),
            VideoTrackKind::Audio,
        ) && subtitle_entries == browse::track_entries(
            sources@[0].media_streams.deep_view(),
            VideoTrackKind::Subtitle,
        ),
{
    assert(sources.deep_view()[0] == sources@[0]@);
}

/// A track picker is filled with the tracks of the kind it was opened for.
pub proof fn tracks_are_of_the_kind_asked_for(
    kind: VideoTrackKind,
    sources: Vec<MediaSource>,
    result: BrowseResult,
)
    requires
        call_ensures(browse::video_tracks_result, (kind, Ok(sources)), result),
        sources@.len() > 0,
    ensures
        result@ == BrowseResultModel::VideoTracks(
            browse::track_entries(sources@[0].media_streams.deep_view(), kind),
        ),
{
    assert(sources.deep_view()[0] == sources@[0]@);
}

// ---------------------------------------------------------------------------
// Search hints

/// A hint stands for the item it points at: by its item id, else by its own id; without
/// either there is no item.
pub proof fn hints_point_at_their_item(hint: SearchHint, item: Option<Item>)
    requires
        call_ensures(browse::item_from_hint, (hint,), item),
    ensures
        hint.item_id is None && hint.id is None <==> item is None,
        item matches Some(found) ==> {
            &&& hint.item_id is Some ==> found.id@ == hint.item_id->0@
            &&& hint.item_id is None ==> found.id@ == hint.id->0@
            &&& hint.name is Some ==> found.name@ == hint.name->0@
            &&& hint.name is None ==> found.name@ == "(untitled)"@
            &&& found.kind.deep_view() == hint.type_.deep_view()
            &&& !found.is_folder
        },
{
    assert(item.deep_view() == browse::hint_item(hint@));
    if let Some(found) = item {
        assert(item.deep_view() == Some(found@));
    }
}

/// Search results keep the server's order and leave out only what points nowhere.
pub proof fn results_keep_the_order_of_the_hints(hints: Seq<HintModel>, next: HintModel)
    ensures
        browse::hint_items(Seq::empty()).len() == 0,
        next.item_id is None && next.id is None ==> browse::hint_items(hints.push(next))
            == browse::hint_items(hints),
        next.item_id is Some || next.id is Some ==> {
            let after = browse::hint_items(hints.push(next));
            &&& after.drop_last() == browse::hint_items(hints)
            &&& after.len() == browse::hint_items(hints).len() + 1
            &&& after.last().id == if next.item_id is Some {
                next.item_id->0
            } else {
                next.id->0
            }
        },
{
    let p = browse::points_somewhere();
    sequences::lemma_filter_empty(p);
    sequences::lemma_filter_push(hints, next, p);
    if next.item_id is Some || next.id is Some {
        assert(browse::hint_items(hints.push(next)).drop_last() =~= browse::hint_items(hints));
    }
}

// ---------------------------------------------------------------------------
// Answers

/// An answered request hands its items on as they came, under the id it was made for; a
/// failed one names that id and the reason.
pub proof fn answers_belong_to_their_request(
    id: String,
    answer: Result<Vec<Item>, String>,
    folder: BrowseResult,
    section: BrowseResult,
    search: BrowseResult,
    names: (&str, &str),
    words: (String, String),
)
    requires
        call_ensures(browse::folder_result, (id, answer), folder),
        call_ensures(browse::section_result, (id, names.0, names.1, answer), section),
        call_ensures(browse::search_result, (id, words.0, words.1, answer), search),
    ensures
        answer matches Ok(items) ==> {
            &&& folder@ == (BrowseResultModel::Folder { id: id@, items: items.deep_view() })
            &&& section@ == (BrowseResultModel::Section {
                library_id: id@,
                title: names.0@ + " · "@ + names.1@,
                items: items.deep_view(),
            })
            &&& search@ == (BrowseResultModel::Search {
                library_id: id@,
                query: words.0@,
                scope_label: words.1@,
                items: items.deep_view(),
            })
        },
        answer matches Err(reason) ==> {
            &&& folder@ == (BrowseResultModel::Failed {
                id: id@,
                message: "Couldn't open folder: "@ + reason@,
            })
            &&& section@ == (BrowseResultModel::Failed {
                id: id@,
                message: "Couldn't load section: "@ + reason@,
            })
            &&& search@ == (BrowseResultModel::Failed {
                id: id@,
                message: "Couldn't search: "@ + reason@,
            })
        },
{
}

/// The library picker lists every library under its own id and name, and ticks exactly
/// those that are visible; all of them as long as nothing was chosen.
pub proof fn the_library_picker_ticks_what_is_visible(
    visible: Option<Vec<String>>,
    views: Vec<UserView>,
    result: BrowseResult,
)
    requires
        call_ensures(browse::library_meta_result, (&visible, Ok(views)), result),
    ensures
        ({
            &&& result@ matches BrowseResultModel::LibraryMeta(entries)
            &&& entries.len() == views@.len()
            &&& forall|i: int|
                0 <= i < entries.len() ==> {
                    let entry = #[trigger] entries[i];
                    &&& entry.0 == views@[i].id@
                    &&& views@[i].name is Some ==> entry.1 == views@[i].name->0@
                    &&& views@[i].name is None ==> entry.1 == "(library)"@
                    &&& visible is None ==> entry.2
                    &&& visible is Some ==> (entry.2 <==> visible->0.deep_view().contains(
                        views@[i].id@,
                    ))
                }
        }),
{
    let entries = result@->LibraryMeta_0;
    assert(visible.deep_view() is Some <==> visible is Some);
    assert forall|i: int| 0 <= i < entries.len() implies {
        let entry = #[trigger] entries[i];
        &&& entry.0 == views@[i].id@
        &&& views@[i].name is Some ==> entry.1 == views@[i].name->0@
        &&& views@[i].name is None ==> entry.1 == "(library)"@
        &&& visible is None ==> entry.2
        &&& visible is Some ==> (entry.2 <==> visible->0.deep_view().contains(views@[i].id@))
    } by {
        assert(views.deep_view()[i] == views@[i]@);
    }
}

/// The playlist picker lists every playlist under its own id and name.
pub proof fn the_playlist_picker_lists_every_playlist(
    playlists: Vec<(String, Option<String>)>,
    result: BrowseResult,
)
    requires
        call_ensures(browse::playlists_result, (Ok(playlists),), result),
    ensures
        ({
            &&& result@ matches BrowseResultModel::Playlists(entries)
            &&& entries.len() == playlists@.len()
            &&& forall|i: int|
                0 <= i < entries.len() ==> {
                    let entry = #[trigger] entries[i];
                    &&& entry.0 == playlists@[i].0@
                    &&& playlists@[i].1 is Some ==> entry.1 == playlists@[i].1->0@
                    &&& playlists@[i].1 is None ==> entry.1 == "(playlist)"@
                }
        }),
{
    let entries = result@->Playlists_0;
    assert forall|i: int| 0 <= i < entries.len() implies {
        let entry = #[trigger] entries[i];
        &&& entry.0 == playlists@[i].0@
        &&& playlists@[i].1 is Some ==> entry.1 == playlists@[i].1->0@
        &&& playlists@[i].1 is None ==> entry.1 == "(playlist)"@
    } by {
        assert(playlists.deep_view()[i] == playlists@[i].deep_view());
    }
}

/// A fetched library keeps its id, name, type and items.
pub proof fn a_fetched_library_keeps_what_it_is(view: UserView, items: Vec<Item>, library: Library)
    requires
        call_ensures(browse::library_from, (view, items), library),
    ensures
        library.id@ == view.id@,
        view.name matches Some(name) ==> library.name@ == name@,
        view.name is None ==> library.name@ == "(library)"@,
        library.collection_type.deep_view() == view.collection_type.deep_view(),
        library.items.deep_view() == items.deep_view(),
{
    assert(library@.id == library.id@);
}

/// A mix keeps exactly the tracks of an answer, in its order; an answer without a track
/// is an error and never an empty queue.
pub proof fn a_mix_keeps_exactly_the_tracks(
    items: Seq<ItemModel>,
    next: ItemModel,
    empty: Seq<char>,
)
    ensures
        browse::mix_of(Seq::empty(), empty) == BrowseResultModel::Error(empty),
        next.media() != MediaKind::Audio ==> browse::mix_of(items.push(next), empty)
            == browse::mix_of(items, empty),
        next.media() == MediaKind::Audio ==> browse::mix_of(items.push(next), empty)
            == BrowseResultModel::InstantMix(
            match browse::mix_of(items, empty) {
                BrowseResultModel::InstantMix(tracks) => tracks.push(next),
                _ => seq![next],
            },
        ),
{
    sequences::lemma_filter_empty(queue::is_audio());
    sequences::lemma_filter_push(items, next, queue::is_audio());
    let tracks = items.filter(queue::is_audio());
    if tracks.len() == 0 {
        assert(tracks.push(next) =~= seq![next]);
    }
}

/// Radio and instant mix play the tracks they were answered with, and a failure says
/// which of the two it was.
pub proof fn mixes_come_from_their_answer(
    answer: Result<Vec<Item>, String>,
    radio: BrowseResult,
    mix: BrowseResult,
)
    requires
        call_ensures(browse::genre_radio_result, (answer,), radio),
        call_ensures(browse::instant_mix_result, (answer,), mix),
    ensures
        answer matches Ok(items) ==> {
            &&& radio@ is InstantMix <==> mix@ is InstantMix
            &&& radio@ matches BrowseResultModel::InstantMix(tracks) ==> mix@ == radio@
            &&& radio@ is InstantMix || radio@ == BrowseResultModel::Error(
                "Genre radio returned no tracks"@,
            )
            &&& mix@ is InstantMix || mix@ == BrowseResultModel::Error(
                "Instant mix returned no playable tracks"@,
            )
            &&& (exists|i: int|
                0 <= i < items.deep_view().len() && (#[trigger] items.deep_view()[i]).media()
                    == MediaKind::Audio) ==> radio@ is InstantMix
        },
        answer matches Err(reason) ==> {
            &&& radio@ == BrowseResultModel::Error("Genre radio failed: "@ + reason@)
            &&& mix@ == BrowseResultModel::Error("Instant mix failed: "@ + reason@)
        },
{
    if let Ok(items) = answer {
        if exists|i: int|
            0 <= i < items.deep_view().len() && (#[trigger] items.deep_view()[i]).media()
                == MediaKind::Audio {
            let i = choose|i: int|
                0 <= i < items.deep_view().len() && (#[trigger] items.deep_view()[i]).media()
                    == MediaKind::Audio;
            items.deep_view().lemma_filter_contains(queue::is_audio(), i);
        }
    }
}

// ---------------------------------------------------------------------------
// Home

/// The dashboard shows each list as it came; a list that failed is empty and takes no
/// other with it.
pub proof fn home_shows_each_list_as_it_came(fetch: HomeFetchModel)
    ensures
        ({
            let home = browse::home_of(fetch);
            &&& !home.loading
            &&& fetch.resume matches Some(items) ==> home.resume == items
            &&& fetch.resume is None ==> home.resume.len() == 0
            &&& fetch.next_up matches Some(items) ==> home.next_up == items
            &&& fetch.next_up is None ==> home.next_up.len() == 0
            &&& fetch.latest matches Some(items) ==> home.latest_global == items
            &&& fetch.latest is None ==> home.latest_global.len() == 0
            &&& home.recent_per_library.len() == fetch.libraries.len()
        }),
{
}

/// The dashboard shows every library in order, with its own count and its own recent
/// items.
pub proof fn home_shows_every_library(fetch: HomeFetchModel, i: int)
    requires
        0 <= i < fetch.libraries.len(),
    ensures
        ({
            let shown = browse::home_of(fetch).recent_per_library[i];
            let library = fetch.libraries[i];
            &&& shown.id == library.id
            &&& shown.name == library.name
            &&& shown.collection_type == library.collection_type
            &&& library.item_count matches Some(count) ==> shown.item_count == count
            &&& library.item_count is None ==> shown.item_count == 0
            &&& library.recent matches Some(items) ==> shown.recent == items
            &&& library.recent is None ==> shown.recent.len() == 0
        }),
{
}

// ---------------------------------------------------------------------------
// Delivery

/// A mix replaces the queue by its tracks and starts on the first of them.
pub proof fn a_delivered_mix_is_the_queue(app: AppModel, tracks: Seq<ItemModel>)
    requires
        tracks.len() > 0,
    ensures
        ({
            let after = app.result_applied(BrowseResultModel::InstantMix(tracks));
            &&& after.queue == tracks
            &&& after.queue_index == Some(0usize)
            &&& after.pending == app.pending.push(
                IntentModel::PlayQueueCurrent { item: tracks[0] },
            )
            &&& after.stack == app.stack
            &&& after.focus == app.focus
        }),
{
}

/// A search's answer fills the list of the library it was made in, under its title; one
/// for another library is dropped.
pub proof fn a_search_answer_fills_its_library(
    app: AppModel,
    library_id: Seq<char>,
    query: Seq<char>,
    scope_label: Seq<char>,
    items: Seq<ItemModel>,
)
    ensures
        ({
            let after = app.result_applied(
                BrowseResultModel::Search { library_id, query, scope_label, items },
            );
            &&& app.stack.len() == 0 ==> after == app
            &&& app.stack.len() > 0 && app.stack[0].parent_id != library_id ==> after == app
            &&& app.stack.len() > 0 && app.stack[0].parent_id == library_id ==> {
                &&& after.stack.len() == 1
                &&& after.stack[0].items == items
                &&& after.stack[0].selected == 0
                &&& !after.stack[0].loading
                &&& after.stack[0].parent_id == library_id
                &&& scope_label.len() == 0 ==> after.stack[0].title == "Search: "@ + query
                &&& scope_label.len() > 0 ==> after.stack[0].title == "Search · "@ + scope_label
                    + ": "@ + query
                &&& after == (AppModel { stack: after.stack, ..app })
            }
        }),
{
}

/// A sync keeps the user in the library they were in, wherever it now stands; where it
/// is gone, the first library is shown.
pub proof fn a_sync_keeps_the_library(app: AppModel, libraries: Seq<LibraryModel>)
    requires
        app.library_selected < app.libraries.len(),
        libraries.len() <= usize::MAX,
    ensures
        ({
            let here = app.libraries[app.library_selected as int].id;
            let after = app.result_applied(BrowseResultModel::Libraries(libraries));
            &&& after.libraries == libraries
            &&& (exists|i: int| 0 <= i < libraries.len() && (#[trigger] libraries[i]).id == here)
                ==> after.library_selected < libraries.len()
                && libraries[after.library_selected as int].id == here
            &&& !(exists|i: int| 0 <= i < libraries.len() && (#[trigger] libraries[i]).id == here)
                ==> after.library_selected == 0
            &&& after.queue == app.queue
        }),
{
    let here = app.libraries[app.library_selected as int].id;
    let p = state::library_has_id(here);
    sequences::lemma_first_index(libraries, p);
    assert forall|i: int|
        0 <= i < libraries.len() && (#[trigger] libraries[i]).id == here implies p(libraries[i]) by {
    }
}

/// A failure is shown with its reason, and a note goes to the status bar; neither moves
/// the user, unless the failed folder was waiting on top.
pub proof fn failures_are_shown(app: AppModel, id: Seq<char>, message: Seq<char>)
    ensures
        ({
            let failed = app.result_applied(BrowseResultModel::Failed { id, message });
            let error = app.result_applied(BrowseResultModel::Error(message));
            let note = app.result_applied(BrowseResultModel::Status(message));
            &&& failed.error == Some(message)
            &&& error.error == Some(message)
            &&& !failed.error_copied && !error.error_copied
            &&& error == (AppModel { error: error.error, error_copied: false, ..app })
            &&& failed == (AppModel {
                error: failed.error,
                error_copied: false,
                stack: failed.stack,
                ..app
            })
            &&& failed.stack == app.stack || (app.stack.len() > 1 && failed.stack
                == app.stack.drop_last())
            &&& note.status_message == Some(message)
            &&& note == (AppModel { status_message: note.status_message, ..app })
        }),
{
}

// ---------------------------------------------------------------------------
// What is said of an outcome

/// Libraries and search results are handed on as they came, under the words that were
/// searched for; a failure says which request it was and why.
pub proof fn lists_are_handed_on_as_they_came(
    libraries: Result<Vec<Library>, String>,
    synced: BrowseResult,
    words: String,
    hints: Result<Vec<SearchHint>, String>,
    found: BrowseResult,
)
    requires
        call_ensures(browse::libraries_result, (libraries,), synced),
        call_ensures(browse::global_search_result, (words, hints), found),
    ensures
        libraries matches Ok(list) ==> synced@ == BrowseResultModel::Libraries(list.deep_view()),
        libraries matches Err(reason) ==> synced@ == BrowseResultModel::Error(
            "Sync failed: "@ + reason@,
        ),
        hints matches Ok(list) ==> found@ == (BrowseResultModel::GlobalSearch {
            query: words@,
            items: browse::hint_items(list.deep_view()),
        }),
        hints matches Err(reason) ==> found@ == BrowseResultModel::Error(
            "Search failed: "@ + reason@,
        ),
{
}

/// What was done to a playlist is said, and a failure with its reason.
pub proof fn playlist_outcomes_are_said(
    added: Result<(), String>,
    adding: BrowseResult,
    name: &str,
    created: Result<String, String>,
    creating: BrowseResult,
)
    requires
        call_ensures(browse::add_to_playlist_result, (added,), adding),
        call_ensures(browse::create_playlist_result, (name, created), creating),
    ensures
        added is Ok ==> adding@ == BrowseResultModel::Status("Added to playlist"@),
        added matches Err(reason) ==> adding@ == BrowseResultModel::Error(
            "Add to playlist failed: "@ + reason@,
        ),
        created matches Ok(id) ==> creating@ == BrowseResultModel::Status(
            "Saved as playlist \""@ + name@ + "\" ("@ + id@ + ")"@,
        ),
        created matches Err(reason) ==> creating@ == BrowseResultModel::Error(
            "Couldn't save playlist: "@ + reason@,
        ),
{
}

/// A recorded dislike goes without a word and a failed one does not; a copied address
/// names its item.
pub proof fn dislikes_and_copies_are_said(
    disliked: Result<(), String>,
    outcome: Option<BrowseResult>,
    name: &str,
    copied: bool,
    copying: BrowseResult,
)
    requires
        call_ensures(browse::dislike_result, (disliked,), outcome),
        call_ensures(browse::copy_url_result, (name, copied), copying),
    ensures
        disliked is Ok ==> outcome is None,
        disliked matches Err(reason) ==> outcome.deep_view() == Some(
            BrowseResultModel::Error("Dislike failed: "@ + reason@),
        ),
        copied ==> copying@ == BrowseResultModel::Status("Copied URL: "@ + name@),
        !copied ==> copying@ is Error,
{
    assert(outcome is None <==> outcome.deep_view() is None);
}

/// Playback options, tracks, libraries and playlists that could not be had leave an error
/// with the reason.
pub proof fn failed_lists_leave_an_error(
    id: String,
    kind: VideoTrackKind,
    visible: Option<Vec<String>>,
    reason: String,
    options: BrowseResult,
    tracks: BrowseResult,
    libraries: BrowseResult,
    playlists: BrowseResult,
)
    requires
        call_ensures(browse::media_options_result, (id, Err(reason)), options),
        call_ensures(browse::video_tracks_result, (kind, Err(reason)), tracks),
        call_ensures(browse::library_meta_result, (&visible, Err(reason)), libraries),
        call_ensures(browse::playlists_result, (Err(reason),), playlists),
    ensures
        options@ == BrowseResultModel::Error("Couldn't load playback info: "@ + reason@),
        tracks@ == BrowseResultModel::Error("Couldn't load tracks: "@ + reason@),
        libraries@ == BrowseResultModel::Error("Couldn't fetch libraries: "@ + reason@),
        playlists@ == BrowseResultModel::Error("Couldn't fetch playlists: "@ + reason@),
{
}

} // verus!
