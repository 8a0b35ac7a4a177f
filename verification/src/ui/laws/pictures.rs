//! Covers: when they are downloaded, and what becomes of them.

use vstd::prelude::*;

use crate::sequences;
use crate::ui::images;
use crate::ui::images::{CoverState, Covers, DecodedCover, Picture, Rgb};

verus! {

/// A cover is asked for where there is an id and something is still missing: the image,
/// where images can be drawn, or the color.
pub proof fn missing_covers_are_asked_for(covers: &mut Covers, id: &str, start: bool)
    requires
        call_ensures(Covers::request, (covers, id), start),
    ensures
        ({
            let before = old(covers)@;
            let after = final(covers)@;
            let image = before.can_draw && !before.cache.dom().contains(id@);
            let color = !before.colors.dom().contains(id@) && !before.color_pending.dom().contains(
                id@,
            ) && !before.colorless.dom().contains(id@);
            &&& start <==> id@.len() > 0 && (image || color)
            &&& !start ==> after == before
            &&& start && image ==> after.cache == before.cache.insert(id@, CoverState::Loading)
            &&& !image ==> after.cache == before.cache
            &&& start && color ==> after.color_pending.dom().contains(id@)
            &&& after.colors == before.colors
            &&& after.colorless == before.colorless
            &&& after.can_draw == before.can_draw
        }),
{
}

/// A finished download is drawn where it held a picture, tints where it had a color, and
/// touches no other cover.
pub proof fn finished_covers_are_ready_or_failed(
    covers: &mut Covers,
    id: String,
    decoded: bool,
    color: Option<Rgb>,
    other: Seq<char>,
)
    requires
        call_ensures(Covers::finish, (covers, id, decoded, color), ()),
    ensures
        ({
            let before = old(covers)@;
            let after = final(covers)@;
            &&& before.can_draw && decoded ==> after.cache.dom().contains(id@) && after.cache[id@]
                == CoverState::Ready
            &&& before.can_draw && !decoded ==> after.cache.dom().contains(id@) && after.cache[id@]
                == CoverState::Failed
            &&& !before.can_draw ==> after.cache == before.cache
            &&& color matches Some(known) ==> after.colors.dom().contains(id@) && after.colors[id@]
                == known && after.colorless == before.colorless
            &&& color is None ==> after.colors == before.colors && after.colorless.dom().contains(
                id@,
            )
            &&& !after.color_pending.dom().contains(id@)
            &&& other != id@ ==> {
                &&& after.cache.dom().contains(other) == before.cache.dom().contains(other)
                &&& before.cache.dom().contains(other) ==> after.cache[other]
                    == before.cache[other]
                &&& after.colors.dom().contains(other) == before.colors.dom().contains(other)
                &&& before.colors.dom().contains(other) ==> after.colors[other]
                    == before.colors[other]
            }
            &&& after.can_draw == before.can_draw
        }),
{
}

/// A color is that of the item's own cover.
pub proof fn colors_belong_to_their_cover(covers: Covers, id: &str, color: Option<Rgb>)
    requires
        call_ensures(Covers::color_for, (&covers, id), color),
    ensures
        covers.colors@.dom().contains(id@) ==> color == Some(covers.colors@[id@]),
        !covers.colors@.dom().contains(id@) ==> color is None,
{
    assert(covers@.colors == covers.colors@);
}

/// A cover is drawn once it is ready and where there is room for it.
pub proof fn ready_covers_are_drawn(
    covers: Covers,
    id: &str,
    width: u16,
    height: u16,
    drawable: bool,
)
    requires
        call_ensures(Covers::is_drawable, (&covers, id, width, height), drawable),
    ensures
        drawable <==> width > 0 && height > 0 && covers.cache@.dom().contains(id@)
            && covers.cache@[id@] == CoverState::Ready,
{
    assert(covers@.cache == covers.cache@);
}

/// A new cover store knows no cover, and whether images can be drawn.
pub proof fn a_new_store_is_empty(can_draw: bool, covers: Covers, available: bool, id: Seq<char>)
    requires
        call_ensures(Covers::new, (can_draw,), covers),
        call_ensures(Covers::is_available, (&covers,), available),
    ensures
        available == can_draw,
        !covers@.cache.dom().contains(id),
        !covers@.colors.dom().contains(id),
        id.len() > 0 ==> covers@.worth_asking(id),
{
}

/// A cache file is named by the letters, digits and hyphens of the id, in order.
pub proof fn cache_files_are_named_by_the_id(id: Seq<char>, c: char)
    ensures
        ({
            let safe = ('a' <= c <= 'z') || ('A' <= c <= 'Z') || ('0' <= c <= '9') || c == '-';
            &&& safe ==> id.push(c).filter(images::is_safe()) == id.filter(images::is_safe()).push(
                c,
            )
            &&& !safe ==> id.push(c).filter(images::is_safe()) == id.filter(images::is_safe())
            &&& Seq::<char>::empty().filter(images::is_safe()).len() == 0
        }),
{
    sequences::lemma_filter_push(id, c, images::is_safe());
    sequences::lemma_filter_empty(images::is_safe());
}

/// A cache file's name is what the id leaves, and there is none where it leaves nothing.
pub proof fn cache_names_come_from_the_id(id: &str, name: Option<String>)
    requires
        call_ensures(images::cache_name, (id,), name),
    ensures
        name matches Some(file) ==> file@ == id@.filter(images::is_safe()) && file@.len() > 0,
        name is None <==> id@.filter(images::is_safe()).len() == 0,
{
}

/// A downloaded cover holds the picture that is in its bytes; a JPEG file is handed back
/// untouched.
pub proof fn covers_hold_the_picture_in_their_bytes(
    bytes: Vec<u8>,
    cover: Result<DecodedCover, Vec<u8>>,
    gone: DecodedCover,
)
    requires
        call_ensures(DecodedCover::decode, (bytes,), cover),
        call_ensures(DecodedCover::missing, (), gone),
    ensures
        ({
            let jpeg = bytes@.len() >= 3 && bytes@[0] == 0xff && bytes@[1] == 0xd8 && bytes@[2]
                == 0xff;
            &&& cover is Err <==> jpeg
            &&& cover matches Err(file) ==> file@ == bytes@
            &&& cover matches Ok(held) ==> {
                &&& held.bytes() == Some(bytes@)
                &&& held.picture() is Some <==> images::decoded_picture(bytes@) is Some
                &&& held.picture() matches Some(picture) ==> images::decoded_picture(bytes@)
                    == Some((picture.width, picture.height, picture.pixels))
            }
            &&& gone.picture() is None
            &&& gone.bytes() is None
        }),
{
}

/// A finished cover is ready where there is a picture in it, and hands that picture out.
pub proof fn finished_covers_hand_their_picture_out(
    covers: &mut Covers,
    id: String,
    cover: DecodedCover,
    color: Option<Rgb>,
    picture: Option<Picture>,
)
    requires
        call_ensures(Covers::finish_cover, (covers, id, cover, color), picture),
        old(covers)@.can_draw,
    ensures
        picture.deep_view() == cover.picture(),
        cover.picture() is Some ==> final(covers)@.cache[id@] == CoverState::Ready,
        cover.picture() is None ==> final(covers)@.cache[id@] == CoverState::Failed,
        final(covers)@.cache.dom().contains(id@),
{
}

} // verus!
