//! Inline covers/posters: which images are fetched, where their bytes are cached on
//! disk, what picture they hold, and what is known of each.
//!
//! Everything degrades gracefully: with no graphics support image areas simply stay
//! empty, but covers are still fetched for their dominant color.

use vstd::prelude::*;
use vstd::string::*;

use super::app::state;
use crate::sequences;
use crate::string_map::StringMap;
use crate::text::chars_of;

verus! {

/// Width we request from the server; covers/posters are small, and the protocol
/// resizes to the cell area on render anyway.
pub const REQUEST_MAX_WIDTH: u32 = 500;

/// What became of a cover.
#[derive(Debug, Clone, Copy, PartialEq, Eq, Structural)]
pub enum CoverState {
    Loading,
    Ready,
    Failed,
}

impl DeepView for CoverState {
    type V = CoverState;

    open spec fn deep_view(&self) -> CoverState {
        *self
    }
}

/// A color by its three channels.
#[derive(Debug, Clone, Copy, PartialEq, Eq, Structural)]
pub struct Rgb {
    pub r: u8,
    pub g: u8,
    pub b: u8,
}

impl DeepView for Rgb {
    type V = Rgb;

    open spec fn deep_view(&self) -> Rgb {
        *self
    }
}

/// A picture: rows of pixels from top to bottom, four bytes (red, green, blue, alpha)
/// for each pixel.
#[derive(Debug)]
pub struct Picture {
    pub width: u32,
    pub height: u32,
    pub pixels: Vec<u8>,
}

/// The contents of a [`Picture`].
#[verifier::ext_equal]
pub struct PictureModel {
    pub width: u32,
    pub height: u32,
    pub pixels: Seq<u8>,
}

impl View for Picture {
    type V = PictureModel;

    open spec fn view(&self) -> PictureModel {
        PictureModel { width: self.width, height: self.height, pixels: self.pixels@ }
    }
}

impl DeepView for Picture {
    type V = PictureModel;

    open spec fn deep_view(&self) -> PictureModel {
        self@
    }
}

/// Whether bytes begin like a JPEG file.
pub open spec fn is_jpeg(bytes: Seq<u8>) -> bool {
    bytes.len() >= 3 && bytes[0] == 0xff && bytes[1] == 0xd8 && bytes[2] == 0xff
}

/// The picture that the bytes of an image file hold: width, height, pixels.
pub uninterp spec fn decoded_picture(bytes: Seq<u8>) -> Option<(u32, u32, Seq<u8>)>;

/// `image`'s `load_from_memory` and `DynamicImage::to_rgba8`, built for PNG and JPEG
/// files, in a program that registers no image formats of its own: a function of the
/// bytes alone, which gives four bytes for each pixel, or nothing where the bytes are
/// no image that it can decode. What picture an image file holds is left to it.
///
/// JPEG files are left out: its decoder for them panics on some malformed ones, such
/// as one whose first component is sampled less than another and comes in a scan of
/// its own, and no short test on the bytes tells those from the others.
#[verifier::external_body]
fn decode_picture(bytes: &Vec<u8>) -> (picture: Option<(u32, u32, Vec<u8>)>)
    requires
        !is_jpeg(bytes@),
    ensures
        picture.deep_view() == decoded_picture(bytes@),
        picture matches Some(p) ==> p.2@.len() == 4 * p.0 * p.1,
{
    let decoded = image::load_from_memory(bytes.as_slice()).ok()?.to_rgba8();
    Some((decoded.width(), decoded.height(), decoded.into_raw()))
}

/// A picture by its width, height and pixels.
pub open spec fn picture_of(parts: Option<(u32, u32, Seq<u8>)>) -> Option<PictureModel> {
    match parts {
        Some((width, height, pixels)) => Some(PictureModel { width, height, pixels }),
        None => None,
    }
}

/// A downloaded cover and the picture in it, if there is one.
pub struct DecodedCover {
    bytes: Ghost<Option<Seq<u8>>>,
    picture: Option<Picture>,
}

impl DecodedCover {
    /// No picture comes from nowhere, and the one in a file is what the file holds.
    #[verifier::type_invariant]
    spec fn from_the_bytes(self) -> bool {
        match self.bytes@ {
            Some(bytes) => !is_jpeg(bytes) ==> self.picture.deep_view() == picture_of(
                decoded_picture(bytes),
            ),
            None => self.picture is None,
        }
    }

    /// The downloaded bytes; `None` if the download failed.
    pub closed spec fn bytes(self) -> Option<Seq<u8>> {
        self.bytes@
    }

    /// The picture in them.
    pub closed spec fn picture(self) -> Option<PictureModel> {
        self.picture.deep_view()
    }

    /// A cover that could not be had.
    pub fn missing() -> (cover: DecodedCover)
        ensures
            cover.bytes() is None,
            cover.picture() is None,
    {
        DecodedCover { bytes: Ghost(None), picture: None }
    }

    /// Decode a downloaded cover. A JPEG file is handed back as it is.
    pub fn decode(bytes: Vec<u8>) -> (cover: Result<DecodedCover, Vec<u8>>)
        ensures
            match cover {
                Ok(cover) => {
                    &&& !is_jpeg(bytes@)
                    &&& cover.bytes() == Some(bytes@)
                    &&& cover.picture() == picture_of(decoded_picture(bytes@))
                    &&& cover.picture() matches Some(p) ==> p.pixels.len() == 4 * p.width
                        * p.height
                },
                Err(jpeg) => is_jpeg(bytes@) && jpeg@ == bytes@,
            },
    {
        if bytes.len() >= 3 && bytes[0] == 0xff && bytes[1] == 0xd8 && bytes[2] == 0xff {
            return Err(bytes);
        }
        let picture = match decode_picture(&bytes) {
            Some((width, height, pixels)) => {
                assert(pixels.deep_view() =~= pixels@);
                Some(Picture { width, height, pixels })
            },
            None => None,
        };
        Ok(DecodedCover { bytes: Ghost(Some(bytes@)), picture })
    }

    /// A downloaded JPEG file and the picture that was found in it.
    pub fn of_jpeg(bytes: &Vec<u8>, picture: Option<Picture>) -> (cover: DecodedCover)
        requires
            is_jpeg(bytes@),
        ensures
            cover.bytes() == Some(bytes@),
            cover.picture() == picture.deep_view(),
    {
        DecodedCover { bytes: Ghost(Some(bytes@)), picture }
    }

    /// The picture, to look at its colors.
    pub fn as_picture(&self) -> (picture: Option<&Picture>)
        ensures
            picture.deep_view() == self.picture(),
    {
        self.picture.as_ref()
    }
}

/// The covers that were asked for.
#[derive(Debug)]
pub struct Covers {
    /// Whether the terminal can draw images at all.
    pub can_draw: bool,
    /// What became of each cover; only kept where images can be drawn.
    pub cache: StringMap<CoverState>,
    /// Dominant vibrant color extracted from each cover, used to tint the UI to match
    /// the now-playing track.
    pub colors: StringMap<Rgb>,
    /// Item ids whose color request is in flight.
    pub color_pending: StringMap<bool>,
    /// Item ids whose download brought no color, so that it isn't tried every frame.
    pub colorless: StringMap<bool>,
}

/// The contents of a [`Covers`].
#[verifier::ext_equal]
pub struct CoversModel {
    pub can_draw: bool,
    pub cache: Map<Seq<char>, CoverState>,
    pub colors: Map<Seq<char>, Rgb>,
    pub color_pending: Map<Seq<char>, bool>,
    pub colorless: Map<Seq<char>, bool>,
}

impl View for Covers {
    type V = CoversModel;

    open spec fn view(&self) -> CoversModel {
        CoversModel {
            can_draw: self.can_draw,
            cache: self.cache@,
            colors: self.colors@,
            color_pending: self.color_pending@,
            colorless: self.colorless@,
        }
    }
}

impl CoversModel {
    /// Nothing asked for yet.
    pub open spec fn fresh(can_draw: bool) -> CoversModel {
        CoversModel {
            can_draw,
            cache: Map::empty(),
            colors: Map::empty(),
            color_pending: Map::empty(),
            colorless: Map::empty(),
        }
    }

    /// Whether the image itself is still to be fetched.
    pub open spec fn needs_render(self, id: Seq<char>) -> bool {
        self.can_draw && !self.cache.dom().contains(id)
    }

    /// Whether the color is still to be extracted.
    pub open spec fn needs_color(self, id: Seq<char>) -> bool {
        !self.colors.dom().contains(id) && !self.color_pending.dom().contains(id)
            && !self.colorless.dom().contains(id)
    }

    /// Whether a cover is worth a request.
    pub open spec fn worth_asking(self, id: Seq<char>) -> bool {
        id.len() > 0 && (self.needs_render(id) || self.needs_color(id))
    }

    /// After a cover was asked for.
    pub open spec fn asked(self, id: Seq<char>) -> CoversModel {
        if self.worth_asking(id) {
            CoversModel {
                cache: if self.needs_render(id) {
                    self.cache.insert(id, CoverState::Loading)
                } else {
                    self.cache
                },
                color_pending: if self.needs_color(id) {
                    self.color_pending.insert(id, true)
                } else {
                    self.color_pending
                },
                ..self
            }
        } else {
            self
        }
    }

    /// After a download finished, with or without an image and a color.
    pub open spec fn finished(self, id: Seq<char>, decoded: bool, color: Option<Rgb>) -> CoversModel {
        CoversModel {
            color_pending: self.color_pending.remove(id),
            colors: match color {
                Some(known) => self.colors.insert(id, known),
                None => self.colors,
            },
            colorless: match color {
                Some(_) => self.colorless,
                None => self.colorless.insert(id, true),
            },
            cache: if self.can_draw {
                self.cache.insert(
                    id,
                    if decoded {
                        CoverState::Ready
                    } else {
                        CoverState::Failed
                    },
                )
            } else {
                self.cache
            },
            ..self
        }
    }

    /// Whether a cover can be drawn into an area.
    pub open spec fn drawable(self, id: Seq<char>, width: u16, height: u16) -> bool {
        width > 0 && height > 0 && state::lookup(self.cache, id) == Some(CoverState::Ready)
    }
}

impl Covers {
    /// No covers yet.
    pub fn new(can_draw: bool) -> (covers: Covers)
        ensures
            covers@ == CoversModel::fresh(can_draw),
    {
        Covers {
            can_draw,
            cache: StringMap::new(),
            colors: StringMap::new(),
            color_pending: StringMap::new(),
            colorless: StringMap::new(),
        }
    }

    /// Whether the terminal can draw images.
    pub fn is_available(&self) -> (available: bool)
        ensures
            available == self@.can_draw,
    {
        self.can_draw
    }

    /// Ensure the primary image for `item_id` is being fetched (no-op if already
    /// requested, ready, or failed). Cheap to call every frame. Even with no
    /// terminal graphics support the fetch still runs so the dominant-color
    /// extraction (used to tint the UI by the current cover) can populate. Returns
    /// whether to start a download.
    pub fn request(&mut self, item_id: &str) -> (start: bool)
        ensures
            start == old(self)@.worth_asking(item_id@),
            final(self)@ == old(self)@.asked(item_id@),
    {
        if item_id.is_empty() {
            return false;
        }
        let needs_render = self.can_draw && self.cache.get(item_id).is_none();
        let needs_color = self.colors.get(item_id).is_none() && self.color_pending.get(
            item_id,
        ).is_none() && self.colorless.get(item_id).is_none();
        if !needs_render && !needs_color {
            return false;
        }
        if needs_render {
            self.cache.insert(item_id.to_owned(), CoverState::Loading);
        }
        if needs_color {
            self.color_pending.insert(item_id.to_owned(), true);
        }
        true
    }

    /// Take a finished download in, and the extracted color with it.
    pub fn finish(&mut self, id: String, decoded: bool, color: Option<Rgb>)
        ensures
            final(self)@ == old(self)@.finished(id@, decoded, color),
    {
        self.color_pending.remove(id.as_str());
        match color {
            Some(known) => {
                self.colors.insert(id.clone(), known);
            },
            None => {
                self.colorless.insert(id.clone(), true);
            },
        }
        if self.can_draw {
            let entry = if decoded {
                CoverState::Ready
            } else {
                CoverState::Failed
            };
            self.cache.insert(id, entry);
        }
    }

    /// Take a downloaded cover in, and the extracted color with it. The cover is ready
    /// if there is a picture in its bytes. Hands the picture out to be drawn.
    pub fn finish_cover(&mut self, id: String, cover: DecodedCover, color: Option<Rgb>) -> (picture:
        Option<Picture>)
        ensures
            final(self)@ == old(self)@.finished(id@, cover.picture() is Some, color),
            match cover.bytes() {
                Some(bytes) => !is_jpeg(bytes) ==> final(self)@ == old(self)@.finished(
                    id@,
                    decoded_picture(bytes) is Some,
                    color,
                ),
                None => final(self)@ == old(self)@.finished(id@, false, color),
            },
            picture.deep_view() == cover.picture(),
    {
        proof {
            use_type_invariant(&cover);
        }
        self.finish(id, cover.picture.is_some(), color);
        cover.picture
    }

    /// Dominant vibrant color extracted from `item_id`'s cover, if it has
    /// landed yet.
    pub fn color_for(&self, item_id: &str) -> (color: Option<Rgb>)
        ensures
            color == state::lookup(self@.colors, item_id@),
    {
        match self.colors.get(item_id) {
            Some(color) => Some(*color),
            None => None,
        }
    }

    /// Whether the cover for `item_id` can be drawn into an area of the given size.
    pub fn is_drawable(&self, item_id: &str, width: u16, height: u16) -> (drawable: bool)
        ensures
            drawable == self@.drawable(item_id@, width, height),
    {
        if width == 0 || height == 0 {
            return false;
        }
        match self.cache.get(item_id) {
            Some(entry) => *entry == CoverState::Ready,
            None => false,
        }
    }
}

/// Whether a character may stand in a cache file's name.
pub open spec fn is_safe() -> spec_fn(char) -> bool {
    |c: char|
        ('a' <= c && c <= 'z') || ('A' <= c && c <= 'Z') || ('0' <= c && c <= '9') || c == '-'
}

fn safe_char(c: char) -> (safe: bool)
    ensures
        safe == is_safe()(c),
{
    ('a' <= c && c <= 'z') || ('A' <= c && c <= 'Z') || ('0' <= c && c <= '9') || c == '-'
}

/// The file below the image cache that holds the raw downloaded bytes of an item's
/// cover: its id, of which only letters, digits and hyphens are kept. `None` if that
/// leaves nothing.
pub fn cache_name(item_id: &str) -> (name: Option<String>)
    ensures
        match name {
            Some(file) => file@ == item_id@.filter(is_safe()) && file@.len() > 0,
            None => item_id@.filter(is_safe()).len() == 0,
        },
{
    let ghost p = is_safe();
    let chars = chars_of(item_id);
    let mut name = String::new();
    proof {
        sequences::lemma_filter_empty(p);
        assert(chars@.take(0) =~= Seq::empty());
        assert(name@ =~= chars@.take(0).filter(p));
    }
    let mut i: usize = 0;
    while i < chars.len()
        invariant
            i <= chars@.len(),
            p == is_safe(),
            name@ == chars@.take(i as int).filter(p),
        decreases chars@.len() - i,
    {
        proof {
            sequences::lemma_take_push(chars@, i as int);
            sequences::lemma_filter_push(chars@.take(i as int), chars@[i as int], p);
        }
        if safe_char(chars[i]) {
            name.push(chars[i]);
        }
        i = i + 1;
    }
    proof {
        sequences::lemma_take_all(chars@);
    }
    if name.as_str().is_empty() {
        None
    } else {
        Some(name)
    }
}

/// Asking for a cover twice in a row downloads it once.
pub proof fn the_same_cover_is_downloaded_once(covers: CoversModel, id: Seq<char>)
    ensures
        !covers.asked(id).worth_asking(id),
{
}

/// A cover whose download has finished is not downloaded again, whether or not it
/// brought an image or a color.
pub proof fn finished_covers_stay(
    covers: CoversModel,
    id: Seq<char>,
    decoded: bool,
    color: Option<Rgb>,
)
    ensures
        !covers.finished(id, decoded, color).worth_asking(id),
        covers.finished(id, decoded, color).asked(id) == covers.finished(id, decoded, color),
{
}

/// A cache file's name cannot leave the cache directory: it holds neither a path
/// separator nor a dot.
pub proof fn cache_names_stay_in_the_directory(item_id: Seq<char>, i: int)
    requires
        0 <= i < item_id.filter(is_safe()).len(),
    ensures
        item_id.filter(is_safe())[i] != '/',
        item_id.filter(is_safe())[i] != '\\',
        item_id.filter(is_safe())[i] != '.',
{
    item_id.lemma_filter_pred(is_safe(), i);
}

} // verus!
