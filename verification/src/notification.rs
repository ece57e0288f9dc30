//! Rendering a snapshot into what the notification service is to show.
//!
//! Art is shown by path. The picture is scaled down and stored once under a
//! name derived from its bytes; later renderings of the same art find the
//! file and refer to it without decoding anything. Looking for the file and
//! writing it are the caller's part: it says in a [`CacheProbe`] which
//! directory the cache is and whether the file of the art is there, and
//! writes what it is handed in [`Rendered::store`].

use vstd::prelude::*;
use crate::buffer::contents;
use crate::cache::{image_path, image_path_in};
use crate::imaging::{
    decode, dimensions, encode_jpeg, into_bytes, jpeg_encoded, jpeg_sized, pixel_size,
    resize_gaussian, scaled_into,
};
use crate::mpd::{body_text, summary_text, PlayState, SongInfo};

verus! {

/// How long a notification stays, in milliseconds.
pub const TIMEOUT_MS: u32 = 5000;

/// Neither side of a stored picture is longer than this many pixels.
pub const THUMBNAIL_SIDE: u32 = 128;

/// The quality at which stored pictures are encoded.
pub const JPEG_QUALITY: u8 = 90;

/// The longest side that the notification service takes in an inline
/// picture.
pub const MAX_INLINE_SIDE: i32 = 0x0fff_ffff;

/// Where the art of a snapshot belongs in the cache, and whether a file is
/// there already.
#[derive(Debug, Clone, PartialEq, Eq)]
pub struct CacheSlot {
    pub path: String,
    pub exists: bool,
}

/// What the caller found of a snapshot's art in the cache: the cache
/// directory, and whether the file that the art belongs in is there.
#[derive(Debug, Clone, PartialEq, Eq)]
pub struct CacheProbe {
    pub dir: String,
    pub exists: bool,
}

/// The picture of a notification.
#[derive(Debug, Clone, PartialEq, Eq)]
pub enum Hint {
    /// A picture file.
    ImagePath(String),
    /// The pixels themselves: rows of RGB triples, one byte per channel.
    ImageData { width: i32, height: i32, data: Vec<u8> },
}

/// What is handed to the notification service.
#[derive(Debug, Clone, PartialEq, Eq)]
pub struct NotificationPayload {
    pub summary: String,
    /// May be empty.
    pub body: String,
    pub timeout_ms: u32,
    pub hint: Option<Hint>,
    /// The notification to replace, if this is an update.
    pub id: Option<u32>,
}

/// The picture for a notification, and what is to be written for it.
#[derive(Debug, Clone, PartialEq, Eq)]
pub struct ArtRender {
    pub hint: Hint,
    /// The file to write at the hint's path before the notification is
    /// shown, if the cache did not hold it.
    pub store: Option<Vec<u8>>,
}

/// A rendered snapshot.
#[derive(Debug, Clone, PartialEq, Eq)]
pub struct Rendered {
    pub payload: NotificationPayload,
    /// The file to write at the path of the payload's hint before the
    /// notification is shown, if the cache did not hold it.
    pub store: Option<Vec<u8>>,
}

/// Why art could not be rendered.
#[derive(Debug)]
pub enum RenderError {
    /// The art is no picture that can be decoded.
    Decode(image::ImageError),
    /// The scaled picture could not be encoded.
    Encode(image::ImageError),
    /// The picture is too large to be sent inline.
    InlineTooBig,
    /// The picture's samples are not RGB triples of one byte per channel.
    InlineWrongDataSize,
}

/// The kinds of failure.
pub enum RenderFailure {
    Decode,
    Encode,
    InlineTooBig,
    InlineWrongDataSize,
}

/// A cache slot, as the contracts see it.
pub struct SlotView {
    pub path: Seq<char>,
    pub exists: bool,
}

/// A picture hint, as the contracts see it.
pub enum HintView {
    ImagePath(Seq<char>),
    ImageData { width: int, height: int, data: Seq<u8> },
}

/// Rendered art, as the contracts see it.
pub struct ArtRenderView {
    pub hint: HintView,
    pub store: Option<Seq<u8>>,
}

impl View for CacheSlot {
    type V = SlotView;

    open spec fn view(&self) -> SlotView {
        SlotView { path: self.path@, exists: self.exists }
    }
}

impl View for Hint {
    type V = HintView;

    open spec fn view(&self) -> HintView {
        match *self {
            Hint::ImagePath(path) => HintView::ImagePath(path@),
            Hint::ImageData { width, height, data } => HintView::ImageData {
                width: width as int,
                height: height as int,
                data: data@,
            },
        }
    }
}

impl View for ArtRender {
    type V = ArtRenderView;

    open spec fn view(&self) -> ArtRenderView {
        ArtRenderView { hint: self.hint@, store: file_view(self.store) }
    }
}

impl View for RenderError {
    type V = RenderFailure;

    open spec fn view(&self) -> RenderFailure {
        match *self {
            RenderError::Decode(_) => RenderFailure::Decode,
            RenderError::Encode(_) => RenderFailure::Encode,
            RenderError::InlineTooBig => RenderFailure::InlineTooBig,
            RenderError::InlineWrongDataSize => RenderFailure::InlineWrongDataSize,
        }
    }
}

/// The bytes of an optional file.
pub open spec fn file_view(file: Option<Vec<u8>>) -> Option<Seq<u8>> {
    match file {
        Some(bytes) => Some(bytes@),
        None => None,
    }
}

/// An optional cache slot, as the contracts see it.
pub open spec fn slot_view(slot: Option<CacheSlot>) -> Option<SlotView> {
    match slot {
        Some(slot) => Some(slot@),
        None => None,
    }
}

/// The cache slot that a probe speaks of: the one of the art `art` in the
/// probe's directory.
pub open spec fn probed_slot(probe: Option<CacheProbe>, art: Seq<u8>) -> Option<SlotView> {
    match probe {
        Some(probe) => Some(SlotView { path: image_path(probe.dir@, art), exists: probe.exists }),
        None => None,
    }
}

/// The outcome of rendering art, as the contracts see it.
pub open spec fn art_outcome(r: Result<ArtRender, RenderError>) -> Result<
    ArtRenderView,
    RenderFailure,
> {
    match r {
        Ok(render) => Ok(render@),
        Err(e) => Err(e@),
    }
}

/// Whether the cache holds the file of the slot.
pub open spec fn is_hit(slot: Option<SlotView>) -> bool {
    slot matches Some(slot) && slot.exists
}

/// An inline picture of `width` by `height` pixels with the samples
/// `data`: it must not be too large, and `data` must be RGB triples for
/// every pixel.
pub open spec fn inline_art(width: int, height: int, data: Seq<u8>) -> Result<
    ArtRenderView,
    RenderFailure,
> {
    if width > MAX_INLINE_SIDE || height > MAX_INLINE_SIDE {
        Err(RenderFailure::InlineTooBig)
    } else if data.len() != width * height * 3 {
        Err(RenderFailure::InlineWrongDataSize)
    } else {
        Ok(ArtRenderView { hint: HintView::ImageData { width, height, data }, store: None })
    }
}

/// Whether `small` may be `picture` scaled into the square that stored
/// pictures are scaled into: it fills the square along one side at least
/// and keeps the proportions.
pub open spec fn is_thumbnail(picture: image::DynamicImage, small: image::DynamicImage) -> bool {
    scaled_into(pixel_size(picture), pixel_size(small), THUMBNAIL_SIDE, THUMBNAIL_SIDE)
}

/// Whether `outcome` is what the scaled picture `small` may be rendered
/// to. With a place in the cache the picture is encoded as JPEG, to be
/// written there and referred to, which fails for no picture that the
/// format has room for. Without one, its pixels go into the notification,
/// if its samples are RGB triples.
pub open spec fn renders_thumbnail(
    outcome: Result<ArtRenderView, RenderFailure>,
    small: image::DynamicImage,
    slot: Option<SlotView>,
) -> bool {
    match slot {
        Some(slot) => {
            &&& outcome is Ok <==> jpeg_sized(pixel_size(small))
            &&& outcome == match jpeg_encoded(small, JPEG_QUALITY) {
                Some(file) => Ok::<ArtRenderView, RenderFailure>(
                    ArtRenderView { hint: HintView::ImagePath(slot.path), store: Some(file) },
                ),
                None => Err::<ArtRenderView, RenderFailure>(RenderFailure::Encode),
            }
        },
        None => exists|data: Seq<u8>|
            outcome == #[trigger] inline_art(
                pixel_size(small).0 as int,
                pixel_size(small).1 as int,
                data,
            ),
    }
}

/// Whether `outcome` is what the decoded picture `picture` may be rendered
/// to: what some scaling of it into the square is rendered to.
pub open spec fn renders_picture(
    outcome: Result<ArtRenderView, RenderFailure>,
    picture: image::DynamicImage,
    slot: Option<SlotView>,
) -> bool {
    exists|small: image::DynamicImage|
        is_thumbnail(picture, small) && #[trigger] renders_thumbnail(outcome, small, slot)
}

/// Whether `outcome` is what art may be rendered to, given what the cache
/// holds.
///
/// A file that is there is referred to, and the art is not looked at.
/// Otherwise the art either fails to decode, or decodes to a picture that
/// is scaled down and rendered.
pub open spec fn renders_art(
    outcome: Result<ArtRenderView, RenderFailure>,
    slot: Option<SlotView>,
) -> bool {
    if is_hit(slot) {
        outcome == Ok::<ArtRenderView, RenderFailure>(
            ArtRenderView { hint: HintView::ImagePath(slot->0.path), store: None },
        )
    } else {
        ||| outcome == Err::<ArtRenderView, RenderFailure>(RenderFailure::Decode)
        ||| exists|picture: image::DynamicImage| #[trigger] renders_picture(outcome, picture, slot)
    }
}

/// The text below the headline: nothing for a stopped player.
pub open spec fn shown_body(song: SongInfo) -> Seq<char> {
    if song.state == PlayState::Stopped {
        Seq::empty()
    } else {
        body_text(song.title@, song.artist@, song.album@)
    }
}

/// An inline picture from raw samples.
pub fn inline_image(width: u32, height: u32, data: Vec<u8>) -> (r: Result<ArtRender, RenderError>)
    ensures
        art_outcome(r) == inline_art(width as int, height as int, data@),
{
    if width > MAX_INLINE_SIDE as u32 || height > MAX_INLINE_SIDE as u32 {
        return Err(RenderError::InlineTooBig);
    }
    assert(width * height <= 0x0fff_ffff * 0x0fff_ffff) by (nonlinear_arith)
        requires
            width <= 0x0fff_ffff,
            height <= 0x0fff_ffff,
    ;
    let pixels: u64 = width as u64 * height as u64;
    let wanted: u64 = pixels * 3;
    if data.len() as u64 != wanted {
        return Err(RenderError::InlineWrongDataSize);
    }
    Ok(
        ArtRender {
            hint: Hint::ImageData { width: width as i32, height: height as i32, data },
            store: None,
        },
    )
}

/// Renders a scaled picture: as a file for the cache slot, or as inline
/// pixels without one.
pub fn hint_for_thumbnail(small: image::DynamicImage, slot: Option<CacheSlot>) -> (r: Result<
    ArtRender,
    RenderError,
>)
    ensures
        renders_thumbnail(art_outcome(r), small, slot_view(slot)),
{
    match slot {
        Some(slot) => match encode_jpeg(&small, JPEG_QUALITY) {
            Ok(file) => Ok(ArtRender { hint: Hint::ImagePath(slot.path), store: Some(file) }),
            Err(e) => Err(RenderError::Encode(e)),
        },
        None => {
            let (width, height) = dimensions(&small);
            inline_image(width, height, into_bytes(small))
        },
    }
}

/// The picture for a decoded picture that the cache does not hold: scaled
/// down into the square, and then rendered as `hint_for_thumbnail` does.
pub fn thumbnail_hint(picture: &image::DynamicImage, slot: Option<CacheSlot>) -> (r: Result<
    ArtRender,
    RenderError,
>)
    ensures
        renders_picture(art_outcome(r), *picture, slot_view(slot)),
{
    let small = resize_gaussian(picture, THUMBNAIL_SIDE, THUMBNAIL_SIDE);
    hint_for_thumbnail(small, slot)
}

/// The picture for the art `bytes`, given what the cache holds. A file
/// that is there is referred to without a look at the art; otherwise the
/// art is decoded and scaled down.
pub fn image_to_hint(bytes: &bytes::BytesMut, slot: Option<CacheSlot>) -> (r: Result<
    ArtRender,
    RenderError,
>)
    ensures
        renders_art(art_outcome(r), slot_view(slot)),
{
    let slot = match slot {
        Some(slot) => {
            if slot.exists {
                return Ok(ArtRender { hint: Hint::ImagePath(slot.path), store: None });
            }
            Some(slot)
        },
        None => None,
    };
    match decode(bytes) {
        Ok(picture) => thumbnail_hint(&picture, slot),
        Err(e) => Err(RenderError::Decode(e)),
    }
}

/// The picture for the art `bytes`, given what the caller found in the
/// cache: as `image_to_hint`, for the slot that the art has in the probe's
/// directory. A picture that is shown by path lies where its bytes say.
pub fn probed_image_to_hint(bytes: &bytes::BytesMut, probe: Option<CacheProbe>) -> (r: Result<
    ArtRender,
    RenderError,
>)
    ensures
        renders_art(art_outcome(r), probed_slot(probe, contents(*bytes))),
        r is Ok && probe is Some ==> r->Ok_0.hint@ == HintView::ImagePath(
            image_path(probe->0.dir@, contents(*bytes)),
        ),
{
    let slot = match probe {
        Some(probe) => Some(
            CacheSlot { path: image_path_in(probe.dir.as_str(), bytes), exists: probe.exists },
        ),
        None => None,
    };
    let ghost place = slot_view(slot);
    let r = image_to_hint(bytes, slot);
    proof {
        if place is Some && r is Ok {
            lemma_shown_by_slot_path(art_outcome(r), place->0);
        }
    }
    r
}

/// The text of a notification for `song`, without a picture: the headline
/// names the playback state, and the body is empty for a stopped player
/// and holds title, artist and album otherwise. A caller that would rather
/// show text alone than nothing when art fails has it from here.
pub fn render_text(song: &SongInfo) -> (payload: NotificationPayload)
    ensures
        payload.summary@ == summary_text(song.state),
        payload.body@ == shown_body(*song),
        payload.timeout_ms == TIMEOUT_MS,
        payload.hint is None,
        payload.id is None,
{
    let summary = song.summary();
    let body = match song.state {
        PlayState::Stopped => String::new(),
        _ => song.body(),
    };
    NotificationPayload { summary, body, timeout_ms: TIMEOUT_MS, hint: None, id: None }
}

/// Renders a snapshot into a notification of its own: the text of
/// `render_text`, and for a picture the art, where the snapshot has any. If
/// the art cannot be rendered, neither is the snapshot.
pub fn init(song: SongInfo, probe: Option<CacheProbe>) -> (r: Result<Rendered, RenderError>)
    ensures
        match r {
            Ok(rendered) => {
                &&& rendered.payload.summary@ == summary_text(song.state)
                &&& rendered.payload.body@ == shown_body(song)
                &&& rendered.payload.timeout_ms == TIMEOUT_MS
                &&& rendered.payload.id is None
                &&& match song.album_art {
                    Some(art) => {
                        &&& rendered.payload.hint is Some
                        &&& renders_art(
                            Ok(
                                ArtRenderView {
                                    hint: rendered.payload.hint->0@,
                                    store: file_view(rendered.store),
                                },
                            ),
                            probed_slot(probe, contents(art)),
                        )
                    },
                    None => rendered.payload.hint is None && rendered.store is None,
                }
            },
            Err(e) => song.album_art matches Some(art) && renders_art(
                Err(e@),
                probed_slot(probe, contents(art)),
            ),
        },
{
    let text = render_text(&song);
    let (hint, store) = match &song.album_art {
        Some(art) => match probed_image_to_hint(art, probe) {
            Ok(render) => (Some(render.hint), render.store),
            Err(e) => {
                return Err(e);
            },
        },
        None => (None, None),
    };
    let NotificationPayload { summary, body, timeout_ms, hint: _, id } = text;
    Ok(Rendered { payload: NotificationPayload { summary, body, timeout_ms, hint, id }, store })
}

/// Renders a snapshot as the new content of the notification `id`, which
/// is replaced in place.
pub fn update(id: u32, song: SongInfo, probe: Option<CacheProbe>) -> (r: Result<
    Rendered,
    RenderError,
>)
    ensures
        match r {
            Ok(rendered) => {
                &&& rendered.payload.summary@ == summary_text(song.state)
                &&& rendered.payload.body@ == shown_body(song)
                &&& rendered.payload.timeout_ms == TIMEOUT_MS
                &&& rendered.payload.id == Some(id)
                &&& match song.album_art {
                    Some(art) => {
                        &&& rendered.payload.hint is Some
                        &&& renders_art(
                            Ok(
                                ArtRenderView {
                                    hint: rendered.payload.hint->0@,
                                    store: file_view(rendered.store),
                                },
                            ),
                            probed_slot(probe, contents(art)),
                        )
                    },
                    None => rendered.payload.hint is None && rendered.store is None,
                }
            },
            Err(e) => song.album_art matches Some(art) && renders_art(
                Err(e@),
                probed_slot(probe, contents(art)),
            ),
        },
{
    match init(song, probe) {
        Ok(rendered) => {
            let Rendered { payload, store } = rendered;
            let NotificationPayload { summary, body, timeout_ms, hint, id: _ } = payload;
            Ok(
                Rendered {
                    payload: NotificationPayload { summary, body, timeout_ms, hint, id: Some(id) },
                    store,
                },
            )
        },
        Err(e) => Err(e),
    }
}

/// What the cache slot at `path` looks like when the files `files` exist.
pub open spec fn slot_at(files: Set<Seq<char>>, path: Seq<char>) -> SlotView {
    SlotView { path, exists: files.contains(path) }
}

/// The files that exist once the caller has acted on a rendering: what it
/// was handed to store lies at the hinted path.
pub open spec fn files_after(files: Set<Seq<char>>, render: ArtRenderView) -> Set<Seq<char>> {
    match (render.store, render.hint) {
        (Some(_), HintView::ImagePath(path)) => files.insert(path),
        _ => files,
    }
}

/// A file that the cache holds is used as it is: the rendering refers to
/// it and hands nothing to store. The art is neither decoded nor encoded,
/// so art that is no picture renders alike.
pub proof fn lemma_hit_skips_the_work(outcome: Result<ArtRenderView, RenderFailure>, slot: SlotView)
    requires
        slot.exists,
        renders_art(outcome, Some(slot)),
    ensures
        outcome == Ok::<ArtRenderView, RenderFailure>(
            ArtRenderView { hint: HintView::ImagePath(slot.path), store: None },
        ),
{
}

/// With a place in the cache, a picture is shown by the path of that place
/// and by nothing else.
pub proof fn lemma_shown_by_slot_path(outcome: Result<ArtRenderView, RenderFailure>, slot: SlotView)
    requires
        renders_art(outcome, Some(slot)),
        outcome is Ok,
    ensures
        outcome->Ok_0.hint == HintView::ImagePath(slot.path),
{
    if !slot.exists {
        let picture = choose|picture: image::DynamicImage|
            renders_picture(outcome, picture, Some(slot));
        let small = choose|small: image::DynamicImage|
            is_thumbnail(picture, small) && renders_thumbnail(outcome, small, Some(slot));
        assert(renders_thumbnail(outcome, small, Some(slot)));
    }
}

/// Art that decodes and is not in the cache yet is rendered for the cache:
/// the rendering succeeds, refers to the slot's path, and hands over, to be
/// stored there, the JPEG file of a picture of one pixel at least and of
/// `THUMBNAIL_SIDE` at most along either side.
pub proof fn lemma_miss_stores_thumbnail(
    outcome: Result<ArtRenderView, RenderFailure>,
    slot: SlotView,
)
    requires
        !slot.exists,
        renders_art(outcome, Some(slot)),
        outcome != Err::<ArtRenderView, RenderFailure>(RenderFailure::Decode),
    ensures
        outcome is Ok,
        outcome->Ok_0.hint == HintView::ImagePath(slot.path),
        outcome->Ok_0.store is Some,
        exists|small: image::DynamicImage|
            {
                &&& 1 <= pixel_size(small).0 <= THUMBNAIL_SIDE
                &&& 1 <= pixel_size(small).1 <= THUMBNAIL_SIDE
                &&& outcome->Ok_0.store == #[trigger] jpeg_encoded(small, JPEG_QUALITY)
            },
{
    let picture = choose|picture: image::DynamicImage|
        renders_picture(outcome, picture, Some(slot));
    let small = choose|small: image::DynamicImage|
        is_thumbnail(picture, small) && renders_thumbnail(outcome, small, Some(slot));
    assert(jpeg_sized(pixel_size(small)));
    assert(outcome->Ok_0.store == jpeg_encoded(small, JPEG_QUALITY));
}

/// Rendering the same art twice does the work once. Whatever files exist
/// before, once a rendering of art for its path in the cache has succeeded
/// and the caller has stored what it was handed, a second rendering finds
/// the file: it refers to the same path and hands nothing to store, so that
/// nothing is written again.
pub proof fn lemma_second_render_hits(
    art: Seq<u8>,
    dir: Seq<char>,
    files: Set<Seq<char>>,
    first: ArtRenderView,
    second: Result<ArtRenderView, RenderFailure>,
)
    requires
        renders_art(Ok(first), Some(slot_at(files, image_path(dir, art)))),
        renders_art(
            second,
            Some(slot_at(files_after(files, first), image_path(dir, art))),
        ),
    ensures
        first.hint == HintView::ImagePath(image_path(dir, art)),
        first.store is Some <==> !files.contains(image_path(dir, art)),
        second == Ok::<ArtRenderView, RenderFailure>(
            ArtRenderView { hint: HintView::ImagePath(image_path(dir, art)), store: None },
        ),
        files_after(files_after(files, first), second->Ok_0) == files_after(files, first),
{
    let path = image_path(dir, art);
    if !files.contains(path) {
        lemma_miss_stores_thumbnail(Ok(first), slot_at(files, path));
    }
}

} // verus!
