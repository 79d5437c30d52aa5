//! Where album art comes from, and how large it may be before clustering.

use vstd::prelude::*;
use crate::text::{chars_of, string_of};
use image::GenericImageView;
use image::imageops::FilterType;

verus! {

/// Where to read album art from.
#[derive(Debug)]
pub enum ArtSource {
    /// A local file, by path.
    File(String),
    /// A remote resource, by URL.
    Remote(String),
}

/// The prefix of an art URL that names a local file.
pub open spec fn file_prefix() -> Seq<char> {
    seq!['f', 'i', 'l', 'e', ':', '/', '/']
}

/// Where the art at `art_url` is read from: a `file://` URL names the local
/// path after the prefix; any other URL is fetched as it is.
pub fn art_source(art_url: &str) -> (r: ArtSource)
    ensures
        match r {
            ArtSource::File(path) => art_url@.len() >= 7 && art_url@.take(7) == file_prefix()
                && path@ == art_url@.skip(7),
            ArtSource::Remote(url) => !(art_url@.len() >= 7 && art_url@.take(7) == file_prefix())
                && url@ == art_url@,
        },
{
    let v = chars_of(art_url);
    if v.len() >= 7 && v[0] == 'f' && v[1] == 'i' && v[2] == 'l' && v[3] == 'e' && v[4] == ':'
        && v[5] == '/' && v[6] == '/' {
        assert(v@.take(7) =~= file_prefix());
        assert(v@.subrange(7, v@.len() as int) =~= v@.skip(7));
        ArtSource::File(string_of(&v, 7, v.len()))
    } else {
        proof {
            if v@.len() >= 7 && v@.take(7) == file_prefix() {
                assert(v@.take(7)[0] == 'f');
                assert(v@.take(7)[1] == 'i');
                assert(v@.take(7)[2] == 'l');
                assert(v@.take(7)[3] == 'e');
                assert(v@.take(7)[4] == ':');
                assert(v@.take(7)[5] == '/');
                assert(v@.take(7)[6] == '/');
            }
        }
        ArtSource::Remote(String::from_str(art_url))
    }
}

/// The largest side of art that is clustered without downscaling.
pub const MAX_ART_SIDE: u32 = 256;

/// Whether art of this size is downscaled to fit 256 by 256 before
/// clustering: only where both sides exceed 256.
pub fn needs_downscale(width: u32, height: u32) -> (b: bool)
    ensures
        b == (width > MAX_ART_SIDE && height > MAX_ART_SIDE),
{
    width > MAX_ART_SIDE && height > MAX_ART_SIDE
}

#[verifier::external_type_specification]
#[verifier::external_body]
pub struct ExDynamicImage(image::DynamicImage);

/// The filters that art can be resized with, those of
/// `image::imageops::FilterType`.
#[derive(Debug, Clone, Copy)]
pub enum ResizeFilter {
    Nearest,
    Triangle,
    CatmullRom,
    Gaussian,
    Lanczos3,
}

/// Decoded album art: its size and its pixels in RGB, row by row from the
/// top left, beside the bytes it was decoded from, whether it has been
/// resized since, and the decoded image. Only decoding and resizing make one.
#[derive(Debug)]
pub struct Art {
    width: u32,
    height: u32,
    pixels: Vec<[u8; 3]>,
    source: Vec<u8>,
    resized: bool,
    image: image::DynamicImage,
}

impl View for Art {
    type V = (u32, u32, Seq<[u8; 3]>);

    closed spec fn view(&self) -> (u32, u32, Seq<[u8; 3]>) {
        (self.width, self.height, self.pixels@)
    }
}

impl Art {
    /// The bytes the art was decoded from.
    pub closed spec fn source(&self) -> Seq<u8> {
        self.source@
    }

    /// The art is as decoding gave it, not resized since.
    pub closed spec fn is_decoded(&self) -> bool {
        !self.resized
    }

    /// One pixel for each place of the grid.
    pub open spec fn wf(&self) -> bool {
        self@.2.len() == self@.0 as nat * self@.1 as nat
    }

    /// The width in pixels.
    pub fn width(&self) -> (r: u32)
        ensures
            r == self@.0,
    {
        self.width
    }

    /// The height in pixels.
    pub fn height(&self) -> (r: u32)
        ensures
            r == self@.1,
    {
        self.height
    }

    /// The pixels in RGB, row by row from the top left.
    pub fn pixels(&self) -> (r: &Vec<[u8; 3]>)
        ensures
            r@ == self@.2,
    {
        &self.pixels
    }
}

/// The view of what decoding gave, if anything.
pub open spec fn art_option_view(a: Option<Art>) -> Option<(u32, u32, Seq<[u8; 3]>)> {
    match a {
        Some(art) => Some(art@),
        None => None,
    }
}

/// The size and pixels of the image that `image::load_from_memory` decodes
/// from `bytes`, or `None` where it refuses them.
pub uninterp spec fn decoded_art(bytes: Seq<u8>) -> Option<(u32, u32, Seq<[u8; 3]>)>;

/// The width and height that `DynamicImage::resize(side, side, _)` gives an
/// image of `width` by `height`: the private `resize_dimensions` of the
/// `image` crate, which scales both sides by the smaller of `side / width`
/// and `side / height` in `f64` arithmetic, rounds each to the nearest
/// integer and keeps it at least one.
pub uninterp spec fn resized_size(width: u32, height: u32, side: u32) -> (u32, u32);

/// Decodes album art with `image::load_from_memory`, which guesses the format
/// from the bytes, and reads the pixels with `GenericImageView::pixels`,
/// keeping red, green and blue. Claimed: the result is `decoded_art` of the
/// bytes, a function of them alone, and `pixels` yields one pixel per place
/// of the width-by-height grid.
#[verifier::external_body]
fn decode_art(bytes: &[u8]) -> (r: Option<Art>)
    ensures
        art_option_view(r) == decoded_art(bytes@),
        r matches Some(a) ==> a.wf() && a.source() == bytes@ && a.is_decoded(),
{
    let image = image::load_from_memory(bytes).ok()?;
    let (width, height) = image.dimensions();
    let pixels = image.pixels().map(|(_, _, p)| [p.0[0], p.0[1], p.0[2]]).collect();
    Some(Art { width, height, pixels, source: bytes.to_vec(), resized: false, image })
}

/// Resizes art with `DynamicImage::resize(side, side, filter)`,
/// which keeps the aspect ratio and fits the result within `side` by `side`,
/// and reads the pixels as `decode_art` does. Claimed: the size is
/// `resized_size` of the decoded size and `side`, a function of them alone
/// (basic `f64` arithmetic and rounding); where `side` is not zero, each
/// side is between one and `side`, and where the art is not empty either,
/// one of them is `side`; and it has one pixel per place of the grid. Not
/// claimed: which colours come out. The filters weigh pixels with `f32`
/// functions such as `sin`, whose precision Rust does not fix, so the
/// colours are no function of the arguments that can be named.
#[verifier::external_body]
fn resize_art(art: &Art, side: u32, filter: ResizeFilter) -> (r: Art)
    ensures
        (r@.0, r@.1) == resized_size(art@.0, art@.1, side),
        side > 0 ==> 1 <= r@.0 <= side && 1 <= r@.1 <= side,
        side > 0 && art@.0 > 0 && art@.1 > 0 ==> r@.0 == side || r@.1 == side,
        r.wf(),
        r.source() == art.source(),
        !r.is_decoded(),
{
    let filter = match filter {
        ResizeFilter::Nearest => FilterType::Nearest,
        ResizeFilter::Triangle => FilterType::Triangle,
        ResizeFilter::CatmullRom => FilterType::CatmullRom,
        ResizeFilter::Gaussian => FilterType::Gaussian,
        ResizeFilter::Lanczos3 => FilterType::Lanczos3,
    };
    let image = art.image.resize(side, side, filter);
    let (width, height) = image.dimensions();
    let pixels = image.pixels().map(|(_, _, p)| [p.0[0], p.0[1], p.0[2]]).collect();
    Art { width, height, pixels, source: art.source.clone(), resized: true, image }
}

/// Whether art of this size and these pixels is downscaled before
/// clustering.
pub open spec fn art_needs_downscale(d: (u32, u32, Seq<[u8; 3]>)) -> bool {
    d.0 > MAX_ART_SIDE && d.1 > MAX_ART_SIDE
}

/// The size that resizing art of this size to fit `side` by `side` gives.
pub open spec fn size_after_resize(d: (u32, u32, Seq<[u8; 3]>), side: u32) -> (u32, u32) {
    resized_size(d.0, d.1, side)
}

/// Art of this size has both sides within 256 and one side exactly 256.
pub open spec fn fits_art_side(d: (u32, u32, Seq<[u8; 3]>)) -> bool {
    &&& 1 <= d.0 <= MAX_ART_SIDE
    &&& 1 <= d.1 <= MAX_ART_SIDE
    &&& (d.0 == MAX_ART_SIDE || d.1 == MAX_ART_SIDE)
}

/// Art as it is clustered: where both sides exceed 256, resized with the
/// Lanczos filter to fit 256 by 256; as it is otherwise.
pub fn fit_art(art: Art) -> (r: Art)
    requires
        art.wf(),
    ensures
        r.wf(),
        r.source() == art.source(),
        art_needs_downscale(art@) ==> (r@.0, r@.1) == size_after_resize(art@, MAX_ART_SIDE)
            && fits_art_side(r@),
        art_needs_downscale(art@) ==> !r.is_decoded(),
        !art_needs_downscale(art@) ==> r@ == art@ && r.is_decoded() == art.is_decoded(),
{
    if needs_downscale(art.width(), art.height()) {
        resize_art(&art, MAX_ART_SIDE, ResizeFilter::Lanczos3)
    } else {
        art
    }
}

/// The art to cluster from fetched bytes: none from no bytes or from bytes
/// that do not decode, else the decoded art, fitted as `fit_art` does.
pub fn prepare_art(bytes: &[u8]) -> (r: Option<Art>)
    ensures
        bytes@.len() == 0 ==> r is None,
        bytes@.len() > 0 ==> (r is Some <==> decoded_art(bytes@) is Some),
        r matches Some(a) ==> a.wf() && a.source() == bytes@,
        r matches Some(a) ==> (if art_needs_downscale(decoded_art(bytes@)->0) {
            (a@.0, a@.1) == size_after_resize(decoded_art(bytes@)->0, MAX_ART_SIDE)
                && fits_art_side(a@) && !a.is_decoded()
        } else {
            a@ == decoded_art(bytes@)->0 && a.is_decoded()
        }),
{
    if bytes.len() == 0 {
        return None;
    }
    match decode_art(bytes) {
        Some(art) => Some(fit_art(art)),
        None => None,
    }
}

} // verus!
