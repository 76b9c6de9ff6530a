//! The cover art of a track: where it is taken from and how large it may be.

use vstd::prelude::*;
use vstd::string::*;
use image::imageops::FilterType;
use image::{DynamicImage, ImageFormat};
use crate::error::ConvertError;
use crate::paths::{parent_directory, parent_of};
use crate::text::texts;

verus! {

/// `image::DynamicImage`: a decoded picture.
#[verifier::external_type_specification]
#[verifier::external_body]
pub struct ExDynamicImage(DynamicImage);

/// `image::imageops::FilterType`: the filters by which a picture is
/// resampled, by their variants.
#[verifier::external_type_specification]
pub struct ExFilterType(FilterType);

/// `image::ImageFormat`: the formats of image files, by their variants.
#[verifier::external_type_specification]
pub struct ExImageFormat(ImageFormat);

/// The greatest width and the greatest height of a cover, in pixels.
pub const MAX_ART_SIDE: u32 = 500;

/// The width and height of the picture that an image file decodes to;
/// `None` where the bytes cannot be decoded as an image.
pub uninterp spec fn decoded_size(bytes: Seq<u8>) -> Option<(u32, u32)>;

/// Decodes an image file with `image::guess_format` and
/// `image::load_from_memory_with_format`, and measures the picture with
/// `DynamicImage::width` and `height`. The format is told from the first
/// bytes alone; the whole file is decoded, so a file that is damaged
/// anywhere gives no picture. The size that comes with the picture is the
/// decoded size of the bytes.
#[verifier::external_body]
fn decode_image(bytes: &[u8]) -> (decoded: Option<(DynamicImage, (u32, u32))>)
    ensures
        match decoded {
            Some((_, size)) => decoded_size(bytes@) == Some(size),
            None => decoded_size(bytes@) is None,
        },
{
    let format = image::guess_format(bytes).ok()?;
    let picture = image::load_from_memory_with_format(bytes, format).ok()?;
    let size = (picture.width(), picture.height());
    Some((picture, size))
}

/// `DynamicImage::resize`: the picture scaled with the given filter to the
/// greatest size that fits in `max_width` by `max_height` and keeps its
/// shape. Nothing is claimed of the picture that comes out: the filters
/// compute in floating point.
#[verifier::external_body]
fn resize_image(picture: &DynamicImage, max_width: u32, max_height: u32, filter: FilterType) -> (resized:
    DynamicImage)
{
    picture.resize(max_width, max_height, filter)
}

/// `DynamicImage::write_to`: the picture as an image file of the given
/// format, or `None` where it cannot be encoded.
#[verifier::external_body]
fn encode_image(picture: &DynamicImage, format: ImageFormat) -> (file: Option<Vec<u8>>)
{
    let mut out = std::io::Cursor::new(Vec::new());
    picture.write_to(&mut out, format).ok()?;
    Some(out.into_inner())
}

/// What is done with a picture that is to be a cover.
#[derive(Clone, Copy, PartialEq, Eq, Debug, Structural)]
pub enum ArtPlan {
    /// It fits: the file is taken as it is, bytes and format.
    Keep,
    /// It is too wide or too high: it is scaled down and written as JPEG.
    Shrink,
    /// It is no picture: the conversion fails.
    Reject,
}

/// Whether a picture of this size fits a cover.
pub open spec fn fits_cover(size: (u32, u32)) -> bool {
    size.0 <= MAX_ART_SIDE && size.1 <= MAX_ART_SIDE
}

/// What is done with an image file whose picture has this size.
pub open spec fn art_plan_of(size: Option<(u32, u32)>) -> ArtPlan {
    match size {
        None => ArtPlan::Reject,
        Some(s) => if fits_cover(s) {
            ArtPlan::Keep
        } else {
            ArtPlan::Shrink
        },
    }
}

/// Decides what is done with an image file, given the size of its picture.
pub fn plan_cover_art(size: Option<(u32, u32)>) -> (plan: ArtPlan)
    ensures
        plan == art_plan_of(size),
{
    match size {
        None => ArtPlan::Reject,
        Some((width, height)) => {
            if width > MAX_ART_SIDE || height > MAX_ART_SIDE {
                ArtPlan::Shrink
            } else {
                ArtPlan::Keep
            }
        },
    }
}

/// What is asked when a cover is scaled down: the sides that it has to fit
/// in, the filter by which it is resampled and the format in which it is
/// written.
pub struct CoverRequest {
    pub max_width: u32,
    pub max_height: u32,
    pub filter: FilterType,
    pub format: ImageFormat,
}

/// The request for every cover: 500 by 500 pixels, the Gaussian filter,
/// JPEG.
pub open spec fn cover_request_of() -> CoverRequest {
    CoverRequest {
        max_width: MAX_ART_SIDE,
        max_height: MAX_ART_SIDE,
        filter: FilterType::Gaussian,
        format: ImageFormat::Jpeg,
    }
}

/// The request with which a cover that is too large is scaled down.
pub fn cover_request() -> (request: CoverRequest)
    ensures
        request == cover_request_of(),
{
    CoverRequest {
        max_width: MAX_ART_SIDE,
        max_height: MAX_ART_SIDE,
        filter: FilterType::Gaussian,
        format: ImageFormat::Jpeg,
    }
}

/// The bytes that every JPEG file starts with.
pub open spec fn jpeg_signature() -> Seq<u8> {
    seq![0xFFu8, 0xD8u8, 0xFFu8]
}

/// Whether bytes start as a JPEG file does.
pub open spec fn is_jpeg_file(bytes: Seq<u8>) -> bool {
    bytes.len() >= 3 && bytes.subrange(0, 3) == jpeg_signature()
}

/// Whether bytes start as a JPEG file does.
pub fn starts_as_jpeg(bytes: &Vec<u8>) -> (jpeg: bool)
    ensures
        jpeg == is_jpeg_file(bytes@),
{
    if bytes.len() < 3 {
        return false;
    }
    let jpeg = bytes[0] == 0xFF && bytes[1] == 0xD8 && bytes[2] == 0xFF;
    proof {
        if jpeg {
            assert(bytes@.subrange(0, 3) =~= jpeg_signature());
        } else {
            assert(bytes@.subrange(0, 3)[0] == bytes@[0]);
            assert(bytes@.subrange(0, 3)[1] == bytes@[1]);
            assert(bytes@.subrange(0, 3)[2] == bytes@[2]);
        }
    }
    jpeg
}

/// Whether a file that scaling down wrote, whose picture has this size, is
/// taken as a cover: it has to be a JPEG file whose picture fits.
pub open spec fn accepts_shrunk(written: Seq<u8>, size: Option<(u32, u32)>) -> bool {
    art_plan_of(size) == ArtPlan::Keep && is_jpeg_file(written)
}

/// The cover that scaling down gave, given the file that was written and
/// the size of its picture, measured again: the file where it is a JPEG
/// that fits, else the failure of the conversion.
pub fn shrunk_cover(written: Vec<u8>, size: Option<(u32, u32)>) -> (cover: Result<
    Vec<u8>,
    ConvertError,
>)
    ensures
        accepts_shrunk(written@, size) ==> cover == Ok::<Vec<u8>, ConvertError>(written),
        !accepts_shrunk(written@, size) ==> cover == Err::<Vec<u8>, ConvertError>(
            ConvertError::CoverArt,
        ),
{
    match plan_cover_art(size) {
        ArtPlan::Keep => {
            if starts_as_jpeg(&written) {
                Ok(written)
            } else {
                Err(ConvertError::CoverArt)
            }
        },
        _ => Err(ConvertError::CoverArt),
    }
}

/// Makes a cover of an image file. A picture within 500 by 500 pixels is
/// passed through unchanged. A larger one is scaled down as the request
/// for covers asks and written as JPEG; what was written is measured
/// again, and is the cover only where it is a JPEG whose picture fits.
/// Bytes that are no picture fail the conversion, and so does a picture
/// that cannot be scaled or written. So every cover that comes out fits.
pub fn fit_cover_art(raw: Vec<u8>) -> (cover: Result<Vec<u8>, ConvertError>)
    ensures
        art_plan_of(decoded_size(raw@)) == ArtPlan::Keep ==> cover == Ok::<Vec<u8>, ConvertError>(
            raw,
        ),
        art_plan_of(decoded_size(raw@)) == ArtPlan::Reject ==> cover == Err::<
            Vec<u8>,
            ConvertError,
        >(ConvertError::CoverArt),
        cover matches Ok(art) ==> art_plan_of(decoded_size(art@)) == ArtPlan::Keep,
        cover matches Ok(art) ==> art_plan_of(decoded_size(raw@)) == ArtPlan::Shrink
            ==> is_jpeg_file(art@),
        cover matches Err(e) ==> e == ConvertError::CoverArt,
{
    match decode_image(raw.as_slice()) {
        None => Err(ConvertError::CoverArt),
        Some((picture, size)) => match plan_cover_art(Some(size)) {
            ArtPlan::Keep => Ok(raw),
            ArtPlan::Reject => Err(ConvertError::CoverArt),
            ArtPlan::Shrink => {
                let request = cover_request();
                let smaller = resize_image(
                    &picture,
                    request.max_width,
                    request.max_height,
                    request.filter,
                );
                match encode_image(&smaller, request.format) {
                    None => Err(ConvertError::CoverArt),
                    Some(written) => {
                        let measured = match decode_image(written.as_slice()) {
                            Some((_, again)) => Some(again),
                            None => None,
                        };
                        shrunk_cover(written, measured)
                    },
                }
            },
        },
    }
}

/// The art that a container embeds: the data of the last of its visuals,
/// or nothing where it has none.
pub open spec fn embedded_art_of(visuals: Seq<Vec<u8>>) -> Seq<u8> {
    if visuals.len() == 0 {
        Seq::empty()
    } else {
        visuals.last()@
    }
}

/// Takes the art that a container embeds.
pub fn embedded_art(visuals: &Vec<Vec<u8>>) -> (art: Vec<u8>)
    ensures
        art@ == embedded_art_of(visuals@),
{
    if visuals.len() == 0 {
        Vec::new()
    } else {
        copy_bytes(&visuals[visuals.len() - 1])
    }
}

/// Copies bytes.
pub fn copy_bytes(bytes: &Vec<u8>) -> (copy: Vec<u8>)
    ensures
        copy@ == bytes@,
{
    let mut copy: Vec<u8> = Vec::new();
    let mut i: usize = 0;
    while i < bytes.len()
        invariant
            i <= bytes.len(),
            copy@ == bytes@.take(i as int),
        decreases bytes.len() - i,
    {
        copy.push(bytes[i]);
        assert(copy@ =~= bytes@.take(i + 1));
        i = i + 1;
    }
    assert(bytes@.take(bytes.len() as int) =~= bytes@);
    copy
}

/// Whether an image beside the source is looked for: only where the
/// container embeds no art.
pub fn wants_sidecar(visuals: &Vec<Vec<u8>>) -> (wanted: bool)
    ensures
        wanted == (embedded_art_of(visuals@).len() == 0),
{
    visuals.len() == 0 || visuals[visuals.len() - 1].len() == 0
}

/// The image file that the cover is made of: the embedded art where there
/// is some, else the image found beside the source, else none.
pub open spec fn art_source_of(visuals: Seq<Vec<u8>>, sidecar: Option<Vec<u8>>) -> Option<Seq<u8>> {
    if embedded_art_of(visuals).len() != 0 {
        Some(embedded_art_of(visuals))
    } else {
        match sidecar {
            Some(bytes) => Some(bytes@),
            None => None,
        }
    }
}

/// Whether `cover` is a result that resolving the cover from `source` can
/// have; `None` stands for the failure of the conversion. Without a source
/// the cover is empty; a picture that fits is the cover as it is; bytes
/// that are no picture fail; a picture that is too large gives a JPEG file
/// whose picture fits, or fails.
pub open spec fn cover_resolved(source: Option<Seq<u8>>, cover: Option<Seq<u8>>) -> bool {
    match source {
        None => cover == Some(Seq::<u8>::empty()),
        Some(raw) => match art_plan_of(decoded_size(raw)) {
            ArtPlan::Keep => cover == Some(raw),
            ArtPlan::Reject => cover is None,
            ArtPlan::Shrink => match cover {
                Some(art) => art_plan_of(decoded_size(art)) == ArtPlan::Keep && is_jpeg_file(art),
                None => true,
            },
        },
    }
}

/// A cover that was made of an image file fits: its picture is within 500
/// by 500 pixels.
pub proof fn lemma_resolved_cover_fits(raw: Seq<u8>, art: Seq<u8>)
    requires
        cover_resolved(Some(raw), Some(art)),
    ensures
        art_plan_of(decoded_size(art)) == ArtPlan::Keep,
        decoded_size(art) matches Some(size) && fits_cover(size),
{
}

/// A cover that was made of an image file is a cover already: made a
/// cover of again, it comes back as it is, and as nothing else.
pub proof fn lemma_resolved_cover_is_stable(raw: Seq<u8>, art: Seq<u8>)
    requires
        cover_resolved(Some(raw), Some(art)),
    ensures
        forall|again: Option<Seq<u8>>| #[trigger]
            cover_resolved(Some(art), again) <==> again == Some(art),
{
}

/// The bytes of a cover, or `None` for a failure.
pub open spec fn cover_bytes(cover: Result<Vec<u8>, ConvertError>) -> Option<Seq<u8>> {
    match cover {
        Ok(art) => Some(art@),
        Err(_) => None,
    }
}

/// Resolves the cover of a track from the visuals of its container and the
/// image found beside the source, if one was looked for and found. With
/// neither there is no cover, which is no failure.
pub fn resolve_cover_art(visuals: &Vec<Vec<u8>>, sidecar: Option<Vec<u8>>) -> (cover: Result<
    Vec<u8>,
    ConvertError,
>)
    ensures
        cover_resolved(art_source_of(visuals@, sidecar), cover_bytes(cover)),
        cover matches Err(e) ==> e == ConvertError::CoverArt,
{
    let embedded = embedded_art(visuals);
    if embedded.len() != 0 {
        fit_cover_art(embedded)
    } else {
        match sidecar {
            Some(bytes) => fit_cover_art(bytes),
            None => {
                assert(embedded@ =~= Seq::<u8>::empty());
                Ok(embedded)
            },
        }
    }
}

/// The patterns by which an image beside a source is looked for, in the
/// order of their rank: the files of the source's directory that end in
/// `.jpg`, then `.jpeg`, then `.png`.
pub open spec fn sidecar_patterns_of(source: Seq<char>) -> Seq<Seq<char>> {
    seq![
        parent_of(source) + "/*.jpg"@,
        parent_of(source) + "/*.jpeg"@,
        parent_of(source) + "/*.png"@,
    ]
}

/// Builds the patterns by which an image beside a source is looked for.
pub fn sidecar_patterns(source: &str) -> (patterns: Vec<String>)
    ensures
        texts(patterns@) == sidecar_patterns_of(source@),
{
    let mut patterns: Vec<String> = Vec::new();
    patterns.push(parent_directory(source).concat("/*.jpg"));
    patterns.push(parent_directory(source).concat("/*.jpeg"));
    patterns.push(parent_directory(source).concat("/*.png"));
    assert(texts(patterns@) =~= sidecar_patterns_of(source@));
    patterns
}

/// The first match of the first pattern that matched anything.
pub open spec fn first_match_of(matches: Seq<Seq<Seq<char>>>) -> Option<Seq<char>>
    decreases matches.len(),
{
    if matches.len() == 0 {
        None
    } else if matches[0].len() > 0 {
        Some(matches[0][0])
    } else {
        first_match_of(matches.drop_first())
    }
}

/// The matches of each pattern, as text.
pub open spec fn match_texts(matches: Seq<Vec<String>>) -> Seq<Seq<Seq<char>>> {
    Seq::new(matches.len(), |i: int| texts(matches[i]@))
}

/// Picks the image beside the source from what each pattern matched, the
/// patterns in the order of their rank and the matches of each in the
/// order in which they were found.
pub fn pick_sidecar(matches: &Vec<Vec<String>>) -> (picked: Option<String>)
    ensures
        picked is Some == first_match_of(match_texts(matches@)) is Some,
        picked matches Some(path) ==> first_match_of(match_texts(matches@)) == Some(path@),
{
    let mut i: usize = 0;
    assert(match_texts(matches@).skip(0) =~= match_texts(matches@));
    while i < matches.len()
        invariant
            i <= matches.len(),
            first_match_of(match_texts(matches@)) == first_match_of(
                match_texts(matches@).skip(i as int),
            ),
        decreases matches.len() - i,
    {
        let ghost rest = match_texts(matches@).skip(i as int);
        proof {
            assert(rest[0] == texts(matches@[i as int]@));
            assert(rest.drop_first() =~= match_texts(matches@).skip(i + 1));
        }
        if matches[i].len() > 0 {
            return Some(matches[i][0].clone());
        }
        i = i + 1;
    }
    None
}

} // verus!
