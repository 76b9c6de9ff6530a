//! Setting up the MP3 encoder for a track.

use vstd::prelude::*;
use vstd::string::*;
use vstd::utf8::encode_utf8;
use mp3lame_encoder::{Bitrate, BuildError, Builder, Encoder, Id3TagError, Quality};
use crate::artwork::copy_bytes;
use crate::error::{ConvertError, EncodeFailure, EncoderStep};
use crate::metadata::TrackMetadata;
use crate::text::texts;

verus! {

/// `mp3lame_encoder::Builder`: an encoder that is being set up.
#[verifier::external_type_specification]
#[verifier::external_body]
pub struct ExBuilder(Builder);

/// `mp3lame_encoder::Encoder`: an encoder that is ready for samples.
#[verifier::external_type_specification]
#[verifier::external_body]
pub struct ExEncoder(Encoder);

/// `mp3lame_encoder::BuildError`: why a setting or the build was refused.
#[verifier::external_type_specification]
#[verifier::external_body]
pub struct ExBuildError(BuildError);

/// `mp3lame_encoder::Id3TagError`: why a tag was refused.
#[verifier::external_type_specification]
#[verifier::external_body]
pub struct ExId3TagError(Id3TagError);

/// `mp3lame_encoder::Bitrate`: the bitrates that the encoder knows, by
/// their variants.
#[verifier::external_type_specification]
pub struct ExBitrate(Bitrate);

/// `mp3lame_encoder::Quality`: the qualities that the encoder knows, by
/// their variants.
#[verifier::external_type_specification]
pub struct ExQuality(Quality);

/// The number of channels that are encoded.
pub const CHANNELS: u8 = 2;

/// The greatest number of bytes of cover art that a tag carries.
pub const MAX_ALBUM_ART_SIZE: usize = 131072;

/// `Builder::new`: a builder with the encoder's defaults, or `None` where
/// none could be allocated.
#[verifier::external_body]
fn new_builder() -> (builder: Option<Builder>)
{
    Builder::new()
}

/// `Builder::set_num_channels`.
#[verifier::external_body]
fn set_num_channels(builder: &mut Builder, channels: u8) -> (set: Result<(), BuildError>)
{
    builder.set_num_channels(channels)
}

/// `Builder::set_sample_rate`: the rate of the samples that go in.
#[verifier::external_body]
fn set_sample_rate(builder: &mut Builder, rate: u32) -> (set: Result<(), BuildError>)
{
    builder.set_sample_rate(rate)
}

/// `Builder::set_brate`.
#[verifier::external_body]
fn set_brate(builder: &mut Builder, brate: Bitrate) -> (set: Result<(), BuildError>)
{
    builder.set_brate(brate)
}

/// `Builder::set_quality`.
#[verifier::external_body]
fn set_quality(builder: &mut Builder, quality: Quality) -> (set: Result<(), BuildError>)
{
    builder.set_quality(quality)
}

/// `Builder::build`: the encoder with the settings made so far.
#[verifier::external_body]
fn build_encoder(builder: Builder) -> (encoder: Result<Encoder, BuildError>)
{
    builder.build()
}

/// `Builder::set_id3_tag` with an `Id3Tag` of these fields, each of them
/// as raw bytes and empty where there is nothing to say. The tag is refused
/// exactly where the cover art is larger than `MAX_ALBUM_ART_SIZE`.
#[verifier::external_body]
fn set_id3_tag(
    builder: &mut Builder,
    title: &[u8],
    artist: &[u8],
    album: &[u8],
    album_art: &[u8],
    year: &[u8],
    comment: &[u8],
) -> (set: Result<(), Id3TagError>)
    ensures
        set is Err <==> album_art@.len() > MAX_ALBUM_ART_SIZE,
{
    builder.set_id3_tag(mp3lame_encoder::Id3Tag { title, artist, album, album_art, year, comment })
}

/// The bytes that a number of samples can take at most: the samples, a
/// quarter of them again, rounded up, and 7200 bytes for the last frame.
pub open spec fn worst_case_bytes(samples: usize) -> int {
    samples + samples / 4 + (if samples % 4 > 0 {
        1int
    } else {
        0int
    }) + 7200
}

/// The size of the output buffer for a number of samples: the bytes that
/// they can take at most, wrapped round where that does not fit.
pub open spec fn worst_case_size(samples: usize) -> usize {
    if worst_case_bytes(samples) <= usize::MAX {
        worst_case_bytes(samples) as usize
    } else {
        (worst_case_bytes(samples) - usize::MAX - 1) as usize
    }
}

/// `mp3lame_encoder::max_required_buffer_size`: the sum above, each
/// addition wrapping.
pub assume_specification[ mp3lame_encoder::max_required_buffer_size ](
    sample_number: usize,
) -> (size: usize)
    ensures
        size == worst_case_size(sample_number),
;

/// The capacity that the output buffer is given before a track of this
/// many samples a channel is encoded in one call.
pub fn output_capacity(samples: usize) -> (capacity: usize)
    ensures
        capacity == worst_case_size(samples),
{
    mp3lame_encoder::max_required_buffer_size(samples)
}

/// The settings of the encoder.
pub struct EncoderSettings {
    pub channels: u8,
    /// The rate of the samples that go in.
    pub sample_rate: u32,
    pub bitrate: Bitrate,
    pub quality: Quality,
}

/// The settings for a track: two channels, 192 kbps, the best quality, and
/// the sample rate of the track.
pub open spec fn settings_for(sample_rate: u32) -> EncoderSettings {
    EncoderSettings {
        channels: CHANNELS,
        sample_rate,
        bitrate: Bitrate::Kbps192,
        quality: Quality::Best,
    }
}

/// The settings with which a track is encoded.
pub fn encoder_settings(track: &TrackMetadata) -> (settings: EncoderSettings)
    ensures
        settings == settings_for(track.sample_rate),
{
    EncoderSettings {
        channels: CHANNELS,
        sample_rate: track.sample_rate,
        bitrate: Bitrate::Kbps192,
        quality: Quality::Best,
    }
}

/// The artist field of a tag: the artists of the track one after another,
/// with nothing between them.
pub fn artist_field(artist: &Vec<String>) -> (joined: String)
    ensures
        joined@ == texts(artist@).flatten(),
{
    let mut joined = String::new();
    let mut i: usize = 0;
    assert(texts(artist@).take(0) =~= Seq::<Seq<char>>::empty());
    while i < artist.len()
        invariant
            i <= artist.len(),
            joined@ == texts(artist@).take(i as int).flatten(),
        decreases artist.len() - i,
    {
        proof {
            let head = texts(artist@).take(i as int);
            assert(texts(artist@).take(i + 1) =~= head.push(artist@[i as int]@));
            head.lemma_flatten_push(artist@[i as int]@);
        }
        joined.append(artist[i].as_str());
        i = i + 1;
    }
    assert(texts(artist@).take(artist.len() as int) =~= texts(artist@));
    joined
}

/// The fields of the tag of a track, each as the bytes that the tag holds;
/// an empty field says nothing.
#[derive(Clone, PartialEq, Eq, Debug)]
pub struct Id3Fields {
    pub title: Vec<u8>,
    pub artist: Vec<u8>,
    pub album: Vec<u8>,
    pub album_art: Vec<u8>,
    pub year: Vec<u8>,
    pub comment: Vec<u8>,
}

/// The tag of a track: its texts in UTF-8, the artists joined into one
/// text, and the cover art as it is.
pub fn id3_fields(track: &TrackMetadata) -> (tag: Id3Fields)
    ensures
        tag.title@ == encode_utf8(track@.title),
        tag.artist@ == encode_utf8(track@.artist.flatten()),
        tag.album@ == encode_utf8(track@.album),
        tag.album_art@ == track@.album_art,
        tag.year@ == encode_utf8(track@.year),
        tag.comment@ == encode_utf8(track@.comment),
{
    Id3Fields {
        title: track.title.as_str().as_bytes_vec(),
        artist: artist_field(&track.artist).as_str().as_bytes_vec(),
        album: track.album.as_str().as_bytes_vec(),
        album_art: copy_bytes(&track.album_art),
        year: track.year.as_str().as_bytes_vec(),
        comment: track.comment.as_str().as_bytes_vec(),
    }
}

/// Sets up the encoder for a track: its settings first, in the order
/// channels, sample rate, bitrate, quality; then the tag with title, artist,
/// album, cover art, year and comment; then the encoder is built. The first
/// step that the encoder refuses ends the conversion.
pub fn configure_encoder(track: &TrackMetadata) -> (encoder: Result<Encoder, ConvertError>)
    ensures
        encoder matches Err(e) ==> e matches ConvertError::Encode(_),
        track.album_art@.len() > MAX_ALBUM_ART_SIZE ==> encoder is Err,
        encoder matches Err(ConvertError::Encode(EncodeFailure::AlbumArtTooLarge))
            ==> track.album_art@.len() > MAX_ALBUM_ART_SIZE,
{
    let settings = encoder_settings(track);
    let mut builder = match new_builder() {
        Some(builder) => builder,
        None => {
            return Err(ConvertError::Encode(EncodeFailure::Unavailable));
        },
    };
    if let Err(_) = set_num_channels(&mut builder, settings.channels) {
        return Err(rejected(EncoderStep::Channels));
    }
    if let Err(_) = set_sample_rate(&mut builder, settings.sample_rate) {
        return Err(rejected(EncoderStep::SampleRate));
    }
    if let Err(_) = set_brate(&mut builder, settings.bitrate) {
        return Err(rejected(EncoderStep::Bitrate));
    }
    if let Err(_) = set_quality(&mut builder, settings.quality) {
        return Err(rejected(EncoderStep::Quality));
    }
    let tag = id3_fields(track);
    let tagged = set_id3_tag(
        &mut builder,
        tag.title.as_slice(),
        tag.artist.as_slice(),
        tag.album.as_slice(),
        tag.album_art.as_slice(),
        tag.year.as_slice(),
        tag.comment.as_slice(),
    );
    if let Err(_) = tagged {
        return Err(ConvertError::Encode(EncodeFailure::AlbumArtTooLarge));
    }
    match build_encoder(builder) {
        Ok(encoder) => Ok(encoder),
        Err(_) => Err(rejected(EncoderStep::Build)),
    }
}

/// The failure of a conversion whose encoder refused a step.
pub fn rejected(step: EncoderStep) -> (e: ConvertError)
    ensures
        e == ConvertError::Encode(EncodeFailure::Rejected(step)),
{
    ConvertError::Encode(EncodeFailure::Rejected(step))
}

} // verus!
