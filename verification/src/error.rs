//! Why a conversion stops.

use vstd::prelude::*;

verus! {

/// What the decoder's side reports when reading or decoding a packet fails.
#[derive(Clone, PartialEq, Eq, Debug)]
pub enum DecodeFailure {
    /// The byte source failed. `unexpected_eof` tells whether it reported
    /// an unexpected end of file; `message` is the text of its report.
    Io { unexpected_eof: bool, message: String },
    /// Any other failure of the reader or the codec, with its text.
    Other { message: String },
}

/// The step of setting up the MP3 encoder that was refused.
#[derive(Clone, Copy, PartialEq, Eq, Debug, Structural)]
pub enum EncoderStep {
    Channels,
    SampleRate,
    Bitrate,
    Quality,
    Build,
}

/// Why no encoder could be set up.
#[derive(Clone, Copy, PartialEq, Eq, Debug, Structural)]
pub enum EncodeFailure {
    /// No encoder could be allocated.
    Unavailable,
    /// The encoder refused a setting.
    Rejected(EncoderStep),
    /// The cover art is larger than a tag can carry.
    AlbumArtTooLarge,
}

/// Why one file was not converted. No failure is retried, and none reaches
/// another file of the batch.
#[derive(Clone, PartialEq, Eq, Debug)]
pub enum ConvertError {
    /// The container exposes no metadata at all.
    Extraction,
    /// No track of the container has a codec that can be decoded.
    UnsupportedFormat,
    /// Reading or decoding failed in the middle of the stream.
    Decode(DecodeFailure),
    /// The encoder could not be set up.
    Encode(EncodeFailure),
    /// The cover art could not be decoded or encoded.
    CoverArt,
}

} // verus!
