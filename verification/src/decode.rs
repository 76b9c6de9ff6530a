//! Decoding a source: which track is decoded, at what rate, and what each
//! packet read from the container leads to.

use vstd::prelude::*;
use vstd::string::*;
use crate::error::{ConvertError, DecodeFailure};
use crate::metadata::{TrackFields, TrackMetadata};
use crate::text::same_text;

verus! {

/// What is read of one track of a container.
#[derive(Clone, Copy, PartialEq, Eq, Debug, Structural)]
pub struct TrackInfo {
    /// The number by which packets name their track.
    pub id: u32,
    /// Whether the track names a codec; a track without one holds no audio
    /// that can be decoded.
    pub has_codec: bool,
    /// The sample rate that the track declares.
    pub sample_rate: Option<u32>,
}

/// Selects the track to decode: the first that names a codec. A container
/// without such a track is not supported.
pub fn select_track(tracks: &Vec<TrackInfo>) -> (selected: Result<usize, ConvertError>)
    ensures
        match selected {
            Ok(at) => at < tracks.len() && tracks[at as int].has_codec && forall|j: int|
                0 <= j < at ==> !(#[trigger] tracks[j]).has_codec,
            Err(e) => e == ConvertError::UnsupportedFormat && forall|j: int|
                0 <= j < tracks.len() ==> !(#[trigger] tracks[j]).has_codec,
        },
{
    let mut i: usize = 0;
    while i < tracks.len()
        invariant
            i <= tracks.len(),
            forall|j: int| 0 <= j < i ==> !(#[trigger] tracks[j]).has_codec,
        decreases tracks.len() - i,
    {
        if tracks[i].has_codec {
            return Ok(i);
        }
        i = i + 1;
    }
    Err(ConvertError::UnsupportedFormat)
}

/// Takes the sample rate that the selected track declares; where it
/// declares none the rate of the metadata stays. Says whether a rate was
/// declared, so that the caller can warn where not.
pub fn apply_sample_rate(metadata: &mut TrackMetadata, declared: Option<u32>) -> (known: bool)
    ensures
        known == declared is Some,
        final(metadata)@ == (TrackFields {
            sample_rate: match declared {
                Some(rate) => rate,
                None => old(metadata)@.sample_rate,
            },
            ..old(metadata)@
        }),
{
    match declared {
        Some(rate) => {
            metadata.sample_rate = rate;
            true
        },
        None => false,
    }
}

/// What decoding starts with.
#[derive(Clone, Copy, PartialEq, Eq, Debug, Structural)]
pub struct DecodePlan {
    /// The place of the selected track among the tracks.
    pub track_index: usize,
    /// The number by which packets name the selected track.
    pub track_id: u32,
    /// Whether the track declares its sample rate; where not, the rate of
    /// the metadata stays and the caller warns.
    pub rate_declared: bool,
}

/// Prepares decoding: selects the track and takes its sample rate into the
/// metadata. Without a track that can be decoded the metadata stays as it
/// is and the conversion ends before decoding starts.
pub fn begin_decoding(tracks: &Vec<TrackInfo>, metadata: &mut TrackMetadata) -> (plan: Result<
    DecodePlan,
    ConvertError,
>)
    ensures
        match plan {
            Ok(p) => {
                &&& p.track_index < tracks.len()
                &&& tracks[p.track_index as int].has_codec
                &&& forall|j: int| 0 <= j < p.track_index ==> !(#[trigger] tracks[j]).has_codec
                &&& p.track_id == tracks[p.track_index as int].id
                &&& p.rate_declared == tracks[p.track_index as int].sample_rate is Some
                &&& final(metadata)@ == (TrackFields {
                    sample_rate: match tracks[p.track_index as int].sample_rate {
                        Some(rate) => rate,
                        None => old(metadata)@.sample_rate,
                    },
                    ..old(metadata)@
                })
            },
            Err(e) => {
                &&& e == ConvertError::UnsupportedFormat
                &&& forall|j: int| 0 <= j < tracks.len() ==> !(#[trigger] tracks[j]).has_codec
                &&& final(metadata)@ == old(metadata)@
            },
        },
{
    match select_track(tracks) {
        Ok(track_index) => {
            let track = tracks[track_index];
            let rate_declared = apply_sample_rate(metadata, track.sample_rate);
            Ok(DecodePlan { track_index, track_id: track.id, rate_declared })
        },
        Err(e) => Err(e),
    }
}

/// The report by which a byte source says that the stream is complete.
pub open spec fn end_of_stream_message() -> Seq<char> {
    "end of stream"@
}

/// Whether a failure is the end of the stream: an unexpected end of file
/// whose report reads `end of stream`. No other failure ends a stream well.
pub open spec fn is_end_of_stream(failure: DecodeFailure) -> bool {
    failure matches DecodeFailure::Io { unexpected_eof, message } && unexpected_eof && message@
        == end_of_stream_message()
}

/// Whether a failure is the end of the stream.
pub fn ends_stream(failure: &DecodeFailure) -> (ends: bool)
    ensures
        ends == is_end_of_stream(*failure),
{
    match failure {
        DecodeFailure::Io { unexpected_eof, message } => *unexpected_eof && same_text(
            message.as_str(),
            "end of stream",
        ),
        DecodeFailure::Other { .. } => false,
    }
}

/// Turns the end of the stream into success and leaves every other result
/// as it is.
pub fn ignore_end_of_stream_error(result: Result<(), DecodeFailure>) -> (kept: Result<
    (),
    DecodeFailure,
>)
    ensures
        match result {
            Ok(_) => kept is Ok,
            Err(failure) => if is_end_of_stream(failure) {
                kept is Ok
            } else {
                kept == result
            },
        },
{
    match result {
        Ok(()) => Ok(()),
        Err(failure) => {
            if ends_stream(&failure) {
                Ok(())
            } else {
                Err(failure)
            }
        },
    }
}

/// How a loop that stopped on a failure ends: well at the end of the
/// stream, with the failure otherwise.
pub open spec fn end_of(failure: DecodeFailure) -> Result<(), ConvertError> {
    if is_end_of_stream(failure) {
        Ok(())
    } else {
        Err(ConvertError::Decode(failure))
    }
}

/// Ends the loop on a failure to read or to decode a packet.
pub fn end_of_decoding(failure: DecodeFailure) -> (end: Result<(), ConvertError>)
    ensures
        end == end_of(failure),
{
    match ignore_end_of_stream_error(Err(failure)) {
        Ok(()) => Ok(()),
        Err(kept) => Err(ConvertError::Decode(kept)),
    }
}

/// What the decoding loop does with what it read.
#[derive(PartialEq, Eq, Debug)]
pub enum DecodeStep {
    /// The packet belongs to another track: read the next one.
    Skip,
    /// The packet belongs to the selected track: decode it and add its
    /// samples.
    Decode,
    /// The loop ends, well or with the failure of the conversion.
    Stop(Result<(), ConvertError>),
}

/// Decides what follows the reading of a packet: `read` is the track that
/// the packet belongs to, or the failure to read one.
pub fn after_read(selected_track: u32, read: Result<u32, DecodeFailure>) -> (step: DecodeStep)
    ensures
        match read {
            Ok(track) => step == if track == selected_track {
                DecodeStep::Decode
            } else {
                DecodeStep::Skip
            },
            Err(failure) => step == DecodeStep::Stop(end_of(failure)),
        },
{
    match read {
        Ok(track) => {
            if track == selected_track {
                DecodeStep::Decode
            } else {
                DecodeStep::Skip
            }
        },
        Err(failure) => DecodeStep::Stop(end_of_decoding(failure)),
    }
}

/// Decides what follows the decoding of a packet: `None` where the next
/// packet is read, else the end of the loop.
pub fn after_decode(decoded: Result<(), DecodeFailure>) -> (end: Option<Result<(), ConvertError>>)
    ensures
        match decoded {
            Ok(_) => end is None,
            Err(failure) => end == Some(end_of(failure)),
        },
{
    match decoded {
        Ok(()) => None,
        Err(failure) => Some(end_of_decoding(failure)),
    }
}

/// A stream ends well only at its end: every other failure of the loop is
/// the failure of the conversion.
pub proof fn lemma_only_end_of_stream_ends_well(failure: DecodeFailure)
    ensures
        end_of(failure) is Ok <==> is_end_of_stream(failure),
        !is_end_of_stream(failure) ==> end_of(failure) == Err::<(), ConvertError>(
            ConvertError::Decode(failure),
        ),
{
}

} // verus!
