//! The conversion of one file: from the source's path and what was read of
//! it to the file that is written.

use vstd::prelude::*;
use vstd::string::*;
use crate::artwork::{
    art_source_of, cover_resolved, resolve_cover_art, sidecar_patterns, sidecar_patterns_of,
};
use crate::error::ConvertError;
pub use crate::filetype::AudioFiletype;
use crate::filetype::{source_type, source_type_of};
use crate::metadata::{fields_of_tags, Tag, TrackFields, TrackMetadata};
use crate::naming::{
    album_directory, album_directory_of, append_to_path, output_filename, track_filename,
};
use crate::text::texts;

verus! {

/// The conversion of one source file. It holds nothing that changes and
/// shares nothing with the conversion of another file.
pub struct AudioConverter {
    from_type: AudioFiletype,
    to_type: AudioFiletype,
    src_path: String,
}

/// A conversion as plain values.
pub ghost struct Conversion {
    pub from_type: AudioFiletype,
    pub to_type: AudioFiletype,
    pub src_path: Seq<char>,
}

impl View for AudioConverter {
    type V = Conversion;

    closed spec fn view(&self) -> Conversion {
        Conversion { from_type: self.from_type, to_type: self.to_type, src_path: self.src_path@ }
    }
}

/// The file that a conversion writes.
#[derive(PartialEq, Eq, Debug)]
pub struct ConvertedFile {
    /// The directory that is created where it is missing, with the
    /// directories above it.
    pub directory: String,
    /// The path of the file.
    pub path: String,
    /// What the file holds: the MP3 stream.
    pub bytes: Vec<u8>,
}

/// The path of the file of a track under a destination:
/// `<destination>/<album>/<NN> - <title>.mp3`.
pub open spec fn output_path_of(destination: Seq<char>, track: TrackFields) -> Seq<char> {
    album_directory_of(destination, track.album) + track_filename(track.track_number, track.title)
}

impl AudioConverter {
    /// The conversion of `src_path` to `to_type`. The kind of the source is
    /// told by the extension of its path, which has to name one.
    pub fn new(src_path: String, to_type: AudioFiletype) -> (converter: AudioConverter)
        requires
            source_type_of(src_path@) is Some,
        ensures
            converter@ == (Conversion {
                from_type: source_type_of(src_path@).unwrap(),
                to_type,
                src_path: src_path@,
            }),
    {
        let from_type = source_type(src_path.as_str()).unwrap();
        AudioConverter { from_type, to_type, src_path }
    }

    /// The conversion of `src_path` to `to_type`, or `None` where the path
    /// has no extension or one that names no kind of source.
    pub fn try_new(src_path: String, to_type: AudioFiletype) -> (converter: Option<AudioConverter>)
        ensures
            converter is Some == source_type_of(src_path@) is Some,
            converter matches Some(c) ==> c@ == (Conversion {
                from_type: source_type_of(src_path@).unwrap(),
                to_type,
                src_path: src_path@,
            }),
    {
        match source_type(src_path.as_str()) {
            Some(from_type) => Some(AudioConverter { from_type, to_type, src_path }),
            None => None,
        }
    }

    /// The kind of the source.
    pub fn from_type(&self) -> (kind: AudioFiletype)
        ensures
            kind == self@.from_type,
    {
        self.from_type
    }

    /// The kind of file that is written.
    pub fn to_type(&self) -> (kind: AudioFiletype)
        ensures
            kind == self@.to_type,
    {
        self.to_type
    }

    /// The path of the source.
    pub fn src_path(&self) -> (path: &str)
        ensures
            path@ == self@.src_path,
    {
        self.src_path.as_str()
    }

    /// The extension given to the format probe as a hint: that of the
    /// source's kind.
    pub fn probe_hint(&self) -> (hint: &'static str)
        ensures
            hint@ == self@.from_type.extension_text(),
    {
        self.from_type.extension()
    }

    /// The patterns by which an image beside the source is looked for.
    pub fn sidecar_patterns(&self) -> (patterns: Vec<String>)
        ensures
            texts(patterns@) == sidecar_patterns_of(self@.src_path),
    {
        sidecar_patterns(self.src_path.as_str())
    }

    /// Makes the metadata of a track of the tags and visuals of its
    /// container and of the image found beside the source, if one was
    /// looked for and found. The fields come from the tags; the cover from
    /// the last visual, else from the image beside the source, fitted to the
    /// greatest size of a cover. A cover that cannot be made fails the
    /// conversion.
    pub fn extract_metadata(tags: &Vec<Tag>, visuals: &Vec<Vec<u8>>, sidecar: Option<Vec<u8>>) -> (track:
        Result<TrackMetadata, ConvertError>)
        ensures
            cover_resolved(
                art_source_of(visuals@, sidecar),
                match track {
                    Ok(t) => Some(t@.album_art),
                    Err(_) => None,
                },
            ),
            track matches Ok(t) ==> t@ == (TrackFields {
                album_art: t@.album_art,
                ..fields_of_tags(tags@)
            }),
            track matches Err(e) ==> e == ConvertError::CoverArt,
    {
        let mut track = TrackMetadata::from_tags(tags);
        match resolve_cover_art(visuals, sidecar) {
            Ok(art) => {
                track.album_art = art;
                Ok(track)
            },
            Err(e) => Err(e),
        }
    }

    /// Places the MP3 stream of a track under the destination: in the
    /// directory of the track's album, in a file named by its number and
    /// title. Only a conversion to MP3 has a stream to place.
    pub fn convert_file_to_mp3(
        &self,
        output_path: &str,
        track_metadata: &TrackMetadata,
        mp3_bytes: Vec<u8>,
    ) -> (file: ConvertedFile)
        requires
            self@.to_type == AudioFiletype::MP3,
        ensures
            file.directory@ == album_directory_of(output_path@, track_metadata@.album),
            file.path@ == output_path_of(output_path@, track_metadata@),
            file.bytes == mp3_bytes,
    {
        let directory = album_directory(output_path, track_metadata.album.as_str());
        let filename = output_filename(
            track_metadata.track_number.as_str(),
            track_metadata.title.as_str(),
        );
        let path = append_to_path(directory.clone(), filename.as_str());
        ConvertedFile { directory, path, bytes: mp3_bytes }
    }
}

} // verus!
