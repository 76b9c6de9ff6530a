//! What is known of a track: the fields read from its tags, its cover art
//! and its sample rate.

use vstd::prelude::*;
use vstd::string::*;
use crate::error::ConvertError;
use crate::text::copy_range;

verus! {

/// The keys of the tags that are read; every other key is `Other`.
#[derive(Clone, Copy, PartialEq, Eq, Debug, Structural)]
pub enum TagKey {
    TrackTitle,
    TrackNumber,
    Album,
    Artist,
    Date,
    Comment,
    Other,
}

/// One tag of a container.
#[derive(Clone, PartialEq, Eq, Debug)]
pub struct Tag {
    pub key: TagKey,
    pub value: String,
}

/// The sample rate of a track that declares none.
pub const DEFAULT_SAMPLE_RATE: u32 = 44_100;

/// The number of characters of a date that make its year.
pub const YEAR_LENGTH: usize = 4;

/// The metadata of one track.
#[derive(Clone, PartialEq, Eq, Debug)]
pub struct TrackMetadata {
    pub title: String,
    /// The number as it is tagged, with the digits it has.
    pub track_number: String,
    pub artist: Vec<String>,
    pub album: String,
    /// The cover art as the bytes of an image file; empty where none was found.
    pub album_art: Vec<u8>,
    /// The first characters of the date tag.
    pub year: String,
    pub comment: String,
    pub sample_rate: u32,
}

/// The metadata of a track as plain values.
pub ghost struct TrackFields {
    pub title: Seq<char>,
    pub track_number: Seq<char>,
    pub artist: Seq<Seq<char>>,
    pub album: Seq<char>,
    pub album_art: Seq<u8>,
    pub year: Seq<char>,
    pub comment: Seq<char>,
    pub sample_rate: u32,
}

impl View for TrackMetadata {
    type V = TrackFields;

    open spec fn view(&self) -> TrackFields {
        TrackFields {
            title: self.title@,
            track_number: self.track_number@,
            artist: crate::text::texts(self.artist@),
            album: self.album@,
            album_art: self.album_art@,
            year: self.year@,
            comment: self.comment@,
            sample_rate: self.sample_rate,
        }
    }
}

/// The value of the first tag with a key, where there is one: a later tag
/// with the same key does not count.
pub open spec fn first_value(tags: Seq<Tag>, key: TagKey) -> Option<Seq<char>>
    decreases tags.len(),
{
    if tags.len() == 0 {
        None
    } else {
        match first_value(tags.drop_last(), key) {
            Some(value) => Some(value),
            None => if tags.last().key == key {
                Some(tags.last().value@)
            } else {
                None
            },
        }
    }
}

/// The text of a field: the value found, or the empty text.
pub open spec fn text_or_empty(value: Option<Seq<char>>) -> Seq<char> {
    match value {
        Some(text) => text,
        None => Seq::empty(),
    }
}

/// The year of a date: its first four characters, or all of it where it
/// has fewer.
pub open spec fn year_of(date: Seq<char>) -> Seq<char> {
    if date.len() <= YEAR_LENGTH {
        date
    } else {
        date.subrange(0, YEAR_LENGTH as int)
    }
}

/// The artists of a track: the value of the first artist tag alone.
pub open spec fn artists_of(value: Option<Seq<char>>) -> Seq<Seq<char>> {
    match value {
        Some(name) => seq![name],
        None => Seq::empty(),
    }
}

/// What the tags of a container say of a track. Each field comes from the
/// first tag with its key; no cover art yet, and the default sample rate.
pub open spec fn fields_of_tags(tags: Seq<Tag>) -> TrackFields {
    TrackFields {
        title: text_or_empty(first_value(tags, TagKey::TrackTitle)),
        track_number: text_or_empty(first_value(tags, TagKey::TrackNumber)),
        artist: artists_of(first_value(tags, TagKey::Artist)),
        album: text_or_empty(first_value(tags, TagKey::Album)),
        album_art: Seq::empty(),
        year: year_of(text_or_empty(first_value(tags, TagKey::Date))),
        comment: text_or_empty(first_value(tags, TagKey::Comment)),
        sample_rate: DEFAULT_SAMPLE_RATE,
    }
}

/// What is known of the tags read so far: which keys were met.
struct Seen {
    title: bool,
    track_number: bool,
    album: bool,
    artist: bool,
    date: bool,
    comment: bool,
}

impl TrackMetadata {
    /// The metadata of a track of which nothing is known.
    pub fn new() -> (empty: TrackMetadata)
        ensures
            empty@ == fields_of_tags(Seq::empty()),
    {
        let empty = TrackMetadata {
            title: String::new(),
            track_number: String::new(),
            artist: Vec::new(),
            album: String::new(),
            album_art: Vec::new(),
            year: String::new(),
            comment: String::new(),
            sample_rate: DEFAULT_SAMPLE_RATE,
        };
        assert(empty@.artist =~= Seq::empty());
        empty
    }

    /// Reads the tags of a container in one pass. Of several tags with one
    /// key the first counts; tags with other keys are skipped.
    pub fn from_tags(tags: &Vec<Tag>) -> (track: TrackMetadata)
        ensures
            track@ == fields_of_tags(tags@),
    {
        let mut track = TrackMetadata::new();
        let mut seen = Seen {
            title: false,
            track_number: false,
            album: false,
            artist: false,
            date: false,
            comment: false,
        };
        let mut i: usize = 0;
        assert(tags@.take(0) =~= Seq::<Tag>::empty());
        while i < tags.len()
            invariant
                i <= tags.len(),
                track@ == fields_of_tags(tags@.take(i as int)),
                seen.title == first_value(tags@.take(i as int), TagKey::TrackTitle) is Some,
                seen.track_number == first_value(
                    tags@.take(i as int),
                    TagKey::TrackNumber,
                ) is Some,
                seen.album == first_value(tags@.take(i as int), TagKey::Album) is Some,
                seen.artist == first_value(tags@.take(i as int), TagKey::Artist) is Some,
                seen.date == first_value(tags@.take(i as int), TagKey::Date) is Some,
                seen.comment == first_value(tags@.take(i as int), TagKey::Comment) is Some,
            decreases tags.len() - i,
        {
            proof {
                assert(tags@.take(i + 1).drop_last() =~= tags@.take(i as int));
                assert(tags@.take(i + 1).last() == tags@[i as int]);
            }
            let tag = &tags[i];
            match tag.key {
                TagKey::TrackTitle => {
                    if !seen.title {
                        track.title = tag.value.clone();
                        seen.title = true;
                    }
                },
                TagKey::TrackNumber => {
                    if !seen.track_number {
                        track.track_number = tag.value.clone();
                        seen.track_number = true;
                    }
                },
                TagKey::Album => {
                    if !seen.album {
                        track.album = tag.value.clone();
                        seen.album = true;
                    }
                },
                TagKey::Artist => {
                    if !seen.artist {
                        let mut artist: Vec<String> = Vec::new();
                        artist.push(tag.value.clone());
                        track.artist = artist;
                        seen.artist = true;
                        assert(track@.artist =~= seq![tag.value@]);
                    }
                },
                TagKey::Date => {
                    if !seen.date {
                        track.year = year_text(tag.value.as_str());
                        seen.date = true;
                    }
                },
                TagKey::Comment => {
                    if !seen.comment {
                        track.comment = tag.value.clone();
                        seen.comment = true;
                    }
                },
                TagKey::Other => {},
            }
            i = i + 1;
        }
        assert(tags@.take(tags.len() as int) =~= tags@);
        track
    }
}

/// The year of a date: its first four characters, or all of it where it
/// has fewer.
pub fn year_text(date: &str) -> (year: String)
    ensures
        year@ == year_of(date@),
{
    let n = date.unicode_len();
    if n <= YEAR_LENGTH {
        String::from_str(date)
    } else {
        copy_range(date, 0, YEAR_LENGTH)
    }
}

/// Where the metadata of a file is read from.
#[derive(Clone, Copy, PartialEq, Eq, Debug, Structural)]
pub enum MetadataSource {
    /// The metadata that the container itself carries.
    Container,
    /// The metadata that was found while the format was probed.
    Probe,
}

/// Chooses where the metadata is read from: the container where it has a
/// revision, else the probe where it has one. A file with neither cannot be
/// converted.
pub fn choose_metadata_source(container_has_revision: bool, probe_has_revision: bool) -> (source:
    Result<MetadataSource, ConvertError>)
    ensures
        container_has_revision ==> source == Ok::<MetadataSource, ConvertError>(
            MetadataSource::Container,
        ),
        !container_has_revision && probe_has_revision ==> source == Ok::<
            MetadataSource,
            ConvertError,
        >(MetadataSource::Probe),
        !container_has_revision && !probe_has_revision ==> source == Err::<
            MetadataSource,
            ConvertError,
        >(ConvertError::Extraction),
{
    if container_has_revision {
        Ok(MetadataSource::Container)
    } else if probe_has_revision {
        Ok(MetadataSource::Probe)
    } else {
        Err(ConvertError::Extraction)
    }
}

/// No value is found exactly where no tag has the key.
pub proof fn lemma_first_value_absent(tags: Seq<Tag>, key: TagKey)
    ensures
        first_value(tags, key) is None <==> forall|i: int|
            0 <= i < tags.len() ==> (#[trigger] tags[i]).key != key,
    decreases tags.len(),
{
    if tags.len() > 0 {
        let head = tags.drop_last();
        lemma_first_value_absent(head, key);
        if first_value(tags, key) is None {
            assert forall|i: int| 0 <= i < tags.len() implies (#[trigger] tags[i]).key != key by {
                if i < head.len() {
                    assert(head[i] == tags[i]);
                }
            }
        } else if first_value(head, key) is Some {
            let k = choose|k: int| 0 <= k < head.len() && (#[trigger] head[k]).key == key;
            assert(tags[k] == head[k]);
        } else {
            assert(tags[tags.len() - 1].key == key);
        }
    }
}

/// The value found is that of the tag with the key that no tag with the
/// key precedes.
pub proof fn lemma_first_value_is_first(tags: Seq<Tag>, key: TagKey, at: int)
    requires
        0 <= at < tags.len(),
        tags[at].key == key,
        forall|j: int| 0 <= j < at ==> (#[trigger] tags[j]).key != key,
    ensures
        first_value(tags, key) == Some(tags[at].value@),
    decreases tags.len(),
{
    let head = tags.drop_last();
    if at == tags.len() - 1 {
        lemma_first_value_absent(head, key);
        assert forall|i: int| 0 <= i < head.len() implies (#[trigger] head[i]).key != key by {
            assert(head[i] == tags[i]);
        }
    } else {
        assert(head[at] == tags[at]);
        assert forall|j: int| 0 <= j < at implies (#[trigger] head[j]).key != key by {
            assert(head[j] == tags[j]);
        }
        lemma_first_value_is_first(head, key, at);
    }
}

} // verus!
