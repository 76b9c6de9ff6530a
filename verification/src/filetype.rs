//! The kinds of audio file, told by the extension of a path.

use vstd::prelude::*;
use vstd::string::*;
use crate::paths::{extension, extension_of, lemma_trailing_filler_is_ignored};
use crate::text::{same_text, texts};

verus! {

/// A kind of audio file. Every kind can be a source; only `MP3` is written.
#[derive(Clone, Copy, PartialEq, Eq, Debug, Structural)]
pub enum AudioFiletype {
    MP3,
    FLAC,
    OGG,
}

impl AudioFiletype {
    /// The extension that files of this kind carry.
    pub open spec fn extension_text(self) -> Seq<char> {
        match self {
            AudioFiletype::MP3 => "mp3"@,
            AudioFiletype::FLAC => "flac"@,
            AudioFiletype::OGG => "ogg"@,
        }
    }

    /// The kind that an extension stands for: `flac`, `mp3` and `ogg` in
    /// lower case, and nothing else.
    pub open spec fn of_extension(ext: Seq<char>) -> Option<AudioFiletype> {
        if ext == "flac"@ {
            Some(AudioFiletype::FLAC)
        } else if ext == "mp3"@ {
            Some(AudioFiletype::MP3)
        } else if ext == "ogg"@ {
            Some(AudioFiletype::OGG)
        } else {
            None
        }
    }

    /// The extension that files of this kind carry; it is also the hint
    /// given to the format probe.
    pub fn extension(&self) -> (ext: &'static str)
        ensures
            ext@ == self.extension_text(),
    {
        match self {
            AudioFiletype::MP3 => "mp3",
            AudioFiletype::FLAC => "flac",
            AudioFiletype::OGG => "ogg",
        }
    }

    /// The kind that an extension stands for.
    pub fn from_extension(ext: &str) -> (kind: Option<AudioFiletype>)
        ensures
            kind == Self::of_extension(ext@),
    {
        if same_text(ext, "flac") {
            Some(AudioFiletype::FLAC)
        } else if same_text(ext, "mp3") {
            Some(AudioFiletype::MP3)
        } else if same_text(ext, "ogg") {
            Some(AudioFiletype::OGG)
        } else {
            None
        }
    }
}

/// The kind of source that a path names, by its extension.
pub open spec fn source_type_of(path: Seq<char>) -> Option<AudioFiletype> {
    match extension_of(path) {
        Some(ext) => AudioFiletype::of_extension(ext),
        None => None,
    }
}

/// The kind of source that a path names; `None` where the path has no
/// extension or one that names no kind.
pub fn source_type(path: &str) -> (kind: Option<AudioFiletype>)
    ensures
        kind == source_type_of(path@),
{
    match extension(path) {
        Some(ext) => AudioFiletype::from_extension(ext.as_str()),
        None => None,
    }
}

/// Whether an extension marks a file as one to convert: `flac`, `ogg`,
/// `mp3` or `aac`.
pub open spec fn is_convertible_extension(ext: Seq<char>) -> bool {
    ext == "flac"@ || ext == "ogg"@ || ext == "mp3"@ || ext == "aac"@
}

/// Whether a path names a file to convert.
pub open spec fn is_convertible_path(path: Seq<char>) -> bool {
    match extension_of(path) {
        Some(ext) => is_convertible_extension(ext),
        None => false,
    }
}

/// Whether a path names a file to convert.
pub fn is_convertible(path: &str) -> (yes: bool)
    ensures
        yes == is_convertible_path(path@),
{
    match extension(path) {
        Some(ext) => {
            let e = ext.as_str();
            same_text(e, "flac") || same_text(e, "ogg") || same_text(e, "mp3") || same_text(
                e,
                "aac",
            )
        },
        None => false,
    }
}

/// Of the entries of a folder, those to convert, in the order given.
pub fn collect_files_in_folder(entries: Vec<String>) -> (files: Vec<String>)
    ensures
        texts(files@) == texts(entries@).filter(|p: Seq<char>| is_convertible_path(p)),
{
    let ghost keep = |p: Seq<char>| is_convertible_path(p);
    let mut files: Vec<String> = Vec::new();
    let mut i: usize = 0;
    proof {
        reveal(Seq::filter);
        assert(texts(entries@).take(0) =~= Seq::<Seq<char>>::empty());
        assert(texts(files@) =~= Seq::<Seq<char>>::empty());
    }
    while i < entries.len()
        invariant
            i <= entries.len(),
            keep == |p: Seq<char>| is_convertible_path(p),
            texts(files@) == texts(entries@).take(i as int).filter(keep),
        decreases entries.len() - i,
    {
        let ghost before = texts(files@);
        let ghost head = texts(entries@).take(i as int);
        let ghost next = texts(entries@).take(i + 1);
        proof {
            reveal(Seq::filter);
            assert(next.drop_last() =~= head);
            assert(next.last() == entries@[i as int]@);
        }
        if is_convertible(entries[i].as_str()) {
            files.push(entries[i].clone());
            assert(texts(files@) =~= before.push(entries@[i as int]@));
        }
        i = i + 1;
    }
    assert(texts(entries@).take(entries.len() as int) =~= texts(entries@));
    files
}

/// The extension of a kind names that kind again.
pub proof fn lemma_extension_names_its_kind(kind: AudioFiletype)
    ensures
        AudioFiletype::of_extension(kind.extension_text()) == Some(kind),
{
    lemma_extensions_differ();
}

/// A path with the extension of a kind is a source of that kind, and a
/// path is a source of no kind exactly where it has no extension or one
/// that belongs to none of the kinds.
pub proof fn lemma_source_type_by_extension(path: Seq<char>)
    ensures
        forall|kind: AudioFiletype|
            extension_of(path) == Some(kind.extension_text()) ==> #[trigger] source_type_of(path)
                == Some(kind),
        source_type_of(path) is None <==> (extension_of(path) matches Some(ext) ==> ext != "flac"@
            && ext != "mp3"@ && ext != "ogg"@),
{
    assert forall|kind: AudioFiletype|
        extension_of(path) == Some(kind.extension_text()) implies #[trigger] source_type_of(path)
        == Some(kind) by {
        lemma_extension_names_its_kind(kind);
    }
}

/// A separator behind a path, or a separator and a `.`, does not change
/// the kind of source that the path names.
pub proof fn lemma_source_type_ignores_trailing_filler(path: Seq<char>)
    ensures
        source_type_of(path.push('/')) == source_type_of(path),
        source_type_of(path.push('/').push('.')) == source_type_of(path),
        is_convertible_path(path.push('/')) == is_convertible_path(path),
{
    lemma_trailing_filler_is_ignored(path);
}

/// Every source of a kind is a file to convert.
pub proof fn lemma_sources_are_convertible(path: Seq<char>)
    requires
        source_type_of(path) is Some,
    ensures
        is_convertible_path(path),
{
}

/// The three extensions are three different texts.
proof fn lemma_extensions_differ()
    ensures
        "flac"@ != "mp3"@,
        "flac"@ != "ogg"@,
        "mp3"@ != "ogg"@,
{
    reveal_strlit("flac");
    reveal_strlit("mp3");
    reveal_strlit("ogg");
    assert("mp3"@[0] == 'm');
    assert("ogg"@[0] == 'o');
}

} // verus!
