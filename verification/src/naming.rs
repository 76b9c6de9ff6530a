//! Where a converted track is written: the album's directory under the
//! destination and the file's name in it.

use vstd::prelude::*;
use vstd::string::*;
use crate::text::push_char;

verus! {

/// A track number as it stands in a file name: a number of fewer than two
/// characters gets one leading `0` (so the empty number becomes `0`), any
/// other is kept as it is.
pub open spec fn padded_track_number(number: Seq<char>) -> Seq<char> {
    if number.len() > 1 {
        number
    } else {
        "0"@ + number
    }
}

/// Pads a track number to two characters where it has exactly one.
pub fn format_track_number(number: &str) -> (padded: String)
    ensures
        padded@ == padded_track_number(number@),
{
    if number.unicode_len() > 1 {
        String::from_str(number)
    } else {
        String::from_str("0").concat(number)
    }
}

/// What a character of a file name becomes: `:` and `/` turn into `_`.
pub open spec fn sanitized_char(c: char) -> char {
    if c == ':' || c == '/' {
        '_'
    } else {
        c
    }
}

/// A file name with every `:` and every `/` replaced by `_`.
pub open spec fn sanitized(name: Seq<char>) -> Seq<char> {
    Seq::new(name.len(), |i: int| sanitized_char(name[i]))
}

/// Replaces `:` and `/` by `_`; every other character stays.
pub fn sanitize_filename(name: &str) -> (clean: String)
    ensures
        clean@ == sanitized(name@),
{
    let n = name.unicode_len();
    let mut clean = String::new();
    let mut i: usize = 0;
    while i < n
        invariant
            i <= n,
            n == name@.len(),
            clean@ == sanitized(name@.subrange(0, i as int)),
        decreases n - i,
    {
        let c = name.get_char(i);
        let kept = if c == ':' || c == '/' { '_' } else { c };
        push_char(&mut clean, kept);
        assert(clean@ =~= sanitized(name@.subrange(0, i + 1)));
        i = i + 1;
    }
    assert(name@.subrange(0, n as int) =~= name@);
    clean
}

/// The name of the file of a track: padded number, ` - `, title and `.mp3`,
/// sanitized as a whole.
pub open spec fn track_filename(track_number: Seq<char>, title: Seq<char>) -> Seq<char> {
    sanitized(padded_track_number(track_number) + " - "@ + title + ".mp3"@)
}

/// Builds the file name of a track from its number and title.
pub fn output_filename(track_number: &str, title: &str) -> (name: String)
    ensures
        name@ == track_filename(track_number@, title@),
{
    let raw = format_track_number(track_number).concat(" - ").concat(title).concat(".mp3");
    sanitize_filename(raw.as_str())
}

/// Appends text to a path as it is: no separator is added.
pub fn append_to_path(p: String, s: &str) -> (joined: String)
    ensures
        joined@ == p@ + s@,
{
    p.concat(s)
}

/// The directory of an album under a destination: the destination, `/`,
/// the album as it is tagged, and `/`.
pub open spec fn album_directory_of(destination: Seq<char>, album: Seq<char>) -> Seq<char> {
    destination + "/"@ + album + "/"@
}

/// Builds the directory of an album under a destination.
pub fn album_directory(destination: &str, album: &str) -> (dir: String)
    ensures
        dir@ == album_directory_of(destination@, album@),
{
    let second_half = String::from_str("/").concat(album).concat("/");
    let dir = append_to_path(String::from_str(destination), second_half.as_str());
    assert(dir@ =~= album_directory_of(destination@, album@));
    dir
}

} // verus!
