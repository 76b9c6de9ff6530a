//! Paths as text, read as `std::path` reads them on Unix: components are
//! separated by `/`, and what trails the last component and names nothing
//! (separators, and `.` for the directory itself) is not part of it.

use vstd::prelude::*;
use vstd::string::*;
use crate::text::{copy_range, find_last, last_position, lemma_last_position, same_text};

verus! {

/// Whether a path ends in something that names nothing: a `/`, or a `.`
/// that stands behind a `/` as a component of its own.
pub open spec fn ends_in_filler(path: Seq<char>) -> bool {
    path.len() > 0 && (path.last() == '/' || (path.last() == '.' && path.len() >= 2 && path[path.len()
        - 2] == '/'))
}

/// The length of a path without what trails its last component.
pub open spec fn trimmed_len(path: Seq<char>) -> int
    decreases path.len(),
{
    if ends_in_filler(path) {
        trimmed_len(path.drop_last())
    } else {
        path.len() as int
    }
}

/// A path without what trails its last component: `a/b.mp3/`, `a/b.mp3//`
/// and `a/b.mp3/.` all become `a/b.mp3`.
pub open spec fn trimmed(path: Seq<char>) -> Seq<char> {
    path.subrange(0, trimmed_len(path))
}

/// Where the last component of a path starts: behind the last `/` of the
/// trimmed path, or at 0 where that has none.
pub open spec fn file_name_start(path: Seq<char>) -> int {
    last_position(trimmed(path), '/') + 1
}

/// The last component of a path: what follows the last `/` of the trimmed
/// path.
pub open spec fn file_name_of(path: Seq<char>) -> Seq<char> {
    trimmed(path).subrange(file_name_start(path), trimmed(path).len() as int)
}

/// The component that names the directory above.
pub open spec fn parent_component() -> Seq<char> {
    seq!['.', '.']
}

/// The extension of a path: what follows the last `.` of its last
/// component. A component without a `.`, or whose only `.` is its first
/// character, has none, and neither has `..`.
pub open spec fn extension_of(path: Seq<char>) -> Option<Seq<char>> {
    let name = file_name_of(path);
    let dot = last_position(name, '.');
    if dot <= 0 || name == parent_component() {
        None
    } else {
        Some(name.subrange(dot + 1, name.len() as int))
    }
}

/// The directory that holds the last component of a path: what stands
/// before the last `/` of the trimmed path; `/` itself where that is the
/// only one and leads the path; `.` where the trimmed path has no `/`.
pub open spec fn parent_of(path: Seq<char>) -> Seq<char> {
    let slash = last_position(trimmed(path), '/');
    if slash < 0 {
        "."@
    } else if slash == 0 {
        "/"@
    } else {
        trimmed(path).subrange(0, slash)
    }
}

/// Whether the first `end` characters of a path end in something that
/// names nothing.
fn filler_before(path: &str, end: usize) -> (filler: bool)
    requires
        end <= path@.len(),
    ensures
        filler == ends_in_filler(path@.subrange(0, end as int)),
{
    if end == 0 {
        return false;
    }
    let last = path.get_char(end - 1);
    if last == '/' {
        true
    } else if last == '.' && end >= 2 {
        path.get_char(end - 2) == '/'
    } else {
        false
    }
}

/// Leaves out what trails the last component of a path.
pub fn trim_path(path: &str) -> (kept: String)
    ensures
        kept@ == trimmed(path@),
{
    let n = path.unicode_len();
    let mut end: usize = n;
    assert(path@.subrange(0, n as int) =~= path@);
    while filler_before(path, end)
        invariant
            end <= n,
            n == path@.len(),
            trimmed_len(path@) == trimmed_len(path@.subrange(0, end as int)),
        decreases end,
    {
        assert(path@.subrange(0, end as int).drop_last() =~= path@.subrange(0, end - 1));
        end = end - 1;
    }
    copy_range(path, 0, end)
}

/// The last component of a path.
pub fn file_name(path: &str) -> (name: String)
    ensures
        name@ == file_name_of(path@),
{
    let kept = trim_path(path);
    proof {
        lemma_last_position(kept@, '/');
    }
    let n = kept.as_str().unicode_len();
    match find_last(kept.as_str(), '/') {
        Some(slash) => copy_range(kept.as_str(), slash + 1, n),
        None => copy_range(kept.as_str(), 0, n),
    }
}

/// The extension of a path, where it has one.
pub fn extension(path: &str) -> (ext: Option<String>)
    ensures
        ext is Some == extension_of(path@) is Some,
        ext matches Some(e) ==> Some(e@) == extension_of(path@),
{
    let name = file_name(path);
    let n = name.as_str().unicode_len();
    proof {
        lemma_last_position(name@, '.');
        reveal_strlit("..");
        assert(".."@ =~= parent_component());
    }
    if same_text(name.as_str(), "..") {
        return None;
    }
    match find_last(name.as_str(), '.') {
        Some(dot) => {
            if dot == 0 {
                None
            } else {
                Some(copy_range(name.as_str(), dot + 1, n))
            }
        },
        None => None,
    }
}

/// The directory that holds the last component of a path.
pub fn parent_directory(path: &str) -> (dir: String)
    ensures
        dir@ == parent_of(path@),
{
    let kept = trim_path(path);
    proof {
        lemma_last_position(kept@, '/');
    }
    match find_last(kept.as_str(), '/') {
        Some(slash) => {
            if slash == 0 {
                String::from_str("/")
            } else {
                copy_range(kept.as_str(), 0, slash)
            }
        },
        None => String::from_str("."),
    }
}

/// The trimmed path is the start of the path; it does not end in anything
/// that names nothing, and what was left out holds only `/` and `.`.
pub proof fn lemma_trimmed(path: Seq<char>)
    ensures
        0 <= trimmed_len(path) <= path.len(),
        !ends_in_filler(trimmed(path)),
        forall|i: int| trimmed_len(path) <= i < path.len() ==> path[i] == '/' || path[i] == '.',
        trimmed_len(path) < path.len() ==> path[trimmed_len(path)] == '/',
    decreases path.len(),
{
    if ends_in_filler(path) {
        let head = path.drop_last();
        lemma_trimmed(head);
        assert(trimmed(head) =~= trimmed(path));
        assert forall|i: int| trimmed_len(path) <= i < path.len() implies path[i] == '/' || path[i]
            == '.' by {
            if i < head.len() {
                assert(head[i] == path[i]);
            }
        }
        if trimmed_len(path) < head.len() {
            assert(head[trimmed_len(path)] == path[trimmed_len(path)]);
        }
    } else {
        assert(trimmed(path) =~= path);
    }
}

/// A path that ends in nothing that names nothing is trimmed already, and
/// trimming once is enough.
pub proof fn lemma_trimmed_is_stable(path: Seq<char>)
    ensures
        trimmed(trimmed(path)) == trimmed(path),
{
    lemma_trimmed(path);
    assert(trimmed(trimmed(path)) =~= trimmed(path));
}

/// Trailing separators and a trailing `.` component do not change what a
/// path names: its last component, its extension and its directory.
pub proof fn lemma_trailing_filler_is_ignored(path: Seq<char>)
    ensures
        file_name_of(path.push('/')) == file_name_of(path),
        extension_of(path.push('/')) == extension_of(path),
        parent_of(path.push('/')) == parent_of(path),
        file_name_of(path.push('/').push('.')) == file_name_of(path),
        extension_of(path.push('/').push('.')) == extension_of(path),
        parent_of(path.push('/').push('.')) == parent_of(path),
{
    let a = path.push('/');
    let b = a.push('.');
    assert(a.drop_last() =~= path);
    assert(b.drop_last() =~= a);
    assert(ends_in_filler(a));
    assert(ends_in_filler(b));
    lemma_trimmed(path);
    assert(trimmed(a) =~= trimmed(path));
    assert(trimmed(b) =~= trimmed(path));
}

/// The last component of a path holds no `/`, and the trimmed path is what
/// stands before it followed by it.
pub proof fn lemma_file_name_is_last_component(path: Seq<char>)
    ensures
        0 <= file_name_start(path) <= trimmed(path).len(),
        forall|i: int| 0 <= i < file_name_of(path).len() ==> file_name_of(path)[i] != '/',
        file_name_start(path) > 0 ==> trimmed(path)[file_name_start(path) - 1] == '/',
        trimmed(path) == trimmed(path).subrange(0, file_name_start(path)) + file_name_of(path),
{
    lemma_last_position(trimmed(path), '/');
    assert(trimmed(path) =~= trimmed(path).subrange(0, file_name_start(path)) + file_name_of(
        path,
    ));
}

/// The extension of a path holds no `.` and no `/`, and the last component
/// ends with `.` and the extension.
pub proof fn lemma_extension_is_suffix(path: Seq<char>)
    requires
        extension_of(path) is Some,
    ensures
        ({
            let name = file_name_of(path);
            let ext = extension_of(path).unwrap();
            &&& ext.len() < name.len() - 1
            &&& name =~= name.subrange(0, name.len() - ext.len() - 1) + seq!['.'] + ext
            &&& forall|i: int| 0 <= i < ext.len() ==> ext[i] != '.' && ext[i] != '/'
        }),
{
    let name = file_name_of(path);
    lemma_last_position(trimmed(path), '/');
    lemma_last_position(name, '.');
}

} // verus!
