//! The extension filter: which changed paths count.

use std::path::Path;
use vstd::prelude::*;
use vstd::string::*;

verus! {

/// The extension of the path `path`, without the dot: what
/// `std::path::Path::extension` returns for that path, in the path syntax of
/// the platform that the library is built for, read as text. `None` where the
/// path has no extension.
pub uninterp spec fn path_extension(path: Seq<char>) -> Option<Seq<char>>;

/// The texts that a sequence of strings holds.
pub open spec fn texts(strings: Seq<String>) -> Seq<Seq<char>> {
    strings.map_values(|s: String| s@)
}

/// The text that an optional string slice holds.
pub open spec fn text_of(s: Option<&str>) -> Option<Seq<char>> {
    match s {
        Some(t) => Some(t@),
        None => None,
    }
}

/// Whether a path with the extension `ext` passes the filter `extensions`. The
/// empty filter lets every path pass. Any other lets a path pass when its
/// extension is one of the entries, compared letter for letter.
pub open spec fn extension_allowed(ext: Option<Seq<char>>, extensions: Seq<Seq<char>>) -> bool {
    extensions.len() == 0 || match ext {
        Some(e) => extensions.contains(e),
        None => false,
    }
}

/// Whether any of `paths` passes the filter `extensions`.
pub open spec fn some_path_allowed(paths: Seq<Seq<char>>, extensions: Seq<Seq<char>>) -> bool {
    exists|i: int|
        0 <= i < paths.len() && extension_allowed(path_extension(#[trigger] paths[i]), extensions)
}

/// The empty filter lets every path pass, with an extension or without.
pub proof fn lemma_empty_filter_allows_all(ext: Option<Seq<char>>)
    ensures
        extension_allowed(ext, Seq::<Seq<char>>::empty()),
{
}

/// A path without an extension passes no filter but the empty one.
pub proof fn lemma_no_extension_needs_empty_filter(extensions: Seq<Seq<char>>)
    ensures
        extension_allowed(None, extensions) <==> extensions.len() == 0,
{
}

/// Calls `std::path::Path::extension` on `path` and reads the result as text.
/// The contract claims only that the result is a function of the path's text,
/// the one that [`path_extension`] names. Nothing is proved of it.
#[verifier::external_body]
fn extension_of(path: &str) -> (ext: Option<&str>)
    ensures
        text_of(ext) == path_extension(path@),
{
    Path::new(path).extension()?.to_str()
}

/// Whether a path whose extension is `ext` passes the filter `extensions`.
pub fn extension_matches(ext: Option<&str>, extensions: &[String]) -> (matches: bool)
    ensures
        matches == extension_allowed(text_of(ext), texts(extensions@)),
{
    if extensions.len() == 0 {
        return true;
    }
    match ext {
        None => false,
        Some(e) => {
            let wanted = String::from_str(e);
            let mut i: usize = 0;
            while i < extensions.len()
                invariant
                    i <= extensions@.len(),
                    wanted@ == e@,
                    text_of(ext) == Some(e@),
                    forall|j: int| 0 <= j < i ==> texts(extensions@)[j] != e@,
                decreases extensions@.len() - i,
            {
                if extensions[i] == wanted {
                    assert(texts(extensions@)[i as int] == e@);
                    return true;
                }
                i += 1;
            }
            false
        },
    }
}

/// Whether `path` passes the filter `extensions`: always with the empty filter,
/// else when the path's extension is one of the entries.
pub fn has_matching_extension(path: &str, extensions: &[String]) -> (matches: bool)
    ensures
        matches == extension_allowed(path_extension(path@), texts(extensions@)),
        extensions@.len() == 0 ==> matches,
{
    if extensions.len() == 0 {
        return true;
    }
    extension_matches(extension_of(path), extensions)
}

/// Whether any of `paths` passes the filter `extensions`.
pub fn any_path_matches(paths: &[String], extensions: &[String]) -> (matches: bool)
    ensures
        matches == some_path_allowed(texts(paths@), texts(extensions@)),
{
    let mut i: usize = 0;
    while i < paths.len()
        invariant
            i <= paths@.len(),
            forall|j: int|
                0 <= j < i ==> !extension_allowed(
                    path_extension(#[trigger] texts(paths@)[j]),
                    texts(extensions@),
                ),
        decreases paths@.len() - i,
    {
        if has_matching_extension(paths[i].as_str(), extensions) {
            assert(texts(paths@)[i as int] == paths@[i as int]@);
            return true;
        }
        i += 1;
    }
    false
}

} // verus!
