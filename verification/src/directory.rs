//! Where the artwork of a track is looked for: the directory of the track's
//! file, taken below the music root.
//!
//! Paths are split and joined by the standard library, which knows the path
//! grammar of the platform that the library is built for; this module names
//! what it answers and decides what is done with it.

use vstd::prelude::*;

verus! {

/// What `std::path::Path::parent` answers for `path`: the path without its
/// last component, and `None` where there is no such component to take off.
pub uninterp spec fn path_parent(path: Seq<char>) -> Option<Seq<char>>;

/// What `std::path::Path::join` answers for `base` and `path`: `path`
/// adjoined to `base` by the rules of the platform.
pub uninterp spec fn path_join(base: Seq<char>, path: Seq<char>) -> Seq<char>;

/// Calls `std::path::Path::parent` on `path`.
///
/// Trusted: the answer is taken to be a function of the text of `path` alone,
/// named [`path_parent`]. Nothing more is claimed of it.
#[verifier::external_body]
fn parent_of(path: &str) -> (parent: Option<String>)
    ensures
        parent.deep_view() == path_parent(path@),
{
    match std::path::Path::new(path).parent() {
        Some(parent) => Some(parent.to_string_lossy().into_owned()),
        None => None,
    }
}

/// Calls `std::path::Path::join` on `base` and `path`.
///
/// Trusted: the answer is taken to be a function of the two texts alone,
/// named [`path_join`]. Nothing more is claimed of it.
#[verifier::external_body]
fn join_onto(base: &str, path: &str) -> (joined: String)
    ensures
        joined@ == path_join(base@, path@),
{
    std::path::Path::new(base).join(path).to_string_lossy().into_owned()
}

/// The directory that holds the artwork of the track stored at `file`: the
/// parent of `file`, joined onto `music_root`. A `file` without a parent has
/// no such directory.
pub open spec fn album_directory_of(music_root: Seq<char>, file: Seq<char>) -> Option<Seq<char>> {
    match path_parent(file) {
        Some(relative) => Some(path_join(music_root, relative)),
        None => None,
    }
}

/// Finds the directory in which the artwork of a track is looked for.
///
/// `file` is the track's path as the server reports it, relative to the
/// server's music directory; `music_root` is that directory on this machine.
pub fn album_directory(music_root: &str, file: &str) -> (directory: Option<String>)
    ensures
        directory.deep_view() == album_directory_of(music_root@, file@),
{
    match parent_of(file) {
        Some(relative) => Some(join_onto(music_root, relative.as_str())),
        None => None,
    }
}

} // verus!
