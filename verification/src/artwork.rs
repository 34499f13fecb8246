//! Best-effort lookup of album artwork among the entries of a directory.
//!
//! An entry counts as artwork when it is a regular file whose path ends in
//! one of the image extensions, whatever the case of its ASCII letters. The
//! first such entry of a listing wins; the listing keeps the order in which
//! the file system gave the entries.

use vstd::prelude::*;
use vstd::string::*;

verus! {

/// The ASCII lower-case form of `c`; every other character is left as it is.
pub open spec fn ascii_lower(c: char) -> char {
    if 'A' <= c && c <= 'Z' {
        ((c as u8) + 32) as char
    } else {
        c
    }
}

/// `text` with every ASCII capital folded to its small letter.
pub open spec fn ascii_folded(text: Seq<char>) -> Seq<char> {
    text.map_values(|c: char| ascii_lower(c))
}

/// Whether `path` ends in `extension` once its ASCII capitals are folded.
pub open spec fn has_extension(path: Seq<char>, extension: Seq<char>) -> bool {
    extension.is_suffix_of(ascii_folded(path))
}

/// Whether `path` ends in one of the supported image extensions, in any case.
pub open spec fn is_image_path(path: Seq<char>) -> bool {
    ||| has_extension(path, ".jpeg"@)
    ||| has_extension(path, ".jpg"@)
    ||| has_extension(path, ".gif"@)
    ||| has_extension(path, ".png"@)
    ||| has_extension(path, ".webp"@)
    ||| has_extension(path, ".avif"@)
    ||| has_extension(path, ".tiff"@)
}

/// Folds an ASCII capital letter to its small form.
pub fn to_ascii_lower(c: char) -> (r: char)
    ensures
        r == ascii_lower(c),
{
    if 'A' <= c && c <= 'Z' {
        ((c as u8) + 32) as char
    } else {
        c
    }
}

/// Tells whether `path` ends in `extension`, ignoring the case of the ASCII
/// letters of `path`.
pub fn ends_with_extension(path: &str, extension: &str) -> (r: bool)
    ensures
        r == has_extension(path@, extension@),
{
    let n = path.unicode_len();
    let m = extension.unicode_len();
    if m > n {
        return false;
    }
    let tail = path.substring_char(n - m, n);
    let mut i: usize = 0;
    while i < m
        invariant
            i <= m <= n,
            n == path@.len(),
            m == extension@.len(),
            tail@ == path@.subrange(n - m, n as int),
            forall|j: int| 0 <= j < i ==> ascii_lower(tail@[j]) == extension@[j],
        decreases m - i,
    {
        if to_ascii_lower(tail.get_char(i)) != extension.get_char(i) {
            return false;
        }
        i += 1;
    }
    true
}

/// Tells whether `path` names an image by its extension.
pub fn is_image(path: &str) -> (r: bool)
    ensures
        r == is_image_path(path@),
{
    ends_with_extension(path, ".jpeg") || ends_with_extension(path, ".jpg")
        || ends_with_extension(path, ".gif") || ends_with_extension(path, ".png")
        || ends_with_extension(path, ".webp") || ends_with_extension(path, ".avif")
        || ends_with_extension(path, ".tiff")
}

/// One entry of a directory listing.
#[derive(Debug, Clone, PartialEq, Eq)]
pub enum Entry {
    /// The file system failed to hand this entry out.
    Unreadable,
    /// An entry found at `path`; `regular` tells whether it is a regular file.
    Found { path: String, regular: bool },
}

/// What an [`Entry`] stands for.
pub enum EntryView {
    Unreadable,
    Found { path: Seq<char>, regular: bool },
}

impl View for Entry {
    type V = EntryView;

    open spec fn view(&self) -> EntryView {
        match *self {
            Entry::Unreadable => EntryView::Unreadable,
            Entry::Found { path, regular } => EntryView::Found { path: path@, regular },
        }
    }
}

/// The outcome of listing a directory.
#[derive(Debug, Clone, PartialEq, Eq)]
pub enum Listing {
    /// The directory is missing or could not be read.
    Unreadable,
    /// The entries, in the order in which the file system gave them.
    Entries(Vec<Entry>),
}

/// What a [`Listing`] stands for.
pub enum ListingView {
    Unreadable,
    Entries(Seq<EntryView>),
}

impl View for Listing {
    type V = ListingView;

    open spec fn view(&self) -> ListingView {
        match *self {
            Listing::Unreadable => ListingView::Unreadable,
            Listing::Entries(entries) => ListingView::Entries(
                entries@.map_values(|e: Entry| e@),
            ),
        }
    }
}

/// Whether `entry` is a regular file with an image extension.
pub open spec fn is_artwork(entry: EntryView) -> bool {
    entry matches EntryView::Found { path, regular } && regular && is_image_path(path)
}

/// Whether `entries[i]` is artwork and no entry before it is.
pub open spec fn is_first_artwork(entries: Seq<EntryView>, i: int) -> bool {
    &&& 0 <= i < entries.len()
    &&& is_artwork(entries[i])
    &&& forall|j: int| 0 <= j < i ==> !is_artwork(#[trigger] entries[j])
}

/// The path of the first artwork among `entries`, if there is any.
pub open spec fn first_artwork(entries: Seq<EntryView>) -> Option<Seq<char>> {
    if exists|i: int| is_first_artwork(entries, i) {
        Some(entries[choose|i: int| is_first_artwork(entries, i)]->path)
    } else {
        None
    }
}

/// The artwork that a listing resolves to: the first regular file with an
/// image extension, and nothing where the directory could not be read.
pub open spec fn resolved(listing: ListingView) -> Option<Seq<char>> {
    match listing {
        ListingView::Unreadable => None,
        ListingView::Entries(entries) => first_artwork(entries),
    }
}

/// Picks the artwork out of a directory listing.
///
/// Returns the path of the first entry that is a regular file with an image
/// extension. An unreadable directory, and one without such an entry, give
/// `None`.
pub fn resolve(listing: &Listing) -> (art: Option<String>)
    ensures
        art.deep_view() == resolved(listing@),
{
    match listing {
        Listing::Unreadable => None,
        Listing::Entries(entries) => {
            let ghost views = entries@.map_values(|e: Entry| e@);
            let mut i: usize = 0;
            while i < entries.len()
                invariant
                    i <= entries.len(),
                    views == entries@.map_values(|e: Entry| e@),
                    listing@ == ListingView::Entries(views),
                    forall|j: int| 0 <= j < i ==> !is_artwork(#[trigger] views[j]),
                decreases entries.len() - i,
            {
                match &entries[i] {
                    Entry::Found { path, regular } => {
                        if *regular && is_image(path.as_str()) {
                            proof {
                                lemma_first_artwork_wins(views, i as int);
                            }
                            return Some(path.clone());
                        }
                    },
                    Entry::Unreadable => {},
                }
                i += 1;
            }
            None
        },
    }
}

/// The first artwork of a listing is what the listing resolves to, whatever
/// comes after it.
pub proof fn lemma_first_artwork_wins(entries: Seq<EntryView>, i: int)
    requires
        is_first_artwork(entries, i),
    ensures
        first_artwork(entries) == Some(entries[i]->path),
{
}

/// A listing resolves to nothing exactly when the directory could not be
/// read or none of its entries is a regular file with an image extension.
pub proof fn lemma_resolves_nothing_without_images(listing: ListingView)
    ensures
        resolved(listing) is None <==> (listing matches ListingView::Entries(entries)
            ==> forall|i: int| 0 <= i < entries.len() ==> !is_artwork(#[trigger] entries[i])),
{
    if let ListingView::Entries(entries) = listing {
        if exists|i: int| 0 <= i < entries.len() && is_artwork(#[trigger] entries[i]) {
            let i = choose|i: int| 0 <= i < entries.len() && is_artwork(#[trigger] entries[i]);
            lemma_artwork_has_first(entries, i);
        }
    }
}

/// Where a listing holds at least one regular file with an image extension,
/// it resolves to the path of such an entry: the one that comes first.
pub proof fn lemma_resolves_first_image(entries: Seq<EntryView>, i: int)
    requires
        0 <= i < entries.len(),
        is_artwork(entries[i]),
    ensures
        resolved(ListingView::Entries(entries)) matches Some(path) && is_image_path(path)
            && exists|k: int|
            0 <= k <= i && is_first_artwork(entries, k) && #[trigger] entries[k]
                == (EntryView::Found { path, regular: true }),
{
    lemma_artwork_has_first(entries, i);
}

/// Whether a path is an image path does not depend on the case of its ASCII
/// letters: two paths that fold to the same text are both image paths, or
/// neither is.
pub proof fn lemma_case_does_not_matter(path: Seq<char>, other: Seq<char>)
    requires
        ascii_folded(path) == ascii_folded(other),
    ensures
        is_image_path(path) == is_image_path(other),
{
}

/// An image extension is recognised in any mix of capitals and small letters:
/// whatever `stem` is, `stem + extension` is an image path as soon as
/// `extension`, once folded, ends in one of the supported extensions.
pub proof fn lemma_extension_matches_in_any_case(stem: Seq<char>, extension: Seq<char>)
    requires
        is_image_path(ascii_folded(extension)),
    ensures
        is_image_path(stem + extension),
{
    let path = stem + extension;
    let folded = ascii_folded(extension);
    assert(ascii_folded(path) =~= ascii_folded(stem) + folded);
    assert forall|e: Seq<char>| e.is_suffix_of(ascii_folded(folded)) implies e.is_suffix_of(
        ascii_folded(path),
    ) by {
        let n = ascii_folded(path).len();
        assert(ascii_folded(path).subrange(n - e.len(), n as int) =~= folded.subrange(
            folded.len() - e.len(),
            folded.len() as int,
        ));
    }
}

/// Whatever entry is artwork, some entry at or before it is the first one.
proof fn lemma_artwork_has_first(entries: Seq<EntryView>, i: int)
    requires
        0 <= i < entries.len(),
        is_artwork(entries[i]),
    ensures
        exists|k: int| is_first_artwork(entries, k),
    decreases i,
{
    if exists|j: int| 0 <= j < i && is_artwork(#[trigger] entries[j]) {
        let j = choose|j: int| 0 <= j < i && is_artwork(#[trigger] entries[j]);
        lemma_artwork_has_first(entries, j);
    } else {
        assert(is_first_artwork(entries, i));
    }
}

} // verus!
