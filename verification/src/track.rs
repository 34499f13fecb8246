//! The track that the server reports as playing.

use vstd::prelude::*;
use vstd::string::*;

verus! {

/// A snapshot of the item that is playing.
#[derive(Debug, Clone, PartialEq, Eq)]
pub struct Track {
    /// The path of the file, relative to the server's music directory.
    pub file: String,
    pub title: Option<String>,
    pub artist: Option<String>,
    /// The remaining tags, by name and value, in the order in which the
    /// server sent them. A name may occur more than once.
    pub tags: Vec<(String, String)>,
}

/// What a [`Track`] stands for.
pub struct TrackView {
    pub file: Seq<char>,
    pub title: Option<Seq<char>>,
    pub artist: Option<Seq<char>>,
    pub tags: Seq<(Seq<char>, Seq<char>)>,
}

impl View for Track {
    type V = TrackView;

    open spec fn view(&self) -> TrackView {
        TrackView {
            file: self.file@,
            title: self.title.deep_view(),
            artist: self.artist.deep_view(),
            tags: self.tags.deep_view(),
        }
    }
}

/// Whether `tags[i]` is named "Album" and no tag before it is.
pub open spec fn is_first_album(tags: Seq<(Seq<char>, Seq<char>)>, i: int) -> bool {
    &&& 0 <= i < tags.len()
    &&& tags[i].0 == "Album"@
    &&& forall|j: int| 0 <= j < i ==> (#[trigger] tags[j]).0 != "Album"@
}

/// The value of the first tag named "Album", and the empty text where no tag
/// has that name. The name is matched as it stands, capitals included.
pub open spec fn album_of(tags: Seq<(Seq<char>, Seq<char>)>) -> Seq<char> {
    if exists|i: int| is_first_album(tags, i) {
        tags[choose|i: int| is_first_album(tags, i)].1
    } else {
        Seq::empty()
    }
}

impl Track {
    /// The name of the album that the track belongs to, as far as its tags
    /// tell: the value of the first tag named "Album".
    pub fn album(&self) -> (album: String)
        ensures
            album@ == album_of(self@.tags),
    {
        let key = String::from_str("Album");
        let ghost tags = self@.tags;
        let mut i: usize = 0;
        while i < self.tags.len()
            invariant
                i <= self.tags.len(),
                key@ == "Album"@,
                tags == self@.tags,
                forall|j: int| 0 <= j < i ==> (#[trigger] tags[j]).0 != "Album"@,
            decreases self.tags.len() - i,
        {
            if self.tags[i].0 == key {
                proof {
                    lemma_first_album_wins(tags, i as int);
                }
                return self.tags[i].1.clone();
            }
            i += 1;
        }
        String::new()
    }
}

/// Among tags of which at least one is named "Album", the album is the value
/// of the one that comes first, whatever follows it.
pub proof fn lemma_first_album_wins(tags: Seq<(Seq<char>, Seq<char>)>, i: int)
    requires
        is_first_album(tags, i),
    ensures
        album_of(tags) == tags[i].1,
{
}

} // verus!
