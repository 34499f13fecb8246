//! What is shown to the user for a track.

use vstd::prelude::*;
use vstd::string::*;
use crate::track::{Track, TrackView, album_of};

verus! {

/// How long a notification stays visible, in milliseconds.
pub const TIMEOUT_MS: u32 = 6000;

/// The summary of a track without a title.
pub open spec fn untitled() -> Seq<char> {
    "No Title"@
}

/// The icon of a track for which no artwork was found: a name that the
/// notification surface resolves by itself.
pub open spec fn generic_icon() -> Seq<char> {
    "audio-x-generic"@
}

/// The key that all notifications of this daemon share.
pub open spec fn grouping_key() -> Seq<char> {
    "mpd-notification"@
}

/// The name of the hint under which the grouping key is handed to the
/// notification surface.
pub open spec fn grouping_hint() -> Seq<char> {
    "x-canonical-private-synchronous"@
}

/// The name of the hint that carries [`NotificationPayload::grouping_key`].
/// A surface that knows the hint replaces the notification it shows under the
/// same key and does not stack a second one.
pub fn grouping_hint_name() -> (name: &'static str)
    ensures
        name@ == grouping_hint(),
{
    "x-canonical-private-synchronous"
}

/// One notification, ready to be handed to the notification surface.
#[derive(Debug, Clone, PartialEq, Eq)]
pub struct NotificationPayload {
    pub summary: String,
    pub body: String,
    /// The path of an image, or the name of an icon.
    pub icon: String,
    pub grouping_key: String,
}

/// What a [`NotificationPayload`] stands for.
pub struct PayloadView {
    pub summary: Seq<char>,
    pub body: Seq<char>,
    pub icon: Seq<char>,
    pub grouping_key: Seq<char>,
}

impl View for NotificationPayload {
    type V = PayloadView;

    open spec fn view(&self) -> PayloadView {
        PayloadView {
            summary: self.summary@,
            body: self.body@,
            icon: self.icon@,
            grouping_key: self.grouping_key@,
        }
    }
}

/// `text`, or the empty text where there is none.
pub open spec fn or_empty(text: Option<Seq<char>>) -> Seq<char> {
    match text {
        Some(t) => t,
        None => Seq::empty(),
    }
}

/// The notification for `track` with the artwork found for it:
/// the title as summary, artist and album on two lines as body, the artwork
/// as icon. What is missing is replaced: an absent title by a fixed text, an
/// absent artist or album by the empty text, absent artwork by a generic icon.
pub open spec fn payload_of(track: TrackView, art: Option<Seq<char>>) -> PayloadView {
    PayloadView {
        summary: match track.title {
            Some(title) => title,
            None => untitled(),
        },
        body: or_empty(track.artist) + "\n"@ + album_of(track.tags),
        icon: match art {
            Some(path) => path,
            None => generic_icon(),
        },
        grouping_key: grouping_key(),
    }
}

/// Builds the notification for `track`; `art` is the artwork that was
/// resolved for it, if any.
pub fn build_payload(track: &Track, art: Option<String>) -> (payload: NotificationPayload)
    ensures
        payload@ == payload_of(track@, art.deep_view()),
{
    let summary = match &track.title {
        Some(title) => title.clone(),
        None => String::from_str("No Title"),
    };
    let mut body = match &track.artist {
        Some(artist) => artist.clone(),
        None => String::new(),
    };
    let album = track.album();
    body.append("\n");
    body.append(album.as_str());
    let icon = match art {
        Some(path) => path,
        None => String::from_str("audio-x-generic"),
    };
    NotificationPayload { summary, body, icon, grouping_key: String::from_str("mpd-notification") }
}

/// Every notification carries the same grouping key, whatever the track and
/// the artwork: a later one can take the place of an earlier one.
pub proof fn lemma_grouping_key_is_shared(
    first: TrackView,
    first_art: Option<Seq<char>>,
    second: TrackView,
    second_art: Option<Seq<char>>,
)
    ensures
        payload_of(first, first_art).grouping_key == payload_of(second, second_art).grouping_key,
        payload_of(first, first_art).grouping_key == grouping_key(),
{
}

/// The body always holds exactly one more character than artist and album
/// together: the line break between them, also where both are empty.
pub proof fn lemma_body_is_two_lines(track: TrackView, art: Option<Seq<char>>)
    ensures
        payload_of(track, art).body.len() == or_empty(track.artist).len() + 1 + album_of(
            track.tags,
        ).len(),
        payload_of(track, art).body[or_empty(track.artist).len() as int] == '\n',
{
    reveal_strlit("\n");
}

} // verus!
