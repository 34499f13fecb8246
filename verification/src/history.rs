//! What holds of a session over a whole sequence of events.

use vstd::prelude::*;
use crate::artwork::{ListingView, resolved};
use crate::directory::album_directory_of;
use crate::notification::payload_of;
use crate::session::{
    ActionView, EventView, PhaseView, PlaybackState, SessionView, dispatch_of, transition,
};
use crate::track::TrackView;

verus! {

/// The session reached from `session` once all of `events` have been taken
/// in, one after the other.
pub open spec fn session_after(session: SessionView, events: Seq<EventView>) -> SessionView
    decreases events.len(),
{
    if events.len() == 0 {
        session
    } else {
        transition(session_after(session, events.drop_last()), events.last()).0
    }
}

/// The action with which the session answers `events[i]`, having started as
/// `session` and taken in the events before it.
pub open spec fn action_at(session: SessionView, events: Seq<EventView>, i: int) -> ActionView {
    transition(session_after(session, events.take(i)), events[i]).1
}

/// Whether `action` belongs to the announcing of a track: asking for the
/// track, looking for its artwork, or showing the notification.
pub open spec fn announces(action: ActionView) -> bool {
    action is QueryCurrentTrack || action is Scan || action is Dispatch
}

/// Whether the status that was reported last, at `events[i]` or before it,
/// said that the player is playing.
pub open spec fn last_status_is_playing(events: Seq<EventView>, i: int) -> bool {
    exists|k: int|
        0 <= k <= i && #[trigger] events[k] == EventView::Status(PlaybackState::Playing)
            && forall|j: int| k < j <= i ==> !(#[trigger] events[j] is Status)
}

/// Whether a session in `phase` is in the middle of announcing a track.
pub open spec fn is_announcing(phase: PhaseView) -> bool {
    phase is AwaitingTrack || phase is AwaitingListing
}

/// The events of one round in which the player is playing `track` and the
/// directory of the track lists as `listing`; `shown` tells whether the
/// notification could be shown.
pub open spec fn playing_round(track: TrackView, listing: ListingView, shown: bool) -> Seq<
    EventView,
> {
    seq![
        EventView::Changed,
        EventView::Status(PlaybackState::Playing),
        EventView::CurrentTrack(Some(track)),
        EventView::Listed(listing),
        if shown {
            EventView::Dispatched
        } else {
            EventView::DispatchFailed
        },
    ]
}

/// Taking in `events` and then one more event is one transition from where
/// `events` led.
pub proof fn lemma_session_after_push(
    session: SessionView,
    events: Seq<EventView>,
    event: EventView,
)
    ensures
        session_after(session, events.push(event)) == transition(
            session_after(session, events),
            event,
        ).0,
{
    assert(events.push(event).drop_last() =~= events);
}

/// Taking in two sequences of events in a row is taking in the first, and
/// then the second from where the first led.
pub proof fn lemma_session_after_concat(
    session: SessionView,
    first: Seq<EventView>,
    second: Seq<EventView>,
)
    ensures
        session_after(session, first + second) == session_after(
            session_after(session, first),
            second,
        ),
    decreases second.len(),
{
    if second.len() == 0 {
        assert(first + second =~= first);
    } else {
        lemma_session_after_concat(session, first, second.drop_last());
        assert((first + second).drop_last() =~= first + second.drop_last());
    }
}

/// The music directory of a session never changes.
pub proof fn lemma_music_root_is_kept(session: SessionView, events: Seq<EventView>)
    ensures
        session_after(session, events).music_root == session.music_root,
    decreases events.len(),
{
    if events.len() > 0 {
        lemma_music_root_is_kept(session, events.drop_last());
    }
}

/// A session that is over answers every further event by stopping again.
pub proof fn lemma_stopped_is_final(session: SessionView, events: Seq<EventView>, i: int)
    requires
        session.phase is Stopped,
        0 <= i < events.len(),
    ensures
        session_after(session, events) == session,
        action_at(session, events, i) == ActionView::Stop(session.phase->Stopped_0),
{
    lemma_stopped_stays(session, events.take(i));
    lemma_stopped_stays(session, events);
}

/// The track is asked for only in answer to a status that says the player is
/// playing: never after one that says it is stopped or paused.
pub proof fn lemma_track_is_queried_only_on_playing(
    session: SessionView,
    events: Seq<EventView>,
    i: int,
)
    requires
        0 <= i < events.len(),
        action_at(session, events, i) is QueryCurrentTrack,
    ensures
        events[i] == EventView::Status(PlaybackState::Playing),
{
}

/// However a session that is not in the middle of announcing a track goes
/// on, each step that asks for the track, scans for artwork or dispatches a
/// notification comes while the status reported last is Playing. After a
/// status of Stopped or Paused none of the three happens until a later status
/// says Playing.
pub proof fn lemma_announces_only_while_playing(
    session: SessionView,
    events: Seq<EventView>,
    i: int,
)
    requires
        !is_announcing(session.phase),
        0 <= i < events.len(),
        announces(action_at(session, events, i)),
    ensures
        last_status_is_playing(events, i),
{
    lemma_announcing_follows_playing(session, events, i);
}

/// However a session that is not in the middle of announcing a track goes
/// on, the notification that it dispatches is the one for a track that was
/// just fetched: the track arrived with the same event, or with the event
/// before. Without a track nothing is dispatched.
pub proof fn lemma_dispatches_for_fetched_track(
    session: SessionView,
    events: Seq<EventView>,
    i: int,
)
    requires
        !is_announcing(session.phase),
        0 <= i < events.len(),
        action_at(session, events, i) is Dispatch,
    ensures
        exists|track: TrackView, art: Option<Seq<char>>|
            action_at(session, events, i) == dispatch_of(#[trigger] payload_of(track, art)) && (
            events[i] == EventView::CurrentTrack(Some(track)) || (i >= 1 && events[i - 1]
                == EventView::CurrentTrack(Some(track)))),
{
    lemma_announcing_follows_playing(session, events, i);
}

/// A round in which the player is playing a track leads from the wait for a
/// change back to it, and on the way dispatches the notification for the
/// track with the artwork that its directory resolves to. The session keeps
/// nothing of the round: when the same round comes again, the same
/// notification is dispatched again.
pub proof fn lemma_playing_round_dispatches(
    session: SessionView,
    track: TrackView,
    listing: ListingView,
    shown: bool,
    shown_again: bool,
)
    requires
        session.phase is AwaitingChange,
        album_directory_of(session.music_root, track.file) is Some,
    ensures
        ({
            let round = playing_round(track, listing, shown);
            let again = playing_round(track, listing, shown_again);
            let dispatch = dispatch_of(payload_of(track, resolved(listing)));
            &&& session_after(session, round) == session
            &&& action_at(session, round, 0) == ActionView::QueryStatus
            &&& action_at(session, round, 1) == ActionView::QueryCurrentTrack
            &&& action_at(session, round, 2) == ActionView::Scan(
                album_directory_of(session.music_root, track.file)->0,
            )
            &&& action_at(session, round, 3) == dispatch
            &&& action_at(session, round, 4) == ActionView::AwaitPlayerChange
            &&& action_at(session, round + again, 8) == dispatch
        }),
{
    let round = playing_round(track, listing, shown);
    let again = playing_round(track, listing, shown_again);
    lemma_round_unrolled(session, track, listing, shown);
    lemma_round_unrolled(session, track, listing, shown_again);
    assert((round + again).take(8) =~= round + again.take(3));
    lemma_session_after_concat(session, round, again.take(3));
}

/// The five steps of a playing round, one by one.
proof fn lemma_round_unrolled(
    session: SessionView,
    track: TrackView,
    listing: ListingView,
    shown: bool,
)
    requires
        session.phase is AwaitingChange,
        album_directory_of(session.music_root, track.file) is Some,
    ensures
        ({
            let round = playing_round(track, listing, shown);
            let root = session.music_root;
            &&& session_after(session, round.take(0)) == session
            &&& session_after(session, round.take(1)) == (SessionView {
                music_root: root,
                phase: PhaseView::AwaitingStatus,
            })
            &&& session_after(session, round.take(2)) == (SessionView {
                music_root: root,
                phase: PhaseView::AwaitingTrack,
            })
            &&& session_after(session, round.take(3)) == (SessionView {
                music_root: root,
                phase: PhaseView::AwaitingListing(track),
            })
            &&& session_after(session, round.take(4)) == (SessionView {
                music_root: root,
                phase: PhaseView::AwaitingDispatch,
            })
            &&& session_after(session, round) == session
        }),
{
    let round = playing_round(track, listing, shown);
    assert(round.take(0) =~= Seq::empty());
    assert(round.take(1) =~= round.take(0).push(round[0]));
    lemma_session_after_push(session, round.take(0), round[0]);
    assert(round.take(2) =~= round.take(1).push(round[1]));
    lemma_session_after_push(session, round.take(1), round[1]);
    assert(round.take(3) =~= round.take(2).push(round[2]));
    lemma_session_after_push(session, round.take(2), round[2]);
    assert(round.take(4) =~= round.take(3).push(round[3]));
    lemma_session_after_push(session, round.take(3), round[3]);
    assert(round =~= round.take(4).push(round[4]));
    lemma_session_after_push(session, round.take(4), round[4]);
}

/// A session that is over stays as it is.
proof fn lemma_stopped_stays(session: SessionView, events: Seq<EventView>)
    requires
        session.phase is Stopped,
    ensures
        session_after(session, events) == session,
    decreases events.len(),
{
    if events.len() > 0 {
        lemma_stopped_stays(session, events.drop_last());
    }
}

/// Where a session stands in the middle of announcing a track after `n`
/// events, the events just before tell why: the status said Playing, and
/// nothing but the track came after it.
proof fn lemma_announcing_follows_playing(session: SessionView, events: Seq<EventView>, n: int)
    requires
        !is_announcing(session.phase),
        0 <= n <= events.len(),
    ensures
        session_after(session, events.take(n)).phase is AwaitingTrack ==> n >= 1 && events[n - 1]
            == EventView::Status(PlaybackState::Playing),
        session_after(session, events.take(n)).phase matches PhaseView::AwaitingListing(track)
            ==> n >= 2 && events[n - 2] == EventView::Status(PlaybackState::Playing) && events[n
            - 1] == EventView::CurrentTrack(Some(track)),
    decreases n,
{
    if n > 0 {
        lemma_announcing_follows_playing(session, events, n - 1);
        assert(events.take(n).drop_last() =~= events.take(n - 1));
    }
}

} // verus!
