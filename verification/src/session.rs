//! The session with the player server, as a state machine.
//!
//! The machine does no work on the outside itself. It is handed the outcome
//! of the last thing that was done ([`Event`]) and answers with the next thing
//! to do ([`Action`]). The caller owns the connection, performs each action
//! and reports what came of it.

use vstd::prelude::*;
use vstd::string::*;
use crate::artwork::{Listing, ListingView, resolve, resolved};
use crate::directory::{album_directory, album_directory_of};
use crate::notification::{
    NotificationPayload, PayloadView, TIMEOUT_MS, build_payload, grouping_hint,
    grouping_hint_name, payload_of,
};
use crate::track::{Track, TrackView};

verus! {

/// What the player is doing, as the server reports it.
#[derive(Debug, Clone, Copy, PartialEq, Eq)]
pub enum PlaybackState {
    Stopped,
    Paused,
    Playing,
}

/// Why a session came to its end.
#[derive(Debug, Clone, Copy, PartialEq, Eq)]
pub enum StopReason {
    /// The server could not be reached.
    NoConnection,
    /// Waiting for a change failed.
    WaitFailed,
    /// Asking for the current track failed.
    TrackQueryFailed,
    /// An event was reported that answers no action of the session.
    UnexpectedEvent,
}

/// What a session is waiting for.
#[derive(Debug, Clone, PartialEq, Eq)]
pub enum Phase {
    /// For the connection to the server.
    Connecting,
    /// For the server to report a change of the player.
    AwaitingChange,
    /// For the status of the player.
    AwaitingStatus,
    /// For the track that is playing.
    AwaitingTrack,
    /// For the listing of the directory of this track.
    AwaitingListing(Track),
    /// For the notification to be handed over.
    AwaitingDispatch,
    /// For nothing: the session is over.
    Stopped(StopReason),
}

/// What a [`Phase`] stands for.
pub enum PhaseView {
    Connecting,
    AwaitingChange,
    AwaitingStatus,
    AwaitingTrack,
    AwaitingListing(TrackView),
    AwaitingDispatch,
    Stopped(StopReason),
}

impl View for Phase {
    type V = PhaseView;

    open spec fn view(&self) -> PhaseView {
        match *self {
            Phase::Connecting => PhaseView::Connecting,
            Phase::AwaitingChange => PhaseView::AwaitingChange,
            Phase::AwaitingStatus => PhaseView::AwaitingStatus,
            Phase::AwaitingTrack => PhaseView::AwaitingTrack,
            Phase::AwaitingListing(track) => PhaseView::AwaitingListing(track@),
            Phase::AwaitingDispatch => PhaseView::AwaitingDispatch,
            Phase::Stopped(reason) => PhaseView::Stopped(reason),
        }
    }
}

/// What came of the last action.
#[derive(Debug, Clone, PartialEq, Eq)]
pub enum Event {
    Connected,
    ConnectFailed,
    /// The server reported a change of the player.
    Changed,
    WaitFailed,
    Status(PlaybackState),
    StatusFailed,
    /// The track that is playing, or `None` where nothing is.
    CurrentTrack(Option<Track>),
    TrackQueryFailed,
    Listed(Listing),
    Dispatched,
    DispatchFailed,
}

/// What an [`Event`] stands for.
pub enum EventView {
    Connected,
    ConnectFailed,
    Changed,
    WaitFailed,
    Status(PlaybackState),
    StatusFailed,
    CurrentTrack(Option<TrackView>),
    TrackQueryFailed,
    Listed(ListingView),
    Dispatched,
    DispatchFailed,
}

impl View for Event {
    type V = EventView;

    open spec fn view(&self) -> EventView {
        match *self {
            Event::Connected => EventView::Connected,
            Event::ConnectFailed => EventView::ConnectFailed,
            Event::Changed => EventView::Changed,
            Event::WaitFailed => EventView::WaitFailed,
            Event::Status(state) => EventView::Status(state),
            Event::StatusFailed => EventView::StatusFailed,
            Event::CurrentTrack(Some(track)) => EventView::CurrentTrack(Some(track@)),
            Event::CurrentTrack(None) => EventView::CurrentTrack(None),
            Event::TrackQueryFailed => EventView::TrackQueryFailed,
            Event::Listed(listing) => EventView::Listed(listing@),
            Event::Dispatched => EventView::Dispatched,
            Event::DispatchFailed => EventView::DispatchFailed,
        }
    }
}

/// What is to be done next.
#[derive(Debug, Clone, PartialEq, Eq)]
pub enum Action {
    /// Connect to the server at this address.
    Connect(String),
    /// Block until the server reports a change of the player; changes of
    /// other subsystems are not waited for.
    AwaitPlayerChange,
    QueryStatus,
    QueryCurrentTrack,
    /// List the entries of this directory.
    Scan(String),
    /// Hand `payload` to the notification surface, to be shown for
    /// `timeout_ms` milliseconds. The grouping key of the payload goes with
    /// it as the hint named `grouping_hint`.
    Dispatch { payload: NotificationPayload, grouping_hint: String, timeout_ms: u32 },
    /// Do nothing more.
    Stop(StopReason),
}

/// What an [`Action`] stands for.
pub enum ActionView {
    Connect(Seq<char>),
    AwaitPlayerChange,
    QueryStatus,
    QueryCurrentTrack,
    Scan(Seq<char>),
    Dispatch { payload: PayloadView, grouping_hint: Seq<char>, timeout_ms: u32 },
    Stop(StopReason),
}

impl View for Action {
    type V = ActionView;

    open spec fn view(&self) -> ActionView {
        match *self {
            Action::Connect(address) => ActionView::Connect(address@),
            Action::AwaitPlayerChange => ActionView::AwaitPlayerChange,
            Action::QueryStatus => ActionView::QueryStatus,
            Action::QueryCurrentTrack => ActionView::QueryCurrentTrack,
            Action::Scan(directory) => ActionView::Scan(directory@),
            Action::Dispatch { payload, grouping_hint, timeout_ms } => ActionView::Dispatch {
                payload: payload@,
                grouping_hint: grouping_hint@,
                timeout_ms,
            },
            Action::Stop(reason) => ActionView::Stop(reason),
        }
    }
}

/// One session: the music directory of this machine and the phase reached.
#[derive(Debug, Clone, PartialEq, Eq)]
pub struct Session {
    pub music_root: String,
    pub phase: Phase,
}

/// What a [`Session`] stands for.
pub struct SessionView {
    pub music_root: Seq<char>,
    pub phase: PhaseView,
}

impl View for Session {
    type V = SessionView;

    open spec fn view(&self) -> SessionView {
        SessionView { music_root: self.music_root@, phase: self.phase@ }
    }
}

/// The address of the server where none is configured.
pub open spec fn default_address() -> Seq<char> {
    "127.0.0.1:6600"@
}

/// The address to connect to: the configured one, or the default.
pub open spec fn address_of(configured: Option<Seq<char>>) -> Seq<char> {
    match configured {
        Some(address) => address,
        None => default_address(),
    }
}

/// The handing over of `payload`: always for the same time, and under the
/// same hint.
pub open spec fn dispatch_of(payload: PayloadView) -> ActionView {
    ActionView::Dispatch { payload, grouping_hint: grouping_hint(), timeout_ms: TIMEOUT_MS }
}

/// What follows the arrival of the playing track, once the directory of its
/// file is known: the directory is scanned for artwork; a track whose file
/// has no directory is announced at once, without artwork.
pub open spec fn after_track(track: TrackView, directory: Option<Seq<char>>) -> (
    PhaseView,
    ActionView,
) {
    match directory {
        Some(directory) => (PhaseView::AwaitingListing(track), ActionView::Scan(directory)),
        None => (PhaseView::AwaitingDispatch, dispatch_of(payload_of(track, None))),
    }
}

/// The end of a session, for the given reason.
pub open spec fn stopped(reason: StopReason) -> (PhaseView, ActionView) {
    (PhaseView::Stopped(reason), ActionView::Stop(reason))
}

/// The phase that follows `phase` on `event`, and the action to take.
///
/// A round goes from the wait for a change over status, track and listing to
/// the notification, and is cut short as soon as there is nothing to announce:
/// the player is not playing, the status is not to be had, or no track is
/// current. A notification that could not be shown ends the round like one
/// that could. A failed wait or track query ends the session, and so does an
/// event that the phase was not waiting for. A session that is over stays so.
pub open spec fn next(music_root: Seq<char>, phase: PhaseView, event: EventView) -> (
    PhaseView,
    ActionView,
) {
    match (phase, event) {
        (PhaseView::Stopped(reason), _) => stopped(reason),
        (PhaseView::Connecting, EventView::Connected) => (
            PhaseView::AwaitingChange,
            ActionView::AwaitPlayerChange,
        ),
        (PhaseView::Connecting, EventView::ConnectFailed) => stopped(StopReason::NoConnection),
        (PhaseView::AwaitingChange, EventView::Changed) => (
            PhaseView::AwaitingStatus,
            ActionView::QueryStatus,
        ),
        (PhaseView::AwaitingChange, EventView::WaitFailed) => stopped(StopReason::WaitFailed),
        (PhaseView::AwaitingStatus, EventView::Status(PlaybackState::Playing)) => (
            PhaseView::AwaitingTrack,
            ActionView::QueryCurrentTrack,
        ),
        (PhaseView::AwaitingStatus, EventView::Status(_)) => (
            PhaseView::AwaitingChange,
            ActionView::AwaitPlayerChange,
        ),
        (PhaseView::AwaitingStatus, EventView::StatusFailed) => (
            PhaseView::AwaitingChange,
            ActionView::AwaitPlayerChange,
        ),
        (PhaseView::AwaitingTrack, EventView::CurrentTrack(Some(track))) => after_track(
            track,
            album_directory_of(music_root, track.file),
        ),
        (PhaseView::AwaitingTrack, EventView::CurrentTrack(None)) => (
            PhaseView::AwaitingChange,
            ActionView::AwaitPlayerChange,
        ),
        (PhaseView::AwaitingTrack, EventView::TrackQueryFailed) => stopped(
            StopReason::TrackQueryFailed,
        ),
        (PhaseView::AwaitingListing(track), EventView::Listed(listing)) => (
            PhaseView::AwaitingDispatch,
            dispatch_of(payload_of(track, resolved(listing))),
        ),
        (PhaseView::AwaitingDispatch, EventView::Dispatched) => (
            PhaseView::AwaitingChange,
            ActionView::AwaitPlayerChange,
        ),
        (PhaseView::AwaitingDispatch, EventView::DispatchFailed) => (
            PhaseView::AwaitingChange,
            ActionView::AwaitPlayerChange,
        ),
        _ => stopped(StopReason::UnexpectedEvent),
    }
}

/// The session that follows `session` on `event`, and the action to take.
/// The music directory stays as it is.
pub open spec fn transition(session: SessionView, event: EventView) -> (SessionView, ActionView) {
    let (phase, action) = next(session.music_root, session.phase, event);
    (SessionView { music_root: session.music_root, phase }, action)
}

/// Chooses the address of the server: `configured`, or the default address
/// where nothing is configured.
pub fn server_address(configured: Option<String>) -> (address: String)
    ensures
        address@ == address_of(configured.deep_view()),
{
    match configured {
        Some(address) => address,
        None => String::from_str("127.0.0.1:6600"),
    }
}

/// Tells how `payload` is handed to the notification surface.
pub fn dispatch(payload: NotificationPayload) -> (action: Action)
    ensures
        action@ == dispatch_of(payload@),
{
    Action::Dispatch {
        payload,
        grouping_hint: String::from_str(grouping_hint_name()),
        timeout_ms: TIMEOUT_MS,
    }
}

/// Decides what follows the arrival of the playing track. `directory` is the
/// directory of the track's file below the music root, if it has one.
pub fn track_received(track: Track, directory: Option<String>) -> (next: (Phase, Action))
    ensures
        (next.0@, next.1@) == after_track(track@, directory.deep_view()),
{
    match directory {
        Some(directory) => (Phase::AwaitingListing(track), Action::Scan(directory)),
        None => {
            let payload = build_payload(&track, None);
            (Phase::AwaitingDispatch, dispatch(payload))
        },
    }
}

impl Session {
    /// Opens a session: nothing is connected yet, and the first thing to do
    /// is to connect to the server.
    pub fn start(music_root: String, configured_address: Option<String>) -> (first: (
        Session,
        Action,
    ))
        ensures
            first.0@ == (SessionView { music_root: music_root@, phase: PhaseView::Connecting }),
            first.1@ == ActionView::Connect(address_of(configured_address.deep_view())),
    {
        (
            Session { music_root, phase: Phase::Connecting },
            Action::Connect(server_address(configured_address)),
        )
    }

    /// Takes in what came of the last action and tells what to do next.
    pub fn step(self, event: Event) -> (next: (Session, Action))
        ensures
            (next.0@, next.1@) == transition(self@, event@),
    {
        let Session { music_root, phase } = self;
        let (phase, action) = match (phase, event) {
            (Phase::Stopped(reason), _) => (Phase::Stopped(reason), Action::Stop(reason)),
            (Phase::Connecting, Event::Connected) => (
                Phase::AwaitingChange,
                Action::AwaitPlayerChange,
            ),
            (Phase::Connecting, Event::ConnectFailed) => (
                Phase::Stopped(StopReason::NoConnection),
                Action::Stop(StopReason::NoConnection),
            ),
            (Phase::AwaitingChange, Event::Changed) => (
                Phase::AwaitingStatus,
                Action::QueryStatus,
            ),
            (Phase::AwaitingChange, Event::WaitFailed) => (
                Phase::Stopped(StopReason::WaitFailed),
                Action::Stop(StopReason::WaitFailed),
            ),
            (Phase::AwaitingStatus, Event::Status(PlaybackState::Playing)) => (
                Phase::AwaitingTrack,
                Action::QueryCurrentTrack,
            ),
            (Phase::AwaitingStatus, Event::Status(_)) => (
                Phase::AwaitingChange,
                Action::AwaitPlayerChange,
            ),
            (Phase::AwaitingStatus, Event::StatusFailed) => (
                Phase::AwaitingChange,
                Action::AwaitPlayerChange,
            ),
            (Phase::AwaitingTrack, Event::CurrentTrack(Some(track))) => {
                let directory = album_directory(music_root.as_str(), track.file.as_str());
                track_received(track, directory)
            },
            (Phase::AwaitingTrack, Event::CurrentTrack(None)) => (
                Phase::AwaitingChange,
                Action::AwaitPlayerChange,
            ),
            (Phase::AwaitingTrack, Event::TrackQueryFailed) => (
                Phase::Stopped(StopReason::TrackQueryFailed),
                Action::Stop(StopReason::TrackQueryFailed),
            ),
            (Phase::AwaitingListing(track), Event::Listed(listing)) => {
                let payload = build_payload(&track, resolve(&listing));
                (Phase::AwaitingDispatch, dispatch(payload))
            },
            (Phase::AwaitingDispatch, Event::Dispatched) => (
                Phase::AwaitingChange,
                Action::AwaitPlayerChange,
            ),
            (Phase::AwaitingDispatch, Event::DispatchFailed) => (
                Phase::AwaitingChange,
                Action::AwaitPlayerChange,
            ),
            _ => (
                Phase::Stopped(StopReason::UnexpectedEvent),
                Action::Stop(StopReason::UnexpectedEvent),
            ),
        };
        (Session { music_root, phase }, action)
    }
}

} // verus!
