use mpd_notification::artwork::{Entry, Listing};
use mpd_notification::notification::NotificationPayload;
use mpd_notification::session::{
    dispatch, server_address, track_received, Action, Event, Phase, PlaybackState, Session,
    StopReason,
};
use mpd_notification::track::Track;

fn track1() -> Track {
    Track {
        file: "Artist/Album/01.flac".to_string(),
        title: Some("Track1".to_string()),
        artist: Some("Artist".to_string()),
        tags: vec![("Album".to_string(), "Album".to_string())],
    }
}

fn in_phase(phase: Phase) -> Session {
    Session { music_root: "/home/me/Music".to_string(), phase }
}

fn file(path: &str) -> Entry {
    Entry::Found { path: path.to_string(), regular: true }
}

fn payload(icon: &str) -> NotificationPayload {
    NotificationPayload {
        summary: "Track1".to_string(),
        body: "Artist\nAlbum".to_string(),
        icon: icon.to_string(),
        grouping_key: "mpd-notification".to_string(),
    }
}

fn shown(icon: &str) -> Action {
    Action::Dispatch {
        payload: payload(icon),
        grouping_hint: "x-canonical-private-synchronous".to_string(),
        timeout_ms: 6000,
    }
}

#[test]
fn dispatch_fixes_hint_and_timeout() {
    assert_eq!(dispatch(payload("/a/b.png")), shown("/a/b.png"));
    let bare = NotificationPayload {
        summary: "".to_string(),
        body: "".to_string(),
        icon: "".to_string(),
        grouping_key: "".to_string(),
    };
    assert_eq!(
        dispatch(bare.clone()),
        Action::Dispatch {
            payload: bare,
            grouping_hint: "x-canonical-private-synchronous".to_string(),
            timeout_ms: 6000,
        }
    );
}

#[test]
fn dispatching_twice_asks_for_the_same_twice() {
    let first = dispatch(payload("/a/b.png"));
    let second = dispatch(payload("/a/b.png"));
    assert_eq!(first, second);
    match (first, second) {
        (
            Action::Dispatch { payload: one, .. },
            Action::Dispatch { payload: two, .. },
        ) => assert_eq!(one.grouping_key, two.grouping_key),
        _ => panic!("dispatch gave another action"),
    }
}

#[test]
fn session_starts_by_connecting() {
    let (session, action) = Session::start("/home/me/Music".to_string(), None);
    assert_eq!(session, in_phase(Phase::Connecting));
    assert_eq!(action, Action::Connect("127.0.0.1:6600".to_string()));
    let (session, action) = Session::start("/m".to_string(), Some("mpd.local:6601".to_string()));
    assert_eq!(session.music_root, "/m");
    assert_eq!(session.phase, Phase::Connecting);
    assert_eq!(action, Action::Connect("mpd.local:6601".to_string()));
}

#[test]
fn address_defaults_to_the_local_server() {
    assert_eq!(server_address(None), "127.0.0.1:6600");
    assert_eq!(server_address(Some("host:1".to_string())), "host:1");
    assert_eq!(server_address(Some("".to_string())), "");
}

#[test]
fn connection_leads_to_the_wait() {
    let (session, action) = in_phase(Phase::Connecting).step(Event::Connected);
    assert_eq!(session, in_phase(Phase::AwaitingChange));
    assert_eq!(action, Action::AwaitPlayerChange);
}

#[test]
fn failed_connection_ends_the_session() {
    let (session, action) = in_phase(Phase::Connecting).step(Event::ConnectFailed);
    assert_eq!(session, in_phase(Phase::Stopped(StopReason::NoConnection)));
    assert_eq!(action, Action::Stop(StopReason::NoConnection));
}

#[test]
fn change_leads_to_the_status_query() {
    let (session, action) = in_phase(Phase::AwaitingChange).step(Event::Changed);
    assert_eq!(session, in_phase(Phase::AwaitingStatus));
    assert_eq!(action, Action::QueryStatus);
}

#[test]
fn failed_wait_ends_the_session() {
    let (session, action) = in_phase(Phase::AwaitingChange).step(Event::WaitFailed);
    assert_eq!(session.phase, Phase::Stopped(StopReason::WaitFailed));
    assert_eq!(action, Action::Stop(StopReason::WaitFailed));
}

#[test]
fn playing_leads_to_the_track_query() {
    let (session, action) =
        in_phase(Phase::AwaitingStatus).step(Event::Status(PlaybackState::Playing));
    assert_eq!(session, in_phase(Phase::AwaitingTrack));
    assert_eq!(action, Action::QueryCurrentTrack);
}

#[test]
fn stopped_or_paused_player_is_not_announced() {
    for state in [PlaybackState::Stopped, PlaybackState::Paused] {
        let (session, action) = in_phase(Phase::AwaitingStatus).step(Event::Status(state));
        assert_eq!(session, in_phase(Phase::AwaitingChange));
        assert_eq!(action, Action::AwaitPlayerChange);
    }
}

#[test]
fn failed_status_query_goes_back_to_the_wait() {
    let (session, action) = in_phase(Phase::AwaitingStatus).step(Event::StatusFailed);
    assert_eq!(session, in_phase(Phase::AwaitingChange));
    assert_eq!(action, Action::AwaitPlayerChange);
}

#[test]
fn no_current_track_is_no_error() {
    let (session, action) = in_phase(Phase::AwaitingTrack).step(Event::CurrentTrack(None));
    assert_eq!(session, in_phase(Phase::AwaitingChange));
    assert_eq!(action, Action::AwaitPlayerChange);
}

#[test]
fn failed_track_query_ends_the_session() {
    let (session, action) = in_phase(Phase::AwaitingTrack).step(Event::TrackQueryFailed);
    assert_eq!(session.phase, Phase::Stopped(StopReason::TrackQueryFailed));
    assert_eq!(action, Action::Stop(StopReason::TrackQueryFailed));
}

#[test]
fn current_track_leads_to_the_scan_of_its_directory() {
    let (session, action) =
        in_phase(Phase::AwaitingTrack).step(Event::CurrentTrack(Some(track1())));
    assert_eq!(session, in_phase(Phase::AwaitingListing(track1())));
    assert_eq!(action, Action::Scan("/home/me/Music/Artist/Album".to_string()));
}

#[test]
fn track_without_a_directory_is_announced_without_art() {
    let mut track = track1();
    track.file = "".to_string();
    let (session, action) = in_phase(Phase::AwaitingTrack).step(Event::CurrentTrack(Some(track)));
    assert_eq!(session, in_phase(Phase::AwaitingDispatch));
    assert_eq!(action, shown("audio-x-generic"));
}

#[test]
fn received_track_is_scanned_for_or_announced() {
    let (phase, action) = track_received(track1(), Some("/x/y".to_string()));
    assert_eq!(phase, Phase::AwaitingListing(track1()));
    assert_eq!(action, Action::Scan("/x/y".to_string()));
    let (phase, action) = track_received(track1(), None);
    assert_eq!(phase, Phase::AwaitingDispatch);
    assert_eq!(action, shown("audio-x-generic"));
}

#[test]
fn dispatch_outcome_does_not_matter() {
    for event in [Event::Dispatched, Event::DispatchFailed] {
        let (session, action) = in_phase(Phase::AwaitingDispatch).step(event);
        assert_eq!(session, in_phase(Phase::AwaitingChange));
        assert_eq!(action, Action::AwaitPlayerChange);
    }
}

#[test]
fn unexpected_event_ends_the_session() {
    let cases = [
        (Phase::Connecting, Event::Changed),
        (Phase::AwaitingChange, Event::Status(PlaybackState::Playing)),
        (Phase::AwaitingChange, Event::CurrentTrack(Some(track1()))),
        (Phase::AwaitingChange, Event::Listed(Listing::Unreadable)),
        (Phase::AwaitingStatus, Event::Changed),
        (Phase::AwaitingStatus, Event::CurrentTrack(Some(track1()))),
        (Phase::AwaitingTrack, Event::Status(PlaybackState::Playing)),
        (Phase::AwaitingTrack, Event::Listed(Listing::Entries(vec![]))),
        (Phase::AwaitingListing(track1()), Event::Dispatched),
        (Phase::AwaitingDispatch, Event::Listed(Listing::Unreadable)),
        (Phase::AwaitingDispatch, Event::Connected),
    ];
    for (phase, event) in cases {
        let (session, action) = in_phase(phase).step(event);
        assert_eq!(session, in_phase(Phase::Stopped(StopReason::UnexpectedEvent)));
        assert_eq!(action, Action::Stop(StopReason::UnexpectedEvent));
    }
}

#[test]
fn stopped_session_stays_stopped() {
    let events = [
        Event::Connected,
        Event::Changed,
        Event::Status(PlaybackState::Playing),
        Event::CurrentTrack(Some(track1())),
        Event::Listed(Listing::Unreadable),
        Event::Dispatched,
    ];
    let mut session = in_phase(Phase::Stopped(StopReason::WaitFailed));
    for event in events {
        let (next, action) = session.step(event);
        assert_eq!(next.phase, Phase::Stopped(StopReason::WaitFailed));
        assert_eq!(action, Action::Stop(StopReason::WaitFailed));
        session = next;
    }
}

#[test]
fn playing_track_with_cover_is_announced_with_it() {
    let (session, action) = Session::start("/home/me/Music".to_string(), None);
    assert_eq!(action, Action::Connect("127.0.0.1:6600".to_string()));
    let (session, action) = session.step(Event::Connected);
    assert_eq!(action, Action::AwaitPlayerChange);
    let (session, action) = session.step(Event::Changed);
    assert_eq!(action, Action::QueryStatus);
    let (session, action) = session.step(Event::Status(PlaybackState::Playing));
    assert_eq!(action, Action::QueryCurrentTrack);
    let (session, action) = session.step(Event::CurrentTrack(Some(track1())));
    assert_eq!(action, Action::Scan("/home/me/Music/Artist/Album".to_string()));
    let listing = Listing::Entries(vec![
        file("/home/me/Music/Artist/Album/01.flac"),
        file("/home/me/Music/Artist/Album/cover.jpg"),
    ]);
    let (session, action) = session.step(Event::Listed(listing));
    assert_eq!(action, shown("/home/me/Music/Artist/Album/cover.jpg"));
    let (session, action) = session.step(Event::Dispatched);
    assert_eq!(action, Action::AwaitPlayerChange);
    assert_eq!(session, in_phase(Phase::AwaitingChange));
}

#[test]
fn playing_track_without_local_directory_is_announced_with_generic_icon() {
    let (session, _) = Session::start("/home/me/Music".to_string(), None);
    let (session, _) = session.step(Event::Connected);
    let (session, _) = session.step(Event::Changed);
    let (session, _) = session.step(Event::Status(PlaybackState::Playing));
    let (session, action) = session.step(Event::CurrentTrack(Some(track1())));
    assert_eq!(action, Action::Scan("/home/me/Music/Artist/Album".to_string()));
    let (session, action) = session.step(Event::Listed(Listing::Unreadable));
    assert_eq!(action, shown("audio-x-generic"));
    let (session, action) = session.step(Event::Dispatched);
    assert_eq!(action, Action::AwaitPlayerChange);
    assert_eq!(session.phase, Phase::AwaitingChange);
}

#[test]
fn same_round_twice_dispatches_twice() {
    let mut session = in_phase(Phase::AwaitingChange);
    let mut dispatched = Vec::new();
    for _ in 0..2 {
        let (next, _) = session.step(Event::Changed);
        let (next, _) = next.step(Event::Status(PlaybackState::Playing));
        let (next, _) = next.step(Event::CurrentTrack(Some(track1())));
        let (next, action) = next.step(Event::Listed(Listing::Entries(vec![file("/c/Cover.PNG")])));
        dispatched.push(action);
        let (next, action) = next.step(Event::Dispatched);
        assert_eq!(action, Action::AwaitPlayerChange);
        session = next;
    }
    assert_eq!(dispatched[0], shown("/c/Cover.PNG"));
    assert_eq!(dispatched[0], dispatched[1]);
}

#[test]
fn rounds_without_playing_never_reach_the_track() {
    let mut session = in_phase(Phase::AwaitingChange);
    for state in [
        PlaybackState::Paused,
        PlaybackState::Stopped,
        PlaybackState::Stopped,
        PlaybackState::Paused,
    ] {
        let (next, action) = session.step(Event::Changed);
        assert_eq!(action, Action::QueryStatus);
        let (next, action) = next.step(Event::Status(state));
        assert_eq!(action, Action::AwaitPlayerChange);
        session = next;
    }
    assert_eq!(session, in_phase(Phase::AwaitingChange));
}

#[test]
fn music_root_is_kept() {
    let session = Session { music_root: "/my/root".to_string(), phase: Phase::AwaitingChange };
    let (session, _) = session.step(Event::Changed);
    let (session, _) = session.step(Event::Status(PlaybackState::Playing));
    let (session, _) = session.step(Event::TrackQueryFailed);
    assert_eq!(session.music_root, "/my/root");
}
