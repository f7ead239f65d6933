use ytplay::error::AppError;
use ytplay::json::{parse_json, Double, Json};
use ytplay::player::{Control, PlaybackOutcome, PlayerEvent, PlayerOrder};
use ytplay::recommendations::UpNextCandidate;
use ytplay::session::{play_stream_with_ui, Phase, PlaybackSession, SessionAction, SessionEvent};
use ytplay::ui::Readout;
use ytplay::up_next::RecommendationsPoll;

fn candidate(video_id: &str) -> UpNextCandidate {
    UpNextCandidate {
        video_id: video_id.to_string(),
        title: video_id.to_uppercase(),
        uploader: None,
    }
}

fn step(session: &mut PlaybackSession, event: SessionEvent, now: u64) -> SessionAction {
    play_stream_with_ui(session, event, now).unwrap()
}

/// A session that has been drawn once and asks for recommendations.
fn started() -> PlaybackSession {
    let mut session = PlaybackSession::new(Some("T".to_string()), true);
    let action = step(&mut session, SessionEvent::Drawn, 0);
    assert!(matches!(action, SessionAction::PollRecommendations));
    session
}

/// Goes through a round in which nothing happens but what the listener asks for.
fn round(session: &mut PlaybackSession, control: Option<Control>) -> SessionAction {
    let action = step(
        session,
        SessionEvent::Recommendations(RecommendationsPoll::Empty),
        0,
    );
    assert!(matches!(action, SessionAction::ReadPlayer));
    let action = step(session, SessionEvent::Player(None), 0);
    assert!(matches!(action, SessionAction::CheckProcess));
    let action = step(session, SessionEvent::Process(None), 0);
    assert!(matches!(action, SessionAction::Draw));
    let action = step(session, SessionEvent::Drawn, 0);
    assert!(matches!(action, SessionAction::Listen));
    step(session, SessionEvent::Control(control), 0)
}

/// Takes in recommendations and brings the session to the reading of reports.
fn recommend(session: &mut PlaybackSession, ids: &[&str]) {
    let found = ids.iter().map(|id| candidate(id)).collect();
    let action = step(
        session,
        SessionEvent::Recommendations(RecommendationsPoll::Received(Ok(found))),
        0,
    );
    assert!(matches!(action, SessionAction::ReadPlayer));
}

fn end_file(reason: Option<&str>, error: Option<&str>) -> SessionEvent {
    SessionEvent::Player(Some(PlayerEvent::EndFile {
        reason: reason.map(str::to_string),
        error: error.map(str::to_string),
    }))
}

#[test]
fn a_session_starts_with_a_picture() {
    let session = PlaybackSession::new(None, false);
    assert_eq!(session.phase, Phase::Opening);
    assert_eq!(session.state.title, "Loading stream...");
    let readout = Readout {
        volume_percent: "50".to_string(),
        elapsed_seconds: 0,
        total_seconds: 0,
        played: Double { bits: 0 },
    };
    let frame = session.frame(readout, 0);
    assert_eq!(frame.title, "Loading stream...");
    assert_eq!(frame.queue_status, None);
    assert!(frame.overlay.is_none());
}

#[test]
fn wishes_become_orders() {
    let volume = Double {
        bits: 100.0f64.to_bits(),
    };
    for (control, order) in [
        (Control::TogglePause, PlayerOrder::TogglePause),
        (Control::SeekBackward, PlayerOrder::SeekRelative(-30)),
        (Control::SeekForward, PlayerOrder::SeekRelative(30)),
        (
            Control::VolumeDown,
            PlayerOrder::AdjustVolume {
                from: volume,
                by: -5,
            },
        ),
        (
            Control::VolumeUp,
            PlayerOrder::AdjustVolume {
                from: volume,
                by: 5,
            },
        ),
        (Control::ToggleMute, PlayerOrder::ToggleMute),
        (Control::Quit, PlayerOrder::Quit),
    ] {
        let mut session = started();
        let action = round(&mut session, Some(control));
        assert!(matches!(action, SessionAction::Send(sent) if sent == order));
        assert_eq!(session.stop_requested, control == Control::Quit);
        let action = step(&mut session, SessionEvent::Sent, 0);
        assert!(matches!(action, SessionAction::PollRecommendations));
    }
}

#[test]
fn the_overlay_holds_orders_back() {
    let mut session = started();
    let action = round(&mut session, Some(Control::ToggleUpNext));
    assert!(matches!(action, SessionAction::PollRecommendations));
    assert!(session.up_next.overlay_visible);
    for control in [
        Control::TogglePause,
        Control::SeekBackward,
        Control::VolumeUp,
        Control::ToggleMute,
    ] {
        let action = round(&mut session, Some(control));
        assert!(matches!(action, SessionAction::PollRecommendations));
    }
    let action = round(&mut session, Some(Control::Quit));
    assert!(matches!(action, SessionAction::Send(PlayerOrder::Quit)));
    step(&mut session, SessionEvent::Sent, 0);
    round(&mut session, Some(Control::CloseOverlay));
    assert!(!session.up_next.overlay_visible);
}

#[test]
fn volume_changes_start_from_the_latest_volume() {
    let mut session = started();
    step(
        &mut session,
        SessionEvent::Recommendations(RecommendationsPoll::Empty),
        0,
    );
    let action = step(
        &mut session,
        SessionEvent::Player(Some(PlayerEvent::PropertyChange {
            name: "volume".to_string(),
            data: parse_json("60").unwrap(),
        })),
        0,
    );
    assert!(matches!(action, SessionAction::ReadPlayer));
    step(&mut session, SessionEvent::Player(None), 0);
    step(&mut session, SessionEvent::Process(None), 0);
    step(&mut session, SessionEvent::Drawn, 0);
    let action = step(
        &mut session,
        SessionEvent::Control(Some(Control::VolumeUp)),
        0,
    );
    assert!(matches!(
        action,
        SessionAction::Send(PlayerOrder::AdjustVolume { from, by: 5 })
            if from.bits == 60.0f64.to_bits()
    ));
    assert_eq!(session.state.volume, session.volume);
}

#[test]
fn failures_at_the_end_of_a_file_are_reported() {
    let reading = || {
        let mut session = started();
        step(
            &mut session,
            SessionEvent::Recommendations(RecommendationsPoll::Empty),
            0,
        );
        session
    };
    let mut session = reading();
    match step(&mut session, end_file(Some("error"), Some("loading failed")), 0) {
        SessionAction::Fail(error) => {
            assert_eq!(error.message(), "mpv playback failed: loading failed");
        }
        other => panic!("unexpected action: {other:?}"),
    }
    assert_eq!(session.phase, Phase::Over);

    let mut session = reading();
    assert!(matches!(
        step(&mut session, end_file(Some("error"), Some("success")), 0),
        SessionAction::Fail(AppError::PlaybackBroken)
    ));
    assert_eq!(
        AppError::PlaybackBroken.report(),
        "mpv playback ended with an error."
    );

    let mut session = reading();
    assert!(matches!(
        step(&mut session, end_file(Some("eof"), None), 0),
        SessionAction::WaitForExit
    ));
}

#[test]
fn quitting_ends_with_the_code_of_the_player() {
    let mut session = started();
    recommend(&mut session, &["a"]);
    step(&mut session, end_file(Some("quit"), None), 0);
    assert!(matches!(
        step(&mut session, SessionEvent::Exited(0), 0),
        SessionAction::Finish(PlaybackOutcome::Finished(0))
    ));

    let mut session = started();
    round(&mut session, Some(Control::Quit));
    step(&mut session, SessionEvent::Sent, 0);
    recommend(&mut session, &["a"]);
    step(&mut session, end_file(Some("eof"), None), 0);
    assert!(matches!(
        step(&mut session, SessionEvent::Exited(0), 0),
        SessionAction::Finish(PlaybackOutcome::Finished(0))
    ));
}

#[test]
fn a_failing_player_ends_the_session() {
    let mut session = started();
    recommend(&mut session, &["a"]);
    step(&mut session, SessionEvent::Player(None), 0);
    assert!(matches!(
        step(&mut session, SessionEvent::Process(Some(3)), 0),
        SessionAction::Finish(PlaybackOutcome::Finished(3))
    ));

    for event in [PlayerEvent::Shutdown, PlayerEvent::Disconnected] {
        let mut session = started();
        recommend(&mut session, &["a"]);
        assert!(matches!(
            step(&mut session, SessionEvent::Player(Some(event)), 0),
            SessionAction::WaitForExit
        ));
        assert!(matches!(
            step(&mut session, SessionEvent::Exited(2), 0),
            SessionAction::Finish(PlaybackOutcome::Finished(2))
        ));
    }
}

/// A session whose playback has ended well at the moment zero.
fn ended(ids: &[&str]) -> PlaybackSession {
    let mut session = started();
    recommend(&mut session, ids);
    step(&mut session, end_file(Some("eof"), None), 0);
    let action = step(&mut session, SessionEvent::Exited(0), 0);
    assert!(matches!(action, SessionAction::Draw));
    assert_eq!(session.finished_code, Some(0));
    assert!(session.up_next.overlay_visible);
    session
}

/// Brings a session that has ended to the listener.
fn listen(session: &mut PlaybackSession) {
    let action = step(session, SessionEvent::Drawn, 0);
    assert!(matches!(action, SessionAction::Listen));
}

#[test]
fn the_countdown_starts_the_first_candidate() {
    let mut session = ended(&["a", "b"]);
    listen(&mut session);
    let action = step(&mut session, SessionEvent::Control(None), 0);
    assert!(matches!(action, SessionAction::PollRecommendations));
    let action = step(
        &mut session,
        SessionEvent::Recommendations(RecommendationsPoll::Empty),
        7_999_999_999,
    );
    assert!(matches!(action, SessionAction::Draw));
    listen(&mut session);
    step(&mut session, SessionEvent::Control(None), 0);
    assert!(matches!(
        step(
            &mut session,
            SessionEvent::Recommendations(RecommendationsPoll::Empty),
            8_000_000_000
        ),
        SessionAction::Finish(PlaybackOutcome::PlayNext(next)) if next == "a"
    ));
    assert_eq!(session.phase, Phase::Over);
    assert!(play_stream_with_ui(&mut session, SessionEvent::Drawn, 0).is_none());
}

#[test]
fn a_late_choice_starts_at_once() {
    let mut session = ended(&["a", "b"]);
    listen(&mut session);
    assert!(matches!(
        step(&mut session, SessionEvent::Control(Some(Control::SelectUpNext(1))), 1),
        SessionAction::Finish(PlaybackOutcome::PlayNext(next)) if next == "b"
    ));

    let mut session = ended(&["a", "b"]);
    listen(&mut session);
    assert!(matches!(
        step(
            &mut session,
            SessionEvent::Control(Some(Control::SelectUpNext(4))),
            1
        ),
        SessionAction::PollRecommendations
    ));
}

#[test]
fn late_wishes() {
    let mut session = ended(&["a"]);
    listen(&mut session);
    assert!(matches!(
        step(
            &mut session,
            SessionEvent::Control(Some(Control::ConfirmUpNext)),
            1
        ),
        SessionAction::PollRecommendations
    ));
    step(
        &mut session,
        SessionEvent::Recommendations(RecommendationsPoll::Empty),
        1,
    );
    listen(&mut session);
    assert!(matches!(
        step(
            &mut session,
            SessionEvent::Control(Some(Control::ConfirmUpNext)),
            8_000_000_000
        ),
        SessionAction::Finish(PlaybackOutcome::PlayNext(_))
    ));

    let mut session = ended(&["a"]);
    listen(&mut session);
    assert!(matches!(
        step(&mut session, SessionEvent::Control(Some(Control::Quit)), 1),
        SessionAction::Finish(PlaybackOutcome::Finished(0))
    ));

    let mut session = ended(&["a"]);
    listen(&mut session);
    assert!(matches!(
        step(
            &mut session,
            SessionEvent::Control(Some(Control::CloseOverlay)),
            1
        ),
        SessionAction::PollRecommendations
    ));
    assert!(session.up_next.overlay_visible);
}

#[test]
fn a_queued_video_follows() {
    let mut session = started();
    recommend(&mut session, &["a", "b"]);
    step(&mut session, SessionEvent::Player(None), 0);
    step(&mut session, SessionEvent::Process(None), 0);
    step(&mut session, SessionEvent::Drawn, 0);
    step(
        &mut session,
        SessionEvent::Control(Some(Control::SelectUpNext(1))),
        0,
    );
    assert!(!session.up_next.overlay_visible);
    step(
        &mut session,
        SessionEvent::Recommendations(RecommendationsPoll::Empty),
        0,
    );
    step(&mut session, end_file(None, Some("success")), 0);
    step(&mut session, SessionEvent::Exited(0), 0);
    step(&mut session, SessionEvent::Drawn, 0);
    step(&mut session, SessionEvent::Control(None), 0);
    assert!(matches!(
        step(
            &mut session,
            SessionEvent::Recommendations(RecommendationsPoll::Empty),
            0
        ),
        SessionAction::Finish(PlaybackOutcome::PlayNext(next)) if next == "b"
    ));
}

#[test]
fn nothing_to_follow_ends_the_session() {
    let mut session = ended(&[]);
    listen(&mut session);
    step(&mut session, SessionEvent::Control(None), 0);
    assert!(matches!(
        step(
            &mut session,
            SessionEvent::Recommendations(RecommendationsPoll::Empty),
            0
        ),
        SessionAction::Finish(PlaybackOutcome::Finished(0))
    ));
}

#[test]
fn arrow_keys_change_nothing() {
    let mut session = started();
    recommend(&mut session, &["a", "b"]);
    step(&mut session, SessionEvent::Player(None), 0);
    step(&mut session, SessionEvent::Process(None), 0);
    step(&mut session, SessionEvent::Drawn, 0);
    let action = step(
        &mut session,
        SessionEvent::Control(Some(Control::MoveUpNext(1))),
        0,
    );
    assert!(matches!(action, SessionAction::PollRecommendations));
    assert_eq!(session.up_next.selected_index, 0);
}

#[test]
fn enter_keeps_the_selection() {
    let mut session = started();
    round(&mut session, Some(Control::ConfirmUpNext));
    assert!(!session.up_next.explicit_selection);
    recommend(&mut session, &["a"]);
    step(&mut session, SessionEvent::Player(None), 0);
    step(&mut session, SessionEvent::Process(None), 0);
    step(&mut session, SessionEvent::Drawn, 0);
    step(
        &mut session,
        SessionEvent::Control(Some(Control::ConfirmUpNext)),
        0,
    );
    assert!(session.up_next.explicit_selection);
}

#[test]
fn unexpected_events_change_nothing() {
    let mut session = started();
    assert!(play_stream_with_ui(&mut session, SessionEvent::Drawn, 0).is_none());
    assert!(play_stream_with_ui(&mut session, SessionEvent::Exited(0), 0).is_none());
    assert_eq!(session.phase, Phase::Receiving);
    assert_eq!(session.finished_code, None);
    assert!(play_stream_with_ui(
        &mut session,
        SessionEvent::Player(Some(PlayerEvent::PropertyChange {
            name: "mute".to_string(),
            data: Json::Bool(true),
        })),
        0
    )
    .is_none());
    assert!(!session.state.muted);
}

#[test]
fn a_decision_is_kept_until_the_next_one() {
    let mut session = started();
    recommend(&mut session, &["a", "b"]);
    step(&mut session, SessionEvent::Player(None), 0);
    step(&mut session, SessionEvent::Process(None), 0);
    step(&mut session, SessionEvent::Drawn, 0);
    step(
        &mut session,
        SessionEvent::Control(Some(Control::SelectUpNext(1))),
        0,
    );
    for control in [
        Control::ToggleUpNext,
        Control::SelectUpNext(7),
        Control::ConfirmUpNext,
        Control::CloseOverlay,
    ] {
        round(&mut session, Some(control));
        assert!(session.up_next.explicit_selection);
        assert_eq!(session.up_next.selected_index, 1);
    }
    round(&mut session, Some(Control::SelectUpNext(0)));
    assert_eq!(session.up_next.selected_index, 0);
}

#[test]
fn nothing_follows_where_nothing_was_to_be_recommended() {
    let mut session = PlaybackSession::new(None, false);
    step(&mut session, SessionEvent::Drawn, 0);
    recommend(&mut session, &["a"]);
    step(&mut session, end_file(Some("eof"), None), 0);
    step(&mut session, SessionEvent::Exited(0), 0);
    listen(&mut session);
    step(
        &mut session,
        SessionEvent::Control(Some(Control::SelectUpNext(0))),
        9_000_000_000,
    );
    assert!(matches!(
        step(
            &mut session,
            SessionEvent::Recommendations(RecommendationsPoll::Empty),
            9_000_000_000
        ),
        SessionAction::Finish(PlaybackOutcome::Finished(0))
    ));
}
