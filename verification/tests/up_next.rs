use ytplay::error::AppError;
use ytplay::recommendations::UpNextCandidate;
use ytplay::up_next::{
    fit_overlay_error, RecommendationsPoll, RecommendationsState, UpNextState,
    UP_NEXT_AUTOPLAY_DELAY,
};

fn candidates() -> Vec<UpNextCandidate> {
    vec![
        UpNextCandidate {
            video_id: "one".to_string(),
            title: "One".to_string(),
            uploader: Some("Artist".to_string()),
        },
        UpNextCandidate {
            video_id: "two".to_string(),
            title: "Two".to_string(),
            uploader: Some("Artist".to_string()),
        },
    ]
}

fn ready() -> UpNextState {
    let mut up_next = UpNextState::new(true);
    up_next.poll_receiver(RecommendationsPoll::Received(Ok(candidates())));
    up_next
}

#[test]
fn up_next_defaults_to_first_candidate_after_countdown() {
    let mut up_next = UpNextState::new(true);
    up_next.poll_receiver(RecommendationsPoll::Received(Ok(candidates())));
    let now: u64 = 1_000;
    up_next.on_playback_finished(now);
    up_next.autoplay_deadline = Some(now);

    let candidate = up_next.next_after_finish(now).unwrap();
    assert_eq!(candidate.video_id, "one");
}

#[test]
fn up_next_uses_explicit_selection_immediately() {
    let mut up_next = UpNextState::new(true);
    up_next.poll_receiver(RecommendationsPoll::Received(Ok(candidates())));
    assert!(up_next.select(1, true));
    let now: u64 = 1_000;
    up_next.on_playback_finished(now);

    let candidate = up_next.next_after_finish(now).unwrap();
    assert_eq!(candidate.video_id, "two");
}

#[test]
fn countdown_takes_eight_seconds() {
    let mut up_next = ready();
    up_next.on_playback_finished(5);
    assert_eq!(up_next.autoplay_deadline, Some(8_000_000_005));
    assert!(up_next.next_after_finish(8_000_000_004).is_none());
    assert_eq!(
        up_next.next_after_finish(8_000_000_005).unwrap().video_id,
        "one"
    );
    let message = |now: u64| up_next.overlay_view(true, now).unwrap().message;
    assert_eq!(
        message(5),
        "Autoplaying 1 in 8s. Press 1-5 to choose or Enter to play now."
    );
    assert_eq!(
        message(6),
        "Autoplaying 1 in 7s. Press 1-5 to choose or Enter to play now."
    );
    assert_eq!(
        message(u64::MAX),
        "Autoplaying 1 in 0s. Press 1-5 to choose or Enter to play now."
    );
    assert_eq!(UP_NEXT_AUTOPLAY_DELAY, 8_000_000_000);
}

#[test]
fn the_lookup_is_heard_once() {
    let mut up_next = UpNextState::new(true);
    assert!(up_next.is_loading());
    up_next.poll_receiver(RecommendationsPoll::Empty);
    assert!(up_next.is_loading());
    up_next.poll_receiver(RecommendationsPoll::Received(Ok(candidates())));
    assert!(!up_next.is_loading());
    up_next.poll_receiver(RecommendationsPoll::Disconnected);
    assert!(up_next.has_ready_candidates());

    let mut disabled = UpNextState::new(false);
    disabled.poll_receiver(RecommendationsPoll::Received(Ok(candidates())));
    assert!(!disabled.has_ready_candidates());
}

#[test]
fn failures_of_the_lookup_are_kept() {
    let mut up_next = UpNextState::new(true);
    up_next.poll_receiver(RecommendationsPoll::Received(Err(AppError::SearchNotJson {
        cause: "not told".to_string(),
    })));
    assert!(matches!(
        &up_next.source,
        RecommendationsState::Failed(error) if error == "failed to parse yt-dlp recommendation JSON"
    ));
    assert!(up_next.should_exit_after_finish());
    assert_eq!(up_next.status_line().as_deref(), Some("Up Next: unavailable"));
    up_next.toggle_overlay();
    assert_eq!(
        up_next.overlay_view(false, 0).unwrap().message,
        "Recommendations unavailable: failed to parse yt-dlp recommendation JSON"
    );

    let mut lost = UpNextState::new(true);
    lost.poll_receiver(RecommendationsPoll::Disconnected);
    assert!(matches!(
        &lost.source,
        RecommendationsState::Failed(error) if error == "recommendation lookup stopped unexpectedly"
    ));
    assert_eq!(fit_overlay_error(" \n"), "Recommendations are unavailable.");
    assert_eq!(
        fit_overlay_error(" x \n"),
        "Recommendations unavailable: x"
    );
}

#[test]
fn selection_is_one_of_the_candidates() {
    let mut up_next = ready();
    assert!(!up_next.select(2, true));
    assert!(!up_next.explicit_selection);
    assert_eq!(up_next.selected_candidate().unwrap().video_id, "one");
    assert!(up_next.select(1, false));
    assert!(!up_next.explicit_selection);
    assert_eq!(up_next.selected_candidate().unwrap().video_id, "two");
    up_next.mark_explicit();
    assert!(up_next.explicit_selection);

    let mut loading = UpNextState::new(true);
    assert!(!loading.select(0, true));
    assert!(loading.selected_candidate().is_none());
}

#[test]
fn overlay_is_toggled_and_closed() {
    let mut up_next = ready();
    assert!(!up_next.overlay_visible());
    assert!(up_next.overlay_view(false, 0).is_none());
    up_next.toggle_overlay();
    assert!(up_next.overlay_visible());
    up_next.toggle_overlay();
    assert!(!up_next.overlay_visible());
    up_next.toggle_overlay();
    up_next.close_overlay();
    assert!(!up_next.overlay_visible());
}

#[test]
fn overlay_lists_the_candidates() {
    let mut up_next = ready();
    assert!(up_next.select(1, true));
    up_next.toggle_overlay();
    let overlay = up_next.overlay_view(false, 0).unwrap();
    assert_eq!(overlay.heading, "Up Next");
    assert_eq!(overlay.message, "Press 1-5 to queue the next video.");
    assert_eq!(overlay.items.len(), 2);
    assert_eq!(overlay.items[0].text, "  1. One | Artist");
    assert!(!overlay.items[0].selected);
    assert_eq!(overlay.items[1].text, "> 2. Two | Artist");
    assert!(overlay.items[1].selected);
    assert_eq!(
        overlay.help_lines,
        vec!["1-5 queue   Enter keep selected   N or Esc close"]
    );

    let finished = up_next.overlay_view(true, 0).unwrap();
    assert_eq!(finished.message, "Queued selection will start now.");
    assert_eq!(
        finished.help_lines,
        vec!["1-5 choose   Enter play   Q stop"]
    );
}

#[test]
fn overlay_tells_what_is_missing() {
    let mut loading = UpNextState::new(true);
    loading.toggle_overlay();
    let during = loading.overlay_view(false, 0).unwrap();
    assert_eq!(during.message, "Loading recommendations...");
    assert_eq!(during.help_lines, vec!["N or Esc close"]);
    assert!(during.items.is_empty());
    let after = loading.overlay_view(true, 0).unwrap();
    assert_eq!(after.message, "Loading recommendations before autoplay...");
    assert_eq!(after.help_lines, vec!["Q stop"]);

    loading.poll_receiver(RecommendationsPoll::Received(Ok(Vec::new())));
    assert_eq!(
        loading.overlay_view(false, 0).unwrap().message,
        "No recommendations were found for this track."
    );
    assert!(loading.should_exit_after_finish());

    let mut disabled = UpNextState::new(false);
    disabled.toggle_overlay();
    assert!(disabled.overlay_view(true, 0).is_none());
}

#[test]
fn status_line_names_the_selection() {
    assert_eq!(UpNextState::new(false).status_line(), None);
    assert_eq!(
        UpNextState::new(true).status_line().as_deref(),
        Some("Up Next: loading recommendations...")
    );
    assert_eq!(
        ready().status_line().as_deref(),
        Some("Up Next: One | Artist")
    );
    let mut empty = UpNextState::new(true);
    empty.poll_receiver(RecommendationsPoll::Received(Ok(Vec::new())));
    assert_eq!(
        empty.status_line().as_deref(),
        Some("Up Next: no recommendations found")
    );
}

#[test]
fn nothing_can_follow_without_candidates() {
    assert!(UpNextState::new(false).should_exit_after_finish());
    assert!(!UpNextState::new(true).should_exit_after_finish());
    assert!(!ready().should_exit_after_finish());
    let mut decided = UpNextState::new(false);
    decided.mark_explicit();
    assert!(decided.next_after_finish(u64::MAX).is_none());
}
