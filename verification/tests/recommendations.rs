use ytplay::error::AppError;
use ytplay::json::Json;
use ytplay::recommendations::{
    build_search_query, fetch_recommendations, parse_recommendations, recommendation_command,
    recommendations_of, sanitize_title, search_candidates, FetchStage, FetchStep,
    RecommendationSeed, SearchRound, UpNextCandidate,
};
use ytplay::tools::{CommandOutput, ToolRun};

fn ran(code: i32, stdout: &[u8], stderr: &[u8]) -> ToolRun {
    ToolRun::Finished(CommandOutput {
        code: Some(code),
        stdout: stdout.to_vec(),
        stderr: stderr.to_vec(),
    })
}

fn seed(uploader: Option<&str>) -> RecommendationSeed {
    RecommendationSeed {
        title: " Song ".to_string(),
        uploader: uploader.map(str::to_string),
        current_video_id: Some("now".to_string()),
    }
}

#[test]
fn builds_search_query_with_uploader_when_available() {
    let seed = RecommendationSeed {
        title: "Never Gonna Give You Up".to_string(),
        uploader: Some("Rick Astley".to_string()),
        current_video_id: Some("dQw4w9WgXcQ".to_string()),
    };

    assert_eq!(
        build_search_query(&seed, true),
        "Rick Astley Never Gonna Give You Up"
    );
    assert_eq!(build_search_query(&seed, false), "Never Gonna Give You Up");
}

#[test]
fn parses_recommendations_and_filters_current_video_and_duplicates() {
    let parsed = parse_recommendations(
        r#"{
                "entries": [
                    {"id": "current123", "title": "Current", "uploader": "Uploader"},
                    {"id": "next1", "title": "Next One", "uploader": "Artist A"},
                    {"id": "next1", "title": "Next One Duplicate", "uploader": "Artist A"},
                    {"id": "next2", "title": "Next Two", "channel": "Artist B"}
                ]
            }"#,
        &Some("current123".to_string()),
    )
    .unwrap();

    assert_eq!(parsed.len(), 2);
    assert_eq!(parsed[0].video_id, "next1");
    assert_eq!(parsed[0].display_label(), "Next One | Artist A");
    assert_eq!(parsed[1].video_id, "next2");
    assert_eq!(parsed[1].uploader.as_deref(), Some("Artist B"));
}

#[test]
fn blank_uploaders_are_not_searched_for_nor_shown() {
    assert_eq!(build_search_query(&seed(Some("  ")), true), "Song");
    assert_eq!(build_search_query(&seed(None), true), "Song");
    assert_eq!(build_search_query(&seed(Some(" A ")), true), "A Song");
    let candidate = UpNextCandidate {
        video_id: "x".to_string(),
        title: "T".to_string(),
        uploader: Some(" ".to_string()),
    };
    assert_eq!(candidate.display_label(), "T");
    assert_eq!(candidate.playback_input(), "x");
    assert_eq!(candidate.clone(), candidate);
}

#[test]
fn search_asks_for_five_videos() {
    assert_eq!(
        recommendation_command("a b"),
        vec![
            "--no-warnings",
            "--flat-playlist",
            "--dump-single-json",
            "ytsearch5:a b"
        ]
    );
}

#[test]
fn entries_without_id_or_title_are_passed_over() {
    let parsed = parse_recommendations(
        r#"{"entries":[{"title":"no id"},{"id":"a"},{"id":"a","title":"A"},{"id":7,"title":"x"},3]}"#,
        &None,
    )
    .unwrap();
    assert_eq!(parsed.len(), 1);
    assert_eq!(parsed[0].title, "A");
    assert_eq!(parsed[0].uploader, None);
}

#[test]
fn results_are_read_from_a_document() {
    let entry = Json::Object(vec![
        ("id".to_string(), Json::Text("a".to_string())),
        ("title".to_string(), Json::Text("A".to_string())),
    ]);
    let results = Json::Object(vec![("entries".to_string(), Json::Array(vec![entry]))]);
    assert_eq!(recommendations_of(&results, &None).unwrap().len(), 1);
    assert!(recommendations_of(&results, &Some("a".to_string()))
        .unwrap()
        .is_empty());
}

#[test]
fn search_errors_are_told_apart() {
    assert_eq!(
        parse_recommendations("{}", &None).unwrap_err(),
        AppError::SearchWithoutEntries
    );
    assert_eq!(
        parse_recommendations(r#"{"entries":"x"}"#, &None).unwrap_err(),
        AppError::SearchWithoutEntries
    );
    assert_eq!(
        parse_recommendations("", &None).unwrap_err().report(),
        "failed to parse yt-dlp recommendation JSON: EOF while parsing a value at line 1 column 0"
    );
    assert_eq!(
        search_candidates(ran(1, b"", b" oops\n"), &None)
            .unwrap_err()
            .report(),
        "`yt-dlp` recommendation search failed: oops"
    );
    assert!(matches!(
        search_candidates(ran(0, b"\xff", b""), &None).unwrap_err(),
        AppError::SearchNotText { .. }
    ));
    assert!(matches!(
        search_candidates(
            ToolRun::NotStarted {
                program: "p".to_string(),
                cause: "c".to_string()
            },
            &None
        )
        .unwrap_err(),
        AppError::NotStarted { .. }
    ));
}

#[test]
fn search_falls_back_to_the_title() {
    let nothing = || ran(0, br#"{"entries":[{"id":"now","title":"Song"}]}"#, b"");
    let something = || ran(0, br#"{"entries":[{"id":"b","title":"B"}]}"#, b"");
    let with = seed(Some("A"));

    match fetch_recommendations(&with, FetchStage::Start) {
        FetchStep::Search { query, round } => {
            assert_eq!(query, "A Song");
            assert_eq!(round, SearchRound::Primary);
        }
        other => panic!("unexpected step: {other:?}"),
    }
    match fetch_recommendations(&with, FetchStage::Primary(nothing())) {
        FetchStep::Search { query, round } => {
            assert_eq!(query, "Song");
            assert_eq!(round, SearchRound::Fallback);
        }
        other => panic!("unexpected step: {other:?}"),
    }
    match fetch_recommendations(&with, FetchStage::Primary(something())) {
        FetchStep::Done(Ok(found)) => assert_eq!(found[0].video_id, "b"),
        other => panic!("unexpected step: {other:?}"),
    }
    match fetch_recommendations(&with, FetchStage::Fallback(nothing())) {
        FetchStep::Done(Ok(found)) => assert!(found.is_empty()),
        other => panic!("unexpected step: {other:?}"),
    }
    match fetch_recommendations(&seed(None), FetchStage::Primary(nothing())) {
        FetchStep::Done(Ok(found)) => assert!(found.is_empty()),
        other => panic!("unexpected step: {other:?}"),
    }
    match fetch_recommendations(&with, FetchStage::Primary(ran(1, b"", b""))) {
        FetchStep::Done(Err(error)) => assert_eq!(
            error.message(),
            "`yt-dlp` recommendation search failed: "
        ),
        other => panic!("unexpected step: {other:?}"),
    }
}

#[test]
fn only_the_brand_mark_is_taken_off_a_title() {
    assert_eq!(sanitize_title("Example Title | PoweredbyREC."), "Example Title");
    assert_eq!(sanitize_title("Example Title"), "Example Title");
    assert_eq!(sanitize_title(" | PoweredbyREC. x"), " | PoweredbyREC. x");
}

#[test]
fn candidates_stand_in_the_order_of_the_entries() {
    let few = r#"{"entries":[{"id":"c","title":"C"},{"id":"a","title":"A"}]}"#;
    let more = r#"{"entries":[{"id":"c","title":"C"},{"id":"a","title":"A"},{"id":"c","title":"D"},{"id":"b","title":"B"}]}"#;
    let few = parse_recommendations(few, &None).unwrap();
    let more = parse_recommendations(more, &None).unwrap();
    assert_eq!(few.len(), 2);
    assert_eq!(few[..], more[..2]);
    assert_eq!(more[0].title, "C");
    assert_eq!(more[2].video_id, "b");
}

/// Runs a whole search, with the same output for each of its runs.
fn whole_search(seed: &RecommendationSeed, stdout: &[u8]) -> (Vec<String>, usize) {
    let mut queries = Vec::new();
    let mut stage = FetchStage::Start;
    loop {
        match fetch_recommendations(seed, stage) {
            FetchStep::Search { query, round } => {
                queries.push(query);
                stage = round.completed(ran(0, stdout, b""));
            }
            FetchStep::Done(found) => return (queries, found.unwrap().len()),
        }
    }
}

#[test]
fn a_search_runs_once_or_twice() {
    let nothing = br#"{"entries":[]}"#;
    let something = br#"{"entries":[{"id":"b","title":"B"}]}"#;
    let with = seed(Some("A"));
    assert_eq!(
        whole_search(&with, nothing),
        (vec!["A Song".to_string(), "Song".to_string()], 0)
    );
    assert_eq!(
        whole_search(&with, something),
        (vec!["A Song".to_string()], 1)
    );
    assert_eq!(
        whole_search(&seed(None), nothing),
        (vec!["Song".to_string()], 0)
    );
}
