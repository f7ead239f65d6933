use ytplay::cli::{run, run_cli, RunAction, RunEvent, RunPhase};
use ytplay::error::{format_exit_status, AppError};
use ytplay::json::{parse_json, Double, Json, JsonNumber};
use ytplay::player::{PlaybackMode, PlaybackOutcome};
use ytplay::stream::{
    extract_stream, extract_video_metadata, metadata_of, parse_stream_output,
    parse_video_metadata, ExtractedStream,
};
use ytplay::tools::{
    connect_to_socket, exit_code, find_on_path, ipc_mpv_command, is_executable,
    missing_dependency_error, mpv_command, yt_dlp_metadata_command, yt_dlp_stream_command,
    CommandOutput, Dependencies, SocketStep, ToolRun,
};

fn ran(code: i32, stdout: &[u8], stderr: &[u8]) -> ToolRun {
    ToolRun::Finished(CommandOutput {
        code: Some(code),
        stdout: stdout.to_vec(),
        stderr: stderr.to_vec(),
    })
}

#[test]
fn builds_yt_dlp_command_with_expected_flags() {
    assert_eq!(
        yt_dlp_stream_command("https://example.com/watch?v=1"),
        vec![
            "--no-playlist",
            "--no-warnings",
            "-f",
            "bestaudio/best",
            "--get-url",
            "https://example.com/watch?v=1",
        ]
    );
}

#[test]
fn builds_metadata_command() {
    assert_eq!(
        yt_dlp_metadata_command("u"),
        vec![
            "--no-playlist",
            "--no-warnings",
            "--skip-download",
            "--dump-single-json",
            "u"
        ]
    );
}

#[test]
fn parses_video_metadata_json() {
    let metadata = parse_video_metadata(
        r#"{"id":"abc123","title":"Example Title","uploader":"Example Uploader"}"#,
    )
    .unwrap();

    assert_eq!(metadata.video_id.as_deref(), Some("abc123"));
    assert_eq!(metadata.title, "Example Title");
    assert_eq!(metadata.uploader.as_deref(), Some("Example Uploader"));
}

#[test]
fn parses_video_metadata_and_strips_branding_suffix() {
    let metadata = parse_video_metadata(
        r#"{"id":"abc123","title":"Example Title | PoweredbyREC.","uploader":"Example Uploader"}"#,
    )
    .unwrap();

    assert_eq!(metadata.title, "Example Title");
}

#[test]
fn parses_stream_url_output() {
    let stream_url = parse_stream_output("https://stream.example/audio\n").unwrap();
    assert_eq!(stream_url, "https://stream.example/audio");
}

#[test]
fn builds_mpv_command_with_low_memory_flags() {
    assert_eq!(
        mpv_command("https://stream.example/audio"),
        vec![
            "--no-video",
            "--cache=yes",
            "--cache-secs=2",
            "--cache-on-disk=no",
            "--demuxer-max-bytes=8MiB",
            "--demuxer-max-back-bytes=1MiB",
            "https://stream.example/audio",
        ]
    );
}

#[test]
fn missing_dependency_error_mentions_brew_install() {
    let message = missing_dependency_error("yt-dlp").message();
    assert!(message.contains("brew install yt-dlp mpv"));
    assert_eq!(
        message,
        "Required dependency `yt-dlp` was not found on PATH. Install dependencies with: brew install yt-dlp mpv"
    );
}

#[test]
fn builds_ipc_mpv_command_with_terminal_flags() {
    let args = ipc_mpv_command("https://stream.example/audio", "/tmp/ytplay-test.sock");

    assert!(args.contains(&"--input-terminal=no".to_string()));
    assert!(args.contains(&"--terminal=no".to_string()));
    assert!(args.contains(&"--force-window=no".to_string()));
    assert!(args.contains(&"--input-ipc-server=/tmp/ytplay-test.sock".to_string()));
    assert_eq!(args.len(), 11);
    assert_eq!(args[6], "https://stream.example/audio");
}

/// Takes a video from its URL to the start of its playback.
fn play(url: &str, metadata: ToolRun, stream: ToolRun, ui: bool) -> RunAction {
    let (phase, action) = run(RunPhase::Resolving, RunEvent::Url(Ok(url.to_string())), ui);
    assert!(matches!(action, Some(RunAction::DetectTools)));
    let (phase, action) = run(phase, RunEvent::Tools(Ok(())), ui);
    assert!(matches!(action, Some(RunAction::LookUp { url: looked_up }) if looked_up == url));
    let (phase, action) = run(phase, RunEvent::Metadata(metadata), ui);
    match action {
        Some(RunAction::FindStream { url: sought }) => assert_eq!(sought, url),
        other => return other.unwrap(),
    }
    let (_, action) = run(phase, RunEvent::Stream(stream), ui);
    action.unwrap()
}

#[test]
fn plays_stream_with_fake_tools() {
    let url = "https://www.youtube.com/watch?v=test123";
    let output = b"https://stream.example/audio\n";

    match play(url, ran(0, output, b""), ran(0, output, b""), false) {
        RunAction::Play {
            mode,
            stream_url,
            title,
            recommend,
        } => {
            assert_eq!(mode, PlaybackMode::Simple);
            assert_eq!(stream_url, "https://stream.example/audio");
            assert!(title.is_none());
            assert!(recommend.is_none());

            let mpv_args = mpv_command(&stream_url);
            assert!(mpv_args.contains(&"--no-video".to_string()));
            assert!(mpv_args.contains(&"--cache-on-disk=no".to_string()));
            assert!(mpv_args.contains(&"https://stream.example/audio".to_string()));
        }
        other => panic!("unexpected action: {other:?}"),
    }

    let ytdlp_args = yt_dlp_stream_command(url);
    assert!(ytdlp_args.contains(&"--no-playlist".to_string()));
    assert!(ytdlp_args.contains(&"--get-url".to_string()));
    assert!(ytdlp_args.contains(&"https://www.youtube.com/watch?v=test123".to_string()));

    let (phase, action) = run(
        RunPhase::Playing,
        RunEvent::Played(Ok(PlaybackOutcome::Finished(0))),
        false,
    );
    assert!(matches!(phase, RunPhase::Over));
    assert!(matches!(action, Some(RunAction::Exit(0))));
}

#[test]
fn surfaces_ytdlp_failures() {
    let failed = || ran(7, b"", b"extract failed\n");
    let action = play(
        "https://www.youtube.com/watch?v=broken",
        failed(),
        failed(),
        false,
    );
    match action {
        RunAction::Fail(error) => {
            let farewell = run_cli(Err(error));
            assert_ne!(farewell.code, 0);
            let stderr = farewell.complaint.unwrap();
            assert!(stderr.contains("yt-dlp"));
            assert!(stderr.contains("extract failed"));
            assert_eq!(
                stderr,
                "Error: `yt-dlp` metadata lookup failed with status 7: extract failed"
            );
        }
        other => panic!("unexpected action: {other:?}"),
    }
}

#[test]
fn reports_missing_dependency() {
    let error = Dependencies::<String>::detect(None, None).unwrap_err();
    let (_, action) = run(
        RunPhase::Detecting {
            url: "https://www.youtube.com/watch?v=test123".to_string(),
        },
        RunEvent::Tools(Err(error)),
        false,
    );
    match action {
        Some(RunAction::Fail(error)) => {
            let farewell = run_cli(Err(error));
            assert_eq!(farewell.code, 1);
            let stderr = farewell.complaint.unwrap();
            assert!(stderr.contains("Required dependency"));
            assert!(stderr.contains("brew install yt-dlp mpv"));
        }
        other => panic!("unexpected action: {other:?}"),
    }
}

#[test]
fn accepts_url_from_piped_stdin() {
    let url = match ytplay::url::resolve_url(
        None,
        false,
        Some("https://www.youtube.com/watch?v=piped123\n".to_string()),
    ) {
        ytplay::url::UrlStep::Done(Ok(url)) => url,
        other => panic!("unexpected step: {other:?}"),
    };
    let output = b"https://stream.example/from-stdin\n";
    match play(&url, ran(0, output, b""), ran(0, output, b""), false) {
        RunAction::Play { stream_url, .. } => {
            assert!(mpv_command(&stream_url)
                .contains(&"https://stream.example/from-stdin".to_string()));
        }
        other => panic!("unexpected action: {other:?}"),
    }
}

#[test]
fn described_video_is_played_with_recommendations_in_a_terminal() {
    let description = br#"{"id":"v1","title":"T","channel":"C"}"#;
    match play(
        "u",
        ran(0, description, b""),
        ran(0, b"\n  s \n", b""),
        true,
    ) {
        RunAction::Play {
            mode,
            stream_url,
            title,
            recommend,
        } => {
            assert_eq!(mode, PlaybackMode::TerminalUi);
            assert_eq!(stream_url, "s");
            assert_eq!(title.as_deref(), Some("T"));
            let seed = recommend.unwrap();
            assert_eq!(seed.title, "T");
            assert_eq!(seed.uploader.as_deref(), Some("C"));
            assert_eq!(seed.current_video_id.as_deref(), Some("v1"));
        }
        other => panic!("unexpected action: {other:?}"),
    }
}

#[test]
fn next_video_is_looked_up_by_its_id() {
    let (phase, action) = run(
        RunPhase::Playing,
        RunEvent::Played(Ok(PlaybackOutcome::PlayNext("abc".to_string()))),
        true,
    );
    assert!(matches!(phase, RunPhase::LookingUp { url } if url == "abc"));
    assert!(matches!(action, Some(RunAction::LookUp { url }) if url == "abc"));

    let (phase, action) = run(RunPhase::Over, RunEvent::Tools(Ok(())), true);
    assert!(matches!(phase, RunPhase::Over));
    assert!(action.is_none());
}

#[test]
fn playback_errors_end_the_program() {
    let (_, action) = run(
        RunPhase::Playing,
        RunEvent::Played(Err(AppError::PlaybackBroken)),
        true,
    );
    assert!(matches!(action, Some(RunAction::Fail(AppError::PlaybackBroken))));
    let (_, action) = run(
        RunPhase::Resolving,
        RunEvent::Url(Err(AppError::NoUrl)),
        true,
    );
    assert!(matches!(action, Some(RunAction::Fail(AppError::NoUrl))));
    assert_eq!(run_cli(Ok(3)).code, 3);
    assert!(run_cli(Ok(3)).complaint.is_none());
}

#[test]
fn metadata_errors_are_told_apart() {
    assert_eq!(
        parse_video_metadata(r#"{"id":"x"}"#).unwrap_err(),
        AppError::MetadataWithoutTitle
    );
    assert_eq!(
        parse_video_metadata(r#"{"title":5}"#).unwrap_err(),
        AppError::MetadataWithoutTitle
    );
    let error = parse_video_metadata("nonsense").unwrap_err();
    assert_eq!(error.message(), "failed to parse yt-dlp metadata JSON");
    assert_eq!(
        error.report(),
        "failed to parse yt-dlp metadata JSON: expected ident at line 1 column 2"
    );
    assert!(matches!(
        extract_video_metadata(ran(0, b"\xff", b"")).unwrap_err(),
        AppError::MetadataNotText { cause } if cause == "invalid utf-8 sequence of 1 bytes from index 0"
    ));
    assert_eq!(
        extract_video_metadata(ToolRun::NotStarted {
            program: "/bin/yt-dlp".to_string(),
            cause: "gone".to_string()
        })
        .unwrap_err()
        .report(),
        "failed to start `/bin/yt-dlp`: gone"
    );
    assert!(extract_video_metadata(ran(0, b"no json", b""))
        .unwrap()
        .is_none());
    assert_eq!(
        extract_video_metadata(ran(0, b"{}", b"")).unwrap_err(),
        AppError::MetadataWithoutTitle
    );
}

#[test]
fn stream_errors_are_told_apart() {
    assert_eq!(
        parse_stream_output(" \n\r\n").unwrap_err(),
        AppError::NoStreamUrl
    );
    assert_eq!(
        AppError::NoStreamUrl.message(),
        "`yt-dlp` did not return a playable stream URL."
    );
    let error = extract_stream(None, ran(2, b"", b" bad \xff\n")).unwrap_err();
    assert_eq!(
        error.message(),
        "`yt-dlp` failed with status 2: bad \u{fffd}"
    );
    let killed = ToolRun::Finished(CommandOutput {
        code: None,
        stdout: Vec::new(),
        stderr: Vec::new(),
    });
    assert_eq!(
        extract_stream(None, killed).unwrap_err().message(),
        "`yt-dlp` failed with status terminated by signal: "
    );
    assert!(matches!(
        extract_stream(None, ran(0, b"\xe9", b"")).unwrap_err(),
        AppError::StreamNotText { .. }
    ));
    assert_eq!(
        parse_stream_output("\r\n first \r\nsecond").unwrap(),
        "first"
    );
}

#[test]
fn uploader_comes_before_channel() {
    let channel = parse_video_metadata(r#"{"title":"t","channel":"c"}"#).unwrap();
    assert_eq!(channel.uploader.as_deref(), Some("c"));
    let both = parse_video_metadata(r#"{"title":"t","uploader":"u","channel":"c"}"#).unwrap();
    assert_eq!(both.uploader.as_deref(), Some("u"));
    let hidden = parse_video_metadata(r#"{"title":"t","uploader":null,"channel":"c"}"#).unwrap();
    assert_eq!(hidden.uploader, None);
}

#[test]
fn metadata_are_read_from_a_document() {
    let description = Json::Object(vec![
        ("id".to_string(), Json::Text("x".to_string())),
        (
            "title".to_string(),
            Json::Text("A | PoweredbyREC.".to_string()),
        ),
    ]);
    let metadata = metadata_of(&description).unwrap();
    assert_eq!(metadata.title, "A");
    assert_eq!(metadata.video_id.as_deref(), Some("x"));
    assert_eq!(metadata.uploader, None);
}

#[test]
fn streams_without_a_title_have_no_seed() {
    let stream = |title: Option<&str>| ExtractedStream {
        title: title.map(str::to_string),
        stream_url: "s".to_string(),
        video_id: None,
        uploader: None,
    };
    assert!(stream(None).recommendation_seed().is_none());
    assert!(stream(Some(" \n")).recommendation_seed().is_none());
    assert_eq!(
        stream(Some(" a ")).recommendation_seed().unwrap().title,
        " a "
    );
}

#[test]
fn documents_are_read_into_plain_values() {
    let number = |unsigned: Option<u64>, value: f64| {
        Json::Number(JsonNumber {
            unsigned,
            double: Some(Double {
                bits: value.to_bits(),
            }),
        })
    };
    assert_eq!(
        parse_json(r#"{"b":[1,-2,2.5,true,null],"a":"x"}"#).unwrap(),
        Json::Object(vec![
            ("a".to_string(), Json::Text("x".to_string())),
            (
                "b".to_string(),
                Json::Array(vec![
                    number(Some(1), 1.0),
                    number(None, -2.0),
                    number(None, 2.5),
                    Json::Bool(true),
                    Json::Null,
                ])
            ),
        ])
    );
    assert_eq!(
        parse_json("[1,").unwrap_err(),
        "EOF while parsing a value at line 1 column 3"
    );
}

#[test]
fn fields_are_found_by_their_key() {
    let json = parse_json(r#"{"k":"v","n":3,"o":{}}"#).unwrap();
    assert_eq!(json.field("k"), Some(&Json::Text("v".to_string())));
    assert_eq!(json.field("x"), None);
    assert_eq!(Json::Null.field("k"), None);
    assert_eq!(json.text_field("k").as_deref(), Some("v"));
    assert_eq!(json.text_field("n"), None);
    assert_eq!(json.field("n").unwrap().as_unsigned(), Some(3));
    assert_eq!(json.field("k").unwrap().as_bool(), None);
    assert!(json.field("k").unwrap().as_items().is_none());
    assert_eq!(json.take_field("o"), Some(Json::Object(Vec::new())));
}

#[test]
fn exit_codes_are_bytes() {
    assert_eq!(exit_code(Some(0)), 0);
    assert_eq!(exit_code(Some(4)), 4);
    assert_eq!(exit_code(Some(256)), 255);
    assert_eq!(exit_code(Some(-1)), 0);
    assert_eq!(exit_code(None), 1);
    assert_eq!(format_exit_status(Some(-7)), "-7");
    assert_eq!(format_exit_status(None), "terminated by signal");
}

#[test]
fn first_executable_on_the_path_is_taken() {
    assert_eq!(find_on_path(&vec![false, true, true]), Some(1));
    assert_eq!(find_on_path(&vec![false]), None);
    assert!(is_executable(true, Some(0o755)));
    assert!(is_executable(true, Some(0o001)));
    assert!(!is_executable(true, Some(0o644)));
    assert!(!is_executable(false, Some(0o755)));
    assert!(!is_executable(true, None));
    let found = Dependencies::detect(Some("/bin/y"), Some("/bin/m")).unwrap();
    assert_eq!(found.yt_dlp, "/bin/y");
    assert_eq!(found.mpv, "/bin/m");
    assert_eq!(
        Dependencies::detect(Some("/bin/y"), None).unwrap_err(),
        AppError::MissingDependency {
            tool: "mpv".to_string()
        }
    );
}

#[test]
fn socket_is_tried_for_five_seconds() {
    assert_eq!(connect_to_socket(true, 9_000_000_000), SocketStep::Use);
    assert_eq!(
        connect_to_socket(false, 4_999_999_999),
        SocketStep::RetryAfterMillis(50)
    );
    assert_eq!(connect_to_socket(false, 5_000_000_000), SocketStep::GiveUp);
    assert_eq!(
        AppError::SocketUnreachable {
            socket: "/s".to_string(),
            reason: "no".to_string()
        }
        .report(),
        "failed to connect to mpv IPC socket at /s: no"
    );
    let error = AppError::Io {
        context: "failed to write prompt".to_string(),
        cause: "closed".to_string(),
    };
    assert_eq!(error.message(), "failed to write prompt");
    assert_eq!(error.cause().as_deref(), Some("closed"));
    assert_eq!(error.report(), "failed to write prompt: closed");
}
