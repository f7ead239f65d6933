use ytplay::error::AppError;
use ytplay::text;
use ytplay::url::{
    looks_like_youtube_id, looks_like_youtube_url_without_scheme, normalize_url, resolve_url,
    UrlStep,
};

#[test]
fn uses_cli_argument_without_prompting() {
    let step = resolve_url(
        Some(" https://youtube.com/watch?v=abc ".to_string()),
        true,
        None,
    );

    // No line is asked for, so nothing is prompted.
    assert!(!matches!(step, UrlStep::ReadLine { .. }));
    assert_eq!(
        step,
        UrlStep::Done(Ok("https://youtube.com/watch?v=abc".to_string()))
    );
}

#[test]
fn prompts_for_url_in_interactive_mode() {
    let step = resolve_url(None, true, None);
    assert_eq!(
        step,
        UrlStep::ReadLine {
            prompt: Some("Paste YouTube URL: ".to_string())
        }
    );

    let step = resolve_url(None, true, Some("https://youtu.be/demo\n".to_string()));
    assert_eq!(step, UrlStep::Done(Ok("https://youtu.be/demo".to_string())));
}

#[test]
fn rejects_missing_url_in_non_interactive_mode() {
    assert_eq!(
        resolve_url(None, false, None),
        UrlStep::ReadLine { prompt: None }
    );

    let step = resolve_url(None, false, Some(String::new()));
    match step {
        UrlStep::Done(Err(error)) => {
            assert!(error
                .message()
                .contains("Pass a quoted YouTube URL as an argument"));
            assert_eq!(error, AppError::NoUrl);
        }
        other => panic!("unexpected step: {other:?}"),
    }
}

#[test]
fn reads_url_from_piped_stdin_in_non_interactive_mode() {
    assert_eq!(
        resolve_url(None, false, None),
        UrlStep::ReadLine { prompt: None }
    );
    let step = resolve_url(
        None,
        false,
        Some("https://www.youtube.com/watch?v=stdin123\n".to_string()),
    );
    assert_eq!(
        step,
        UrlStep::Done(Ok("https://www.youtube.com/watch?v=stdin123".to_string()))
    );
}

#[test]
fn normalizes_bare_video_id_to_watch_url() {
    let normalized = normalize_url("dQw4w9WgXcQ".to_string()).unwrap();
    assert_eq!(normalized, "https://www.youtube.com/watch?v=dQw4w9WgXcQ");
}

#[test]
fn adds_scheme_to_youtube_host_without_one() {
    let normalized = normalize_url("youtu.be/dQw4w9WgXcQ".to_string()).unwrap();
    assert_eq!(normalized, "https://youtu.be/dQw4w9WgXcQ");
    assert_eq!(
        normalize_url("www.youtube.com/watch?v=1".to_string()).unwrap(),
        "https://www.youtube.com/watch?v=1"
    );
    assert_eq!(
        normalize_url("youtube.com/".to_string()).unwrap(),
        "https://youtube.com/"
    );
}

#[test]
fn an_interactive_blank_line_is_an_empty_url() {
    assert_eq!(
        resolve_url(None, true, Some(" \t\n".to_string())),
        UrlStep::Done(Err(AppError::EmptyUrl))
    );
    assert_eq!(
        resolve_url(Some("  ".to_string()), false, None),
        UrlStep::Done(Err(AppError::EmptyUrl))
    );
    assert_eq!(AppError::EmptyUrl.message(), "URL cannot be empty.");
}

#[test]
fn ids_have_eleven_plain_characters() {
    assert!(looks_like_youtube_id("a-b_c123XYZ"));
    assert!(!looks_like_youtube_id("a-b_c123XY"));
    assert!(!looks_like_youtube_id("a-b_c123XYZ0"));
    assert!(!looks_like_youtube_id("a-b_c123XY!"));
    assert!(!looks_like_youtube_id("a-b_c123XY\u{e9}"));
    assert!(!looks_like_youtube_id("a-b_c123X\u{e9}"));
    assert!(!looks_like_youtube_url_without_scheme("https://youtu.be/x"));
    assert!(!looks_like_youtube_url_without_scheme("youtu.be"));
}

#[test]
fn normalizing_twice_is_normalizing_once() {
    for input in [
        "dQw4w9WgXcQ",
        " youtube.com/watch?v=1 ",
        "https://example.com/a b",
        "x",
    ] {
        let once = normalize_url(input.to_string()).unwrap();
        let twice = normalize_url(once.clone()).unwrap();
        assert_eq!(once, twice);
    }
}

#[test]
fn white_space_is_that_of_unicode() {
    let mut code: u32 = 0;
    while code <= 0x10_ffff {
        if let Some(c) = char::from_u32(code) {
            assert_eq!(text::white_space(c), c.is_whitespace(), "{code:x}");
        }
        code += 1;
    }
}

#[test]
fn trimming_agrees_with_the_standard_library() {
    for input in [
        "",
        " ",
        "\u{3000}a b\u{85}\r\n",
        "\u{feff}x",
        "  a",
        "a  ",
        "\u{180e}a\u{200b}",
    ] {
        assert_eq!(text::trim(input), input.trim());
        assert_eq!(text::trim_end(input), input.trim_end());
    }
}

#[test]
fn numbers_are_written_in_decimal() {
    for n in [0u64, 7, 10, 99, 100, 1234567890, u64::MAX] {
        assert_eq!(text::decimal_text(n), n.to_string());
        assert_eq!(text::two_digit_text(n), format!("{n:02}"));
    }
    for n in [0i32, -1, 42, i32::MIN, i32::MAX] {
        assert_eq!(text::signed_decimal_text(n), n.to_string());
    }
}

#[test]
fn prefixes_and_suffixes_are_compared_by_character() {
    assert!(text::starts_with("\u{e9}t\u{e9}", "\u{e9}t"));
    assert!(!text::starts_with("ab", "abc"));
    assert!(text::ends_with("\u{e9}t\u{e9}", "t\u{e9}"));
    assert!(!text::ends_with("ab", "b "));
    assert_eq!(text::repeat('#', 3), "###");
    assert_eq!(text::chars_of("a\u{e9}"), vec!['a', '\u{e9}']);
    assert_eq!(text::text_of(&vec!['a', 'b', 'c'], 1, 3), "bc");
}
