use ytplay::json::Double;
use ytplay::player::{Control, PlaybackState};
use ytplay::ui::{
    centered_cell, centered_offset, compose_lines, content_width_for, control_rows_for_width,
    draw_centered_line, fit_text, format_control_row, format_timestamp, playback_control_hints,
    poll_control, progress_bar, progress_bar_width, render, DisplayLine, Key, LineStyle,
    PlaybackView, Readout,
};
use ytplay::up_next::{OverlayItem, UpNextOverlayView};

fn number(value: f64) -> Double {
    Double {
        bits: value.to_bits(),
    }
}

#[test]
fn formats_progress_bar_with_known_duration() {
    let filled = (0.25f64 * 20.0).round() as usize;
    let rendered = progress_bar(filled, 20);
    assert_eq!(rendered, "[#####---------------]");
}

#[test]
fn formats_progress_bar_without_duration() {
    let filled = (0.0f64 * 10.0).round() as usize;
    let rendered = progress_bar(filled, 10);
    assert_eq!(rendered, "[----------]");
}

#[test]
fn formats_timestamps_for_minutes_and_hours() {
    assert_eq!(format_timestamp(65.0f64.round() as u64), "01:05");
    assert_eq!(format_timestamp(3723.0f64.round() as u64), "01:02:03");
}

#[test]
fn builds_playback_view_strings() {
    let state = PlaybackState {
        title: "Test Track".to_string(),
        time_pos: number(15.0),
        duration: Some(number(60.0)),
        paused: true,
        volume: number(100.0),
        muted: true,
    };
    let readout = Readout {
        volume_percent: "50".to_string(),
        elapsed_seconds: 15,
        total_seconds: 60,
        played: number(15.0 / 60.0),
    };

    let view = PlaybackView::from_state(
        &state,
        readout,
        Some("Up Next: Another Song".to_string()),
        None,
    );
    assert_eq!(view.title, "Test Track");
    assert_eq!(view.status, "Paused");
    assert_eq!(view.volume, "50% (muted)");
    assert_eq!(view.elapsed, "00:15");
    assert_eq!(view.total, "01:00");
    assert!((f64::from_bits(view.progress_ratio.bits) - 0.25).abs() < f64::EPSILON);
    assert_eq!(view.queue_status.as_deref(), Some("Up Next: Another Song"));
}

#[test]
fn chooses_multiple_control_rows_for_narrow_terminals() {
    let rows = control_rows_for_width(50, &playback_control_hints());
    assert_eq!(rows.len(), 8);
}

#[test]
fn truncates_long_text_with_ascii_ellipsis() {
    assert_eq!(fit_text("abcdefghijklmnopqrstuvwxyz", 10), "abcdefg...");
}

fn song_view(overlay: Option<UpNextOverlayView>) -> PlaybackView {
    let state = PlaybackState {
        title: "Test Track".to_string(),
        time_pos: number(10.0),
        duration: Some(number(60.0)),
        paused: false,
        volume: number(100.0),
        muted: false,
    };
    let readout = Readout {
        volume_percent: "50".to_string(),
        elapsed_seconds: 10,
        total_seconds: 60,
        played: number(10.0 / 60.0),
    };
    PlaybackView::from_state(
        &state,
        readout,
        Some("Up Next: Song B".to_string()),
        overlay,
    )
}

#[test]
fn composes_overlay_lines() {
    let view = song_view(Some(UpNextOverlayView {
        heading: "Up Next".to_string(),
        message: "Autoplaying 1 in 8s".to_string(),
        items: vec![
            OverlayItem {
                text: "1. Song B".to_string(),
                selected: true,
            },
            OverlayItem {
                text: "2. Song C".to_string(),
                selected: false,
            },
        ],
        help_lines: vec!["1-5 choose   Enter play   Q stop".to_string()],
    }));

    let lines = compose_lines(&view, 80, 12);
    assert!(lines.iter().any(|line| line.text == "Up Next"));
    assert!(lines
        .iter()
        .any(|line| line.text.contains("Autoplaying 1 in 8s")));
    assert!(lines.iter().any(|line| {
        line.text.contains("1. Song B") && matches!(line.style, LineStyle::Selected)
    }));

    let texts: Vec<&str> = lines.iter().map(|line| line.text.as_str()).collect();
    assert_eq!(
        &texts[3..],
        &[
            "00:10 / 01:00",
            "",
            "Status: Playing  Volume: 50%",
            "Up Next: Song B",
            "",
            "Up Next",
            "Autoplaying 1 in 8s",
            "",
            "1. Song B",
            "2. Song C",
            "",
            "1-5 choose   Enter play   Q stop",
        ]
    );
    assert_eq!(texts[2].len(), 74);
    assert!(texts[2].starts_with("[############-"));
}

#[test]
fn composes_control_rows_without_an_overlay() {
    let mut view = song_view(None);
    view.queue_status = None;
    let lines = compose_lines(&view, 96, 0);
    assert_eq!(lines.len(), 11);
    assert_eq!(lines[0].text, "Test Track");
    assert_eq!(lines[6].text, "");
    assert_eq!(
        lines[7].text,
        format!(
            "{:7}Play/Pause{:7}{:8}Back 30{:9}{:9}Fwd 30{:9}{:8}Volume -",
            "", "", "", "", "", "", ""
        )
    );
    assert!(lines[8].text.trim_start().starts_with('P'));
    assert!(lines[10].text.ends_with('Q'));
}

#[test]
fn unknown_totals_are_dashes() {
    let readout = Readout {
        volume_percent: "0".to_string(),
        elapsed_seconds: 359_999,
        total_seconds: 60,
        played: number(0.5),
    };
    let view = PlaybackView::from_state(&PlaybackState::default(), readout, None, None);
    assert_eq!(view.status, "Playing");
    assert_eq!(view.volume, "0%");
    assert_eq!(view.elapsed, "99:59:59");
    assert_eq!(view.total, "--:--");
    assert_eq!(view.progress_ratio, number(0.0));
    assert_eq!(format_timestamp(3599), "59:59");
    assert_eq!(format_timestamp(360_000), "100:00:00");
}

#[test]
fn short_widths_leave_no_room_for_an_ellipsis() {
    assert_eq!(fit_text("abcdef", 3), "abc");
    assert_eq!(fit_text("abcdef", 0), "");
    assert_eq!(fit_text("abcdef", 4), "a...");
    assert_eq!(fit_text("abcdef", 6), "abcdef");
    assert_eq!(fit_text("\u{e9}\u{e9}\u{e9}\u{e9}\u{e9}", 4), "\u{e9}...");
    let once = fit_text("abcdefghij", 7);
    assert_eq!(fit_text(&once, 7), once);
}

#[test]
fn cells_are_as_wide_as_asked() {
    assert_eq!(centered_cell("ab", 5), " ab  ");
    assert_eq!(centered_cell("abcdef", 5), "ab...");
    assert_eq!(centered_cell("", 3), "   ");
    assert_eq!(centered_offset(5, 2), 1);
    assert_eq!(centered_offset(2, 5), 0);
    assert_eq!(format_control_row(&[("ab", "x"), ("cd", "y")], 4, true), " ab  cd");
    assert_eq!(format_control_row(&[("ab", "x"), ("cd", "y")], 4, false), " x   y");
}

#[test]
fn control_rows_follow_the_width() {
    let hints = playback_control_hints();
    assert_eq!(hints.len(), 8);
    for (width, rows) in [(88u16, 4usize), (87, 6), (64, 6), (63, 8), (44, 8), (43, 16), (12, 16)] {
        let found = control_rows_for_width(width, &hints);
        assert_eq!(found.len(), rows);
        assert!(found.iter().all(|row| row.chars().count() <= width as usize));
    }
}

#[test]
fn bars_and_contents_have_limits() {
    assert_eq!(progress_bar_width(0), 12);
    assert_eq!(progress_bar_width(20), 12);
    assert_eq!(progress_bar_width(21), 13);
    assert_eq!(progress_bar_width(80), 72);
    assert_eq!(progress_bar_width(u16::MAX), 72);
    assert_eq!(progress_bar(99, 3), "[###]");
    assert_eq!(content_width_for(0), 36);
    assert_eq!(content_width_for(40), 36);
    assert_eq!(content_width_for(41), 37);
    assert_eq!(content_width_for(100), 96);
    assert_eq!(content_width_for(u16::MAX), 96);
}

#[test]
fn pictures_stand_in_the_middle() {
    let lines = vec![
        DisplayLine::normal("abcd".to_string()),
        DisplayLine::blank(),
        DisplayLine::selected("x".repeat(200)),
    ];
    let placed = render(&lines, 100, 24);
    assert_eq!(placed.len(), 3);
    assert_eq!((placed[0].column, placed[0].row), (48, 10));
    assert_eq!(placed[0].text, "abcd");
    assert_eq!(placed[0].style, LineStyle::Normal);
    assert_eq!((placed[1].column, placed[1].row), (50, 11));
    assert_eq!((placed[2].column, placed[2].row), (2, 12));
    assert_eq!(placed[2].text.len(), 96);
    assert_eq!(placed[2].style, LineStyle::Selected);

    let small = render(&lines, 10, 2);
    assert_eq!((small[0].column, small[0].row), (16, 0));
    assert_eq!(small[2].row, 2);

    let line = draw_centered_line(7, 3, 10, &DisplayLine::normal("ab".to_string()));
    assert_eq!((line.column, line.row), (11, 3));
}

#[test]
fn keys_ask_for_controls() {
    for (key, control) in [
        ('p', Control::TogglePause),
        ('j', Control::SeekBackward),
        ('l', Control::SeekForward),
        ('u', Control::VolumeDown),
        ('i', Control::VolumeUp),
        ('m', Control::ToggleMute),
        ('n', Control::ToggleUpNext),
        ('q', Control::Quit),
    ] {
        assert_eq!(poll_control(Key::Char(key), true), Some(control));
        assert_eq!(
            poll_control(Key::Char(key.to_ascii_uppercase()), true),
            Some(control)
        );
        assert_eq!(poll_control(Key::Char(key), false), None);
    }
    for index in 0..5usize {
        let digit = char::from_digit(index as u32 + 1, 10).unwrap();
        assert_eq!(
            poll_control(Key::Char(digit), true),
            Some(Control::SelectUpNext(index))
        );
    }
    assert_eq!(poll_control(Key::Char('6'), true), None);
    assert_eq!(poll_control(Key::Char('0'), true), None);
    assert_eq!(poll_control(Key::Up, true), Some(Control::MoveUpNext(-1)));
    assert_eq!(poll_control(Key::Left, true), Some(Control::MoveUpNext(-1)));
    assert_eq!(poll_control(Key::Down, true), Some(Control::MoveUpNext(1)));
    assert_eq!(poll_control(Key::Right, true), Some(Control::MoveUpNext(1)));
    assert_eq!(poll_control(Key::Enter, true), Some(Control::ConfirmUpNext));
    assert_eq!(poll_control(Key::Esc, true), Some(Control::CloseOverlay));
    assert_eq!(poll_control(Key::Other, true), None);
}

#[test]
fn hinted_keys_do_something() {
    for (_, key) in playback_control_hints() {
        let c = key.chars().next().unwrap();
        assert!(poll_control(Key::Char(c), true).is_some());
    }
}

#[test]
fn pictures_lie_on_the_screen() {
    let view = song_view(None);
    for columns in 36..130u16 {
        let width = content_width_for(columns);
        let lines = compose_lines(&view, width, usize::MAX);
        assert!(lines[2].text.len() <= width as usize);
        for line in render(&lines, columns, 40) {
            assert!(line.column as usize + line.text.chars().count() <= columns as usize);
            assert!(line.row < 40);
        }
    }
}

#[test]
fn positions_have_timestamps_of_their_own() {
    let mut seen: Vec<String> = (3500..3700u64).map(format_timestamp).collect();
    seen.sort();
    seen.dedup();
    assert_eq!(seen.len(), 200);
}

fn ratio_shown(duration: f64, played: f64) -> f64 {
    let state = PlaybackState {
        duration: Some(number(duration)),
        ..PlaybackState::default()
    };
    let readout = Readout {
        volume_percent: "50".to_string(),
        elapsed_seconds: 0,
        total_seconds: 0,
        played: number(played),
    };
    let view = PlaybackView::from_state(&state, readout, None, None);
    assert_eq!(view.total, "00:00");
    f64::from_bits(view.progress_ratio.bits)
}

#[test]
fn progress_lies_between_zero_and_one() {
    assert_eq!(ratio_shown(60.0, 0.25), 0.25);
    assert_eq!(ratio_shown(60.0, 1.0), 1.0);
    assert_eq!(ratio_shown(60.0, 1.5), 1.0);
    assert_eq!(ratio_shown(60.0, f64::INFINITY), 1.0);
    assert_eq!(ratio_shown(60.0, -0.5), 0.0);
    assert_eq!(ratio_shown(60.0, f64::NEG_INFINITY), 0.0);
    assert_eq!(ratio_shown(0.0, 0.5), 0.0);
    assert_eq!(ratio_shown(-0.0, 0.5), 0.0);
    assert_eq!(ratio_shown(-3.0, 0.5), 0.0);
    assert_eq!(ratio_shown(f64::MIN_POSITIVE, 0.5), 0.5);
}

#[test]
fn numbers_are_compared_by_their_bits() {
    let values = [
        f64::NEG_INFINITY,
        f64::MIN,
        -1.0,
        -f64::MIN_POSITIVE,
        -5e-324,
        -0.0,
        0.0,
        5e-324,
        0.5,
        1.0 - f64::EPSILON,
        1.0,
        1.0 + f64::EPSILON,
        2.0,
        f64::MAX,
        f64::INFINITY,
        f64::NAN,
        -f64::NAN,
    ];
    for value in values {
        assert_eq!(number(value).positive(), value > 0.0);
        assert_eq!(
            number(value).clamp_to_one(),
            number(value.clamp(0.0, 1.0)),
            "{value}"
        );
    }
}
