use ytplay::json::{parse_json, Double, Json, JsonNumber};
use ytplay::player::{
    apply_property_change, initial_request_name, observe_property, opening_messages,
    order_message, parse_player_event, play_stream, play_stream_simple, player_event_of,
    request_property, send_command, CommandWord, FieldValue, PlaybackMode, PlaybackOutcome,
    PlaybackState, PlayerEvent, PlayerOrder,
};

fn number(value: f64) -> Double {
    Double {
        bits: value.to_bits(),
    }
}

fn word(text: &str) -> CommandWord {
    CommandWord::Text(text.to_string())
}

#[test]
fn parses_property_change_event() {
    let event =
        parse_player_event(r#"{"event":"property-change","name":"pause","data":true}"#).unwrap();

    match event {
        PlayerEvent::PropertyChange { name, data } => {
            assert_eq!(name, "pause");
            assert_eq!(data, Json::Bool(true));
        }
        other => panic!("unexpected event: {other:?}"),
    }
}

#[test]
fn parses_get_property_response_into_property_change() {
    let event = parse_player_event(r#"{"request_id":101,"error":"success","data":55}"#).unwrap();

    match event {
        PlayerEvent::PropertyChange { name, data } => {
            assert_eq!(name, "volume");
            assert_eq!(
                data,
                Json::Number(JsonNumber {
                    unsigned: Some(55),
                    double: Some(number(55.0)),
                })
            );
        }
        other => panic!("unexpected event: {other:?}"),
    }
}

#[test]
fn events_without_a_name_or_data_are_read_as_far_as_they_go() {
    assert!(parse_player_event(r#"{"event":"property-change","data":1}"#).is_none());
    match parse_player_event(r#"{"event":"property-change","name":"duration"}"#).unwrap() {
        PlayerEvent::PropertyChange { name, data } => {
            assert_eq!(name, "duration");
            assert_eq!(data, Json::Null);
        }
        other => panic!("unexpected event: {other:?}"),
    }
    match parse_player_event(r#"{"event":"end-file","reason":"eof","error":3}"#).unwrap() {
        PlayerEvent::EndFile { reason, error } => {
            assert_eq!(reason.as_deref(), Some("eof"));
            assert_eq!(error, None);
        }
        other => panic!("unexpected event: {other:?}"),
    }
    assert!(matches!(
        parse_player_event(r#"{"event":"shutdown"}"#),
        Some(PlayerEvent::Shutdown)
    ));
    assert!(parse_player_event(r#"{"event":"seek"}"#).is_none());
    assert!(parse_player_event("no json").is_none());
    assert!(parse_player_event(r#"{"request_id":101}"#).is_none());
    assert!(parse_player_event(r#"{"request_id":7,"data":1}"#).is_none());
    assert!(parse_player_event(r#"{"request_id":-101,"data":1}"#).is_none());
    assert!(parse_player_event("[1]").is_none());
}

#[test]
fn an_event_that_is_no_text_leaves_a_reply() {
    let message = parse_json(r#"{"event":1,"request_id":103,"data":false}"#).unwrap();
    match player_event_of(message).unwrap() {
        PlayerEvent::PropertyChange { name, data } => {
            assert_eq!(name, "mute");
            assert_eq!(data, Json::Bool(false));
        }
        other => panic!("unexpected event: {other:?}"),
    }
}

#[test]
fn properties_change_the_state() {
    let mut state = PlaybackState::default();
    assert_eq!(state.title, "Loading stream...");
    assert_eq!(state.time_pos, number(0.0));
    assert_eq!(state.volume, number(100.0));
    assert_eq!(state.duration, None);

    let value = |text: &str| parse_json(text).unwrap();
    apply_property_change(&mut state, "time-pos", &value("1.5"));
    apply_property_change(&mut state, "duration", &value("60"));
    apply_property_change(&mut state, "pause", &value("true"));
    apply_property_change(&mut state, "volume", &value("80"));
    apply_property_change(&mut state, "mute", &value("true"));
    apply_property_change(&mut state, "media-title", &value("\"T\""));
    apply_property_change(&mut state, "speed", &value("2"));
    assert_eq!(state.time_pos, number(1.5));
    assert_eq!(state.duration, Some(number(60.0)));
    assert!(state.paused);
    assert_eq!(state.volume, number(80.0));
    assert!(state.muted);
    assert_eq!(state.title, "T");

    apply_property_change(&mut state, "time-pos", &Json::Null);
    apply_property_change(&mut state, "duration", &Json::Null);
    apply_property_change(&mut state, "pause", &value("1"));
    apply_property_change(&mut state, "volume", &value("\"x\""));
    apply_property_change(&mut state, "mute", &Json::Null);
    apply_property_change(&mut state, "media-title", &value("5"));
    assert_eq!(state.time_pos, number(1.5));
    assert_eq!(state.duration, None);
    assert!(state.paused);
    assert_eq!(state.volume, number(80.0));
    assert!(state.muted);
    assert_eq!(state.title, "T");
}

#[test]
fn later_values_count() {
    let mut state = PlaybackState::default();
    apply_property_change(&mut state, "volume", &parse_json("1").unwrap());
    apply_property_change(&mut state, "volume", &parse_json("2").unwrap());
    assert_eq!(state.volume, number(2.0));
}

#[test]
fn opening_asks_for_what_is_shown() {
    let messages = opening_messages(true);
    assert_eq!(messages.len(), 11);
    assert_eq!(opening_messages(false).len(), 9);
    assert_eq!(messages[0], observe_property(1, "time-pos"));
    assert_eq!(messages[4], observe_property(5, "mute"));
    assert_eq!(messages[5], request_property(101, "volume"));
    assert_eq!(messages[9], observe_property(6, "media-title"));
    assert_eq!(messages[10], request_property(105, "media-title"));
}

#[test]
fn replies_to_the_opening_name_what_was_asked() {
    for message in opening_messages(true) {
        if let Some(id) = message.request_id {
            let reply = format!("{{\"request_id\":{id},\"error\":\"success\",\"data\":null}}");
            match parse_player_event(&reply).unwrap() {
                PlayerEvent::PropertyChange { name, .. } => {
                    assert_eq!(message.command, vec![word("get_property"), word(&name)]);
                    assert_eq!(initial_request_name(id), Some(name.as_str()));
                }
                other => panic!("unexpected event: {other:?}"),
            }
        }
    }
    assert_eq!(initial_request_name(100), None);
}

#[test]
fn orders_become_commands() {
    let level = number(110.0);
    assert_eq!(
        order_message(PlayerOrder::TogglePause, level).command,
        vec![word("cycle"), word("pause")]
    );
    assert_eq!(
        order_message(PlayerOrder::SeekRelative(-30), level).command,
        vec![word("seek"), CommandWord::Integer(-30), word("relative")]
    );
    assert_eq!(
        order_message(
            PlayerOrder::AdjustVolume {
                from: number(100.0),
                by: 5
            },
            level
        )
        .command,
        vec![
            word("set_property"),
            word("volume"),
            CommandWord::Number(level)
        ]
    );
    assert_eq!(
        order_message(PlayerOrder::ToggleMute, level).command,
        vec![word("cycle"), word("mute")]
    );
    let quit = order_message(PlayerOrder::Quit, level);
    assert_eq!(quit.command, vec![word("quit")]);
    assert_eq!(quit.request_id, None);
}

#[test]
fn messages_are_objects_with_a_command() {
    let fields = send_command(request_property(102, "pause"));
    assert_eq!(fields.len(), 2);
    assert_eq!(fields[0].0, "command");
    assert_eq!(
        fields[0].1,
        FieldValue::Words(vec![word("get_property"), word("pause")])
    );
    assert_eq!(fields[1].0, "request_id");
    assert_eq!(fields[1].1, FieldValue::Identifier(102));

    let fields = send_command(observe_property(3, "pause"));
    assert_eq!(fields.len(), 1);
    assert_eq!(
        fields[0].1,
        FieldValue::Words(vec![
            word("observe_property"),
            CommandWord::Integer(3),
            word("pause")
        ])
    );
}

#[test]
fn playback_follows_the_terminal() {
    assert_eq!(play_stream(true), PlaybackMode::TerminalUi);
    assert_eq!(play_stream(false), PlaybackMode::Simple);
    assert_eq!(play_stream_simple(Some(4)), PlaybackOutcome::Finished(4));
    assert_eq!(play_stream_simple(None), PlaybackOutcome::Finished(1));
}
