//! The dialogue with `mpv`: what it reports, what it is told, what is known of it.
use crate::json;
use crate::json::Double;
use crate::json::Json;
use crate::json::JsonNumber;
use crate::json::JsonView;
use crate::text;
use vstd::prelude::*;

verus! {

/// Seconds that a jump back or forth covers.
pub const SEEK_SECONDS: i64 = 30;

/// Percent by which a key press changes the volume that is shown.
pub const UI_VOLUME_STEP: i64 = 5;

/// What is known of the playback.
#[derive(Debug)]
pub struct PlaybackState {
    pub title: String,
    pub time_pos: Double,
    pub duration: Option<Double>,
    pub paused: bool,
    pub volume: Double,
    pub muted: bool,
}

/// The content of a [`PlaybackState`].
pub struct StateView {
    pub title: Seq<char>,
    pub time_pos: Double,
    pub duration: Option<Double>,
    pub paused: bool,
    pub volume: Double,
    pub muted: bool,
}

impl View for PlaybackState {
    type V = StateView;

    open spec fn view(&self) -> StateView {
        StateView {
            title: self.title@,
            time_pos: self.time_pos,
            duration: self.duration,
            paused: self.paused,
            volume: self.volume,
            muted: self.muted,
        }
    }
}

/// The bits of the double-precision number 100, the volume at which `mpv` starts.
pub const HUNDRED_BITS: u64 = 0x4059_0000_0000_0000;

impl StateView {
    /// What is known before `mpv` has said anything.
    pub open spec fn initial(title: Seq<char>) -> StateView {
        StateView {
            title,
            time_pos: Double { bits: json::ZERO_BITS },
            duration: None,
            paused: false,
            volume: Double { bits: HUNDRED_BITS },
            muted: false,
        }
    }

    /// What is known after a property has changed. Data that do not fit the property are
    /// passed over, but for the duration, which is then unknown.
    pub open spec fn changed(self, name: Seq<char>, data: JsonView) -> StateView {
        if name == "time-pos"@ {
            match data.double() {
                Some(time_pos) => StateView { time_pos, ..self },
                None => self,
            }
        } else if name == "duration"@ {
            StateView { duration: data.double(), ..self }
        } else if name == "pause"@ {
            match data.truth() {
                Some(paused) => StateView { paused, ..self },
                None => self,
            }
        } else if name == "volume"@ {
            match data.double() {
                Some(volume) => StateView { volume, ..self },
                None => self,
            }
        } else if name == "mute"@ {
            match data.truth() {
                Some(muted) => StateView { muted, ..self },
                None => self,
            }
        } else if name == "media-title"@ {
            match data.text() {
                Some(title) => StateView { title, ..self },
                None => self,
            }
        } else {
            self
        }
    }
}

impl Default for PlaybackState {
    fn default() -> (r: PlaybackState)
        ensures
            r@ == StateView::initial("Loading stream..."@),
    {
        PlaybackState {
            title: "Loading stream...".to_owned(),
            time_pos: Double { bits: json::ZERO_BITS },
            duration: None,
            paused: false,
            volume: Double { bits: HUNDRED_BITS },
            muted: false,
        }
    }
}

/// Takes in the change of a property.
pub fn apply_property_change(state: &mut PlaybackState, name: &str, data: &Json)
    ensures
        final(state)@ == old(state)@.changed(name@, data@),
{
    if text::same_text(name, "time-pos") {
        if let Some(value) = data.as_double() {
            state.time_pos = value;
        }
    } else if text::same_text(name, "duration") {
        state.duration = data.as_double();
    } else if text::same_text(name, "pause") {
        if let Some(value) = data.as_bool() {
            state.paused = value;
        }
    } else if text::same_text(name, "volume") {
        if let Some(value) = data.as_double() {
            state.volume = value;
        }
    } else if text::same_text(name, "mute") {
        if let Some(value) = data.as_bool() {
            state.muted = value;
        }
    } else if text::same_text(name, "media-title") {
        if let Some(value) = data.as_text() {
            state.title = value;
        }
    }
}

/// What the listener can ask for.
#[derive(Debug, Clone, Copy, PartialEq, Eq, Structural)]
pub enum Control {
    TogglePause,
    SeekBackward,
    SeekForward,
    VolumeDown,
    VolumeUp,
    ToggleMute,
    ToggleUpNext,
    MoveUpNext(i32),
    SelectUpNext(usize),
    ConfirmUpNext,
    CloseOverlay,
    Quit,
}

/// How the playback of a stream ended.
#[derive(Debug, PartialEq)]
pub enum PlaybackOutcome {
    /// The player is done, with this exit code.
    Finished(u8),
    /// This is to be played next.
    PlayNext(String),
}

/// The content of a [`PlaybackOutcome`].
pub enum OutcomeView {
    Finished(u8),
    PlayNext(Seq<char>),
}

impl View for PlaybackOutcome {
    type V = OutcomeView;

    open spec fn view(&self) -> OutcomeView {
        match self {
            PlaybackOutcome::Finished(code) => OutcomeView::Finished(*code),
            PlaybackOutcome::PlayNext(input) => OutcomeView::PlayNext(input@),
        }
    }
}

/// How a stream is played.
#[derive(Debug, Clone, Copy, PartialEq, Eq, Structural)]
pub enum PlaybackMode {
    /// `mpv` has the terminal to itself.
    Simple,
    /// `mpv` runs out of sight, and the terminal shows what it does.
    TerminalUi,
}

/// Decides how a stream is played.
pub fn play_stream(use_terminal_ui: bool) -> (mode: PlaybackMode)
    ensures
        mode == if use_terminal_ui {
            PlaybackMode::TerminalUi
        } else {
            PlaybackMode::Simple
        },
{
    if use_terminal_ui {
        PlaybackMode::TerminalUi
    } else {
        PlaybackMode::Simple
    }
}

/// How playback by `mpv` alone ended, by the exit code of `mpv`.
pub fn play_stream_simple(code: Option<i32>) -> (outcome: PlaybackOutcome)
    ensures
        outcome == PlaybackOutcome::Finished(crate::tools::reported_code(code)),
{
    PlaybackOutcome::Finished(crate::tools::exit_code(code))
}

/// What `mpv` reports.
#[derive(Debug)]
pub enum PlayerEvent {
    PropertyChange { name: String, data: Json },
    EndFile { reason: Option<String>, error: Option<String> },
    Shutdown,
    Disconnected,
}

/// The content of a [`PlayerEvent`].
pub enum EventView {
    PropertyChange { name: Seq<char>, data: JsonView },
    EndFile { reason: Option<Seq<char>>, error: Option<Seq<char>> },
    Shutdown,
    Disconnected,
}

impl View for PlayerEvent {
    type V = EventView;

    open spec fn view(&self) -> EventView {
        match self {
            PlayerEvent::PropertyChange { name, data } => EventView::PropertyChange {
                name: name@,
                data: data@,
            },
            PlayerEvent::EndFile { reason, error } => EventView::EndFile {
                reason: text::text_view(*reason),
                error: text::text_view(*error),
            },
            PlayerEvent::Shutdown => EventView::Shutdown,
            PlayerEvent::Disconnected => EventView::Disconnected,
        }
    }
}

/// An event that may be absent, by its content.
pub open spec fn maybe_event(event: Option<PlayerEvent>) -> Option<EventView> {
    match event {
        Some(event) => Some(event@),
        None => None,
    }
}

/// The property that a request with an id asks for.
pub open spec fn requested_property(request_id: u64) -> Option<Seq<char>> {
    if request_id == 101 {
        Some("volume"@)
    } else if request_id == 102 {
        Some("pause"@)
    } else if request_id == 103 {
        Some("mute"@)
    } else if request_id == 104 {
        Some("duration"@)
    } else if request_id == 105 {
        Some("media-title"@)
    } else {
        None
    }
}

/// Names the property that a request with an id asks for.
pub fn initial_request_name(request_id: u64) -> (name: Option<&'static str>)
    ensures
        match name {
            Some(name) => requested_property(request_id) == Some(name@),
            None => requested_property(request_id) is None,
        },
{
    match request_id {
        101 => Some("volume"),
        102 => Some("pause"),
        103 => Some("mute"),
        104 => Some("duration"),
        105 => Some("media-title"),
        _ => None,
    }
}

/// What a named event of `mpv` means.
pub open spec fn named_event(event: Seq<char>, message: JsonView) -> Option<EventView> {
    if event == "property-change"@ {
        match message.text_field("name"@) {
            Some(name) => Some(
                EventView::PropertyChange {
                    name,
                    data: match message.field("data"@) {
                        Some(data) => data,
                        None => JsonView::Null,
                    },
                },
            ),
            None => None,
        }
    } else if event == "end-file"@ {
        Some(
            EventView::EndFile {
                reason: message.text_field("reason"@),
                error: message.text_field("error"@),
            },
        )
    } else if event == "shutdown"@ {
        Some(EventView::Shutdown)
    } else {
        None
    }
}

/// What the reply to a request means: the property has the value that came back.
pub open spec fn reply(message: JsonView) -> Option<EventView> {
    match message.field("request_id"@) {
        Some(id) => match id.unsigned() {
            Some(request_id) => match (requested_property(request_id), message.field("data"@)) {
                (Some(name), Some(data)) => Some(EventView::PropertyChange { name, data }),
                _ => None,
            },
            None => None,
        },
        None => None,
    }
}

/// What a message of `mpv` means: an event where it names one, else a reply.
pub open spec fn event_in(message: JsonView) -> Option<EventView> {
    match message.text_field("event"@) {
        Some(event) => named_event(event, message),
        None => reply(message),
    }
}

/// What a line from `mpv` means.
pub open spec fn event_in_line(line: Seq<char>) -> Option<EventView> {
    match json::json_reading(line) {
        Ok(message) => event_in(message),
        Err(_) => None,
    }
}

/// Reads what a message of `mpv` means.
pub fn player_event_of(message: Json) -> (event: Option<PlayerEvent>)
    ensures
        maybe_event(event) == event_in(message@),
{
    if let Some(event) = message.text_field("event") {
        if text::same_text(event.as_str(), "property-change") {
            return match message.text_field("name") {
                Some(name) => Some(
                    PlayerEvent::PropertyChange {
                        name,
                        data: match message.take_field("data") {
                            Some(data) => data,
                            None => Json::Null,
                        },
                    },
                ),
                None => None,
            };
        }
        if text::same_text(event.as_str(), "end-file") {
            return Some(
                PlayerEvent::EndFile {
                    reason: message.text_field("reason"),
                    error: message.text_field("error"),
                },
            );
        }
        if text::same_text(event.as_str(), "shutdown") {
            return Some(PlayerEvent::Shutdown);
        }
        return None;
    }
    let request_id: Option<u64> = match message.field("request_id") {
        Some(id) => id.as_unsigned(),
        None => None,
    };
    match request_id {
        Some(request_id) => match initial_request_name(request_id) {
            Some(name) => match message.take_field("data") {
                Some(data) => Some(PlayerEvent::PropertyChange { name: name.to_owned(), data }),
                None => None,
            },
            None => None,
        },
        None => None,
    }
}

/// Reads what a line from `mpv` means.
pub fn parse_player_event(line: &str) -> (event: Option<PlayerEvent>)
    ensures
        maybe_event(event) == event_in_line(line@),
{
    match json::parse_json(line) {
        Ok(message) => player_event_of(message),
        Err(_) => None,
    }
}

/// What `mpv` is told to do while it plays.
#[derive(Debug, Clone, Copy, PartialEq, Eq, Structural)]
pub enum PlayerOrder {
    TogglePause,
    SeekRelative(i64),
    /// Change the volume, which is `from` now, by as many percent as shown.
    AdjustVolume { from: Double, by: i64 },
    ToggleMute,
    Quit,
}

/// A word of a command for `mpv`.
#[derive(Debug, PartialEq)]
pub enum CommandWord {
    Text(String),
    Integer(i64),
    Number(Double),
}

/// The content of a [`CommandWord`].
pub enum WordView {
    Text(Seq<char>),
    Integer(i64),
    Number(Double),
}

impl View for CommandWord {
    type V = WordView;

    open spec fn view(&self) -> WordView {
        match self {
            CommandWord::Text(word) => WordView::Text(word@),
            CommandWord::Integer(value) => WordView::Integer(*value),
            CommandWord::Number(value) => WordView::Number(*value),
        }
    }
}

/// A message to `mpv`: a command and, where the reply matters, an id for it.
#[derive(Debug, PartialEq)]
pub struct CommandMessage {
    pub command: Vec<CommandWord>,
    pub request_id: Option<u64>,
}

/// The content of a [`CommandMessage`].
pub struct MessageView {
    pub command: Seq<WordView>,
    pub request_id: Option<u64>,
}

impl View for CommandMessage {
    type V = MessageView;

    open spec fn view(&self) -> MessageView {
        MessageView {
            command: Seq::new(self.command@.len(), |i: int| self.command@[i]@),
            request_id: self.request_id,
        }
    }
}

/// The value of a field of the JSON object that carries a message.
#[derive(Debug, PartialEq)]
pub enum FieldValue {
    Words(Vec<CommandWord>),
    Identifier(u64),
}

/// The content of a [`FieldValue`].
pub enum FieldView {
    Words(Seq<WordView>),
    Identifier(u64),
}

impl View for FieldValue {
    type V = FieldView;

    open spec fn view(&self) -> FieldView {
        match self {
            FieldValue::Words(words) => FieldView::Words(
                Seq::new(words@.len(), |i: int| words@[i]@),
            ),
            FieldValue::Identifier(id) => FieldView::Identifier(*id),
        }
    }
}

impl MessageView {
    /// The fields of the JSON object that carries a message.
    pub open spec fn fields(self) -> Seq<(Seq<char>, FieldView)> {
        let command = seq![("command"@, FieldView::Words(self.command))];
        match self.request_id {
            Some(id) => command.push(("request_id"@, FieldView::Identifier(id))),
            None => command,
        }
    }
}

/// Lays out the JSON object that carries a message to `mpv`, field by field.
pub fn send_command(message: CommandMessage) -> (r: Vec<(String, FieldValue)>)
    ensures
        Seq::new(r@.len(), |i: int| (r@[i].0@, r@[i].1@)) == message@.fields(),
{
    let mut r = vec![("command".to_owned(), FieldValue::Words(message.command))];
    if let Some(id) = message.request_id {
        r.push(("request_id".to_owned(), FieldValue::Identifier(id)));
    }
    assert(Seq::new(r@.len(), |i: int| (r@[i].0@, r@[i].1@)) =~= message@.fields());
    r
}

/// The contents of a list of messages.
pub open spec fn messages_view(messages: Seq<CommandMessage>) -> Seq<MessageView> {
    Seq::new(messages.len(), |i: int| messages[i]@)
}

/// A command without an id.
pub open spec fn plain(command: Seq<WordView>) -> MessageView {
    MessageView { command, request_id: None }
}

/// The message that carries an order. `level` is the volume that an order about the
/// volume comes to.
pub open spec fn message_for(order: PlayerOrder, level: Double) -> MessageView {
    match order {
        PlayerOrder::TogglePause => plain(
            seq![WordView::Text("cycle"@), WordView::Text("pause"@)],
        ),
        PlayerOrder::SeekRelative(seconds) => plain(
            seq![
                WordView::Text("seek"@),
                WordView::Integer(seconds),
                WordView::Text("relative"@),
            ],
        ),
        PlayerOrder::AdjustVolume { .. } => plain(
            seq![
                WordView::Text("set_property"@),
                WordView::Text("volume"@),
                WordView::Number(level),
            ],
        ),
        PlayerOrder::ToggleMute => plain(seq![WordView::Text("cycle"@), WordView::Text("mute"@)]),
        PlayerOrder::Quit => plain(seq![WordView::Text("quit"@)]),
    }
}

/// The message that has `mpv` report each change of a property.
pub open spec fn observation(id: i64, property: Seq<char>) -> MessageView {
    plain(
        seq![
            WordView::Text("observe_property"@),
            WordView::Integer(id),
            WordView::Text(property),
        ],
    )
}

/// The message that asks `mpv` for the value of a property.
pub open spec fn request(request_id: u64, property: Seq<char>) -> MessageView {
    MessageView {
        command: seq![WordView::Text("get_property"@), WordView::Text(property)],
        request_id: Some(request_id),
    }
}

/// The messages with which the dialogue starts. The title is asked for only where it is
/// not known.
pub open spec fn opening(observe_title: bool) -> Seq<MessageView> {
    let common = seq![
        observation(1, "time-pos"@),
        observation(2, "duration"@),
        observation(3, "pause"@),
        observation(4, "volume"@),
        observation(5, "mute"@),
        request(101, "volume"@),
        request(102, "pause"@),
        request(103, "mute"@),
        request(104, "duration"@),
    ];
    if observe_title {
        common + seq![observation(6, "media-title"@), request(105, "media-title"@)]
    } else {
        common
    }
}

fn word(text: &str) -> (r: CommandWord)
    ensures
        r@ == WordView::Text(text@),
{
    CommandWord::Text(text.to_owned())
}

fn message(command: Vec<CommandWord>) -> (r: CommandMessage)
    ensures
        r@ == plain(Seq::new(command@.len(), |i: int| command@[i]@)),
{
    let r = CommandMessage { command, request_id: None };
    assert(r@.command =~= Seq::new(command@.len(), |i: int| command@[i]@));
    r
}

/// Writes the message that carries an order. `level` is the volume that an order about the
/// volume comes to; the program around the library computes it, for it is a
/// floating-point number.
pub fn order_message(order: PlayerOrder, level: Double) -> (r: CommandMessage)
    ensures
        r@ == message_for(order, level),
{
    let command = match order {
        PlayerOrder::TogglePause => vec![word("cycle"), word("pause")],
        PlayerOrder::SeekRelative(seconds) => vec![
            word("seek"),
            CommandWord::Integer(seconds),
            word("relative"),
        ],
        PlayerOrder::AdjustVolume { .. } => vec![
            word("set_property"),
            word("volume"),
            CommandWord::Number(level),
        ],
        PlayerOrder::ToggleMute => vec![word("cycle"), word("mute")],
        PlayerOrder::Quit => vec![word("quit")],
    };
    let r = message(command);
    assert(r@.command =~= message_for(order, level).command);
    r
}

/// Writes the message that has `mpv` report each change of a property.
pub fn observe_property(id: i64, property: &str) -> (r: CommandMessage)
    ensures
        r@ == observation(id, property@),
{
    let r = message(vec![word("observe_property"), CommandWord::Integer(id), word(property)]);
    assert(r@.command =~= observation(id, property@).command);
    r
}

/// Writes the message that asks `mpv` for the value of a property.
pub fn request_property(request_id: u64, property: &str) -> (r: CommandMessage)
    ensures
        r@ == request(request_id, property@),
{
    let command = vec![word("get_property"), word(property)];
    let r = CommandMessage { command, request_id: Some(request_id) };
    assert(r@.command =~= request(request_id, property@).command);
    r
}

/// Writes the messages with which the dialogue starts.
pub fn opening_messages(observe_title: bool) -> (r: Vec<CommandMessage>)
    ensures
        messages_view(r@) == opening(observe_title),
{
    let mut r = vec![
        observe_property(1, "time-pos"),
        observe_property(2, "duration"),
        observe_property(3, "pause"),
        observe_property(4, "volume"),
        observe_property(5, "mute"),
        request_property(101, "volume"),
        request_property(102, "pause"),
        request_property(103, "mute"),
        request_property(104, "duration"),
    ];
    if observe_title {
        r.push(observe_property(6, "media-title"));
        r.push(request_property(105, "media-title"));
    }
    assert(messages_view(r@) =~= opening(observe_title));
    r
}

/// The reply to each request of the opening is understood: it is taken as a change of
/// the property that the request asks for.
pub proof fn replies_to_the_opening_are_understood(
    observe_title: bool,
    at: int,
    message: JsonView,
    data: JsonView,
)
    requires
        0 <= at < opening(observe_title).len(),
        opening(observe_title)[at].request_id is Some,
        message.text_field("event"@) is None,
        message.field("request_id"@) is Some,
        message.field("request_id"@)->0.unsigned() == opening(observe_title)[at].request_id,
        message.field("data"@) == Some(data),
    ensures
        exists|name: Seq<char>|
            {
                &&& opening(observe_title)[at].command == seq![
                    WordView::Text("get_property"@),
                    WordView::Text(name),
                ]
                &&& event_in(message) == Some(#[trigger] property_change(name, data))
            },
{
    let id = opening(observe_title)[at].request_id->0;
    let name = requested_property(id)->0;
    assert(opening(observe_title)[at] == request(id, name));
    assert(event_in(message) == Some(property_change(name, data)));
}

/// The change of a property, as an event.
pub open spec fn property_change(name: Seq<char>, data: JsonView) -> EventView {
    EventView::PropertyChange { name, data }
}

/// A property that is not known changes nothing.
pub proof fn unknown_property_changes_nothing(state: StateView, name: Seq<char>, data: JsonView)
    requires
        name != "time-pos"@,
        name != "duration"@,
        name != "pause"@,
        name != "volume"@,
        name != "mute"@,
        name != "media-title"@,
    ensures
        state.changed(name, data) == state,
{
}

/// Whether data are such as a property takes. An unknown duration is one too, and
/// properties that are not known take anything.
pub open spec fn fits(name: Seq<char>, data: JsonView) -> bool {
    if name == "time-pos"@ {
        data.double() is Some
    } else if name == "duration"@ {
        true
    } else if name == "pause"@ {
        data.truth() is Some
    } else if name == "volume"@ {
        data.double() is Some
    } else if name == "mute"@ {
        data.truth() is Some
    } else if name == "media-title"@ {
        data.text() is Some
    } else {
        true
    }
}

/// Of two values of one property the later one counts, where the property takes it.
pub proof fn later_value_counts(
    state: StateView,
    name: Seq<char>,
    first: JsonView,
    later: JsonView,
)
    requires
        fits(name, later),
    ensures
        state.changed(name, first).changed(name, later) == state.changed(name, later),
{
}

/// Data that a property does not take change nothing.
pub proof fn unfit_data_change_nothing(state: StateView, name: Seq<char>, data: JsonView)
    requires
        !fits(name, data),
    ensures
        state.changed(name, data) == state,
{
}

/// The names of the properties are told apart.
proof fn lemma_property_names_differ()
    ensures
        "time-pos"@ != "duration"@,
        "time-pos"@ != "pause"@,
        "time-pos"@ != "volume"@,
        "time-pos"@ != "mute"@,
        "time-pos"@ != "media-title"@,
        "duration"@ != "pause"@,
        "duration"@ != "volume"@,
        "duration"@ != "mute"@,
        "duration"@ != "media-title"@,
        "pause"@ != "volume"@,
        "pause"@ != "mute"@,
        "pause"@ != "media-title"@,
        "volume"@ != "mute"@,
        "volume"@ != "media-title"@,
        "mute"@ != "media-title"@,
{
    reveal_strlit("time-pos");
    reveal_strlit("duration");
    reveal_strlit("pause");
    reveal_strlit("volume");
    reveal_strlit("mute");
    reveal_strlit("media-title");
    assert("time-pos"@[0] != "duration"@[0]);
    assert("time-pos"@.len() == 8 && "duration"@.len() == 8 && "pause"@.len() == 5);
    assert("volume"@.len() == 6 && "mute"@.len() == 4 && "media-title"@.len() == 11);
}

/// Whether the playback is paused or muted is what `mpv` reported last, be it true or
/// false; nothing else changes with it.
pub proof fn reported_truth_is_kept(state: StateView, value: bool)
    ensures
        state.changed("pause"@, JsonView::Bool(value)).paused == value,
        state.changed("pause"@, JsonView::Bool(value)) == (StateView { paused: value, ..state }),
        state.changed("mute"@, JsonView::Bool(value)).muted == value,
        state.changed("mute"@, JsonView::Bool(value)) == (StateView { muted: value, ..state }),
{
    lemma_property_names_differ();
}

/// The position, the duration and the volume are the numbers that `mpv` reported, whatever
/// they were before; nothing else changes with them.
pub proof fn reported_number_is_kept(state: StateView, number: JsonNumber, value: Double)
    requires
        number.double == Some(value),
    ensures
        state.changed("time-pos"@, JsonView::Number(number)) == (StateView {
            time_pos: value,
            ..state
        }),
        state.changed("duration"@, JsonView::Number(number)) == (StateView {
            duration: Some(value),
            ..state
        }),
        state.changed("volume"@, JsonView::Number(number)) == (StateView {
            volume: value,
            ..state
        }),
{
    lemma_property_names_differ();
}

/// The title is the text that `mpv` reported; nothing else changes with it.
pub proof fn reported_title_is_kept(state: StateView, title: Seq<char>)
    ensures
        state.changed("media-title"@, JsonView::Text(title)) == (StateView { title, ..state }),
{
    lemma_property_names_differ();
}

/// A report of the wrong kind leaves the state as it was; a duration that is no number is
/// unknown.
pub proof fn unusable_reports_leave_the_state(state: StateView, data: JsonView)
    ensures
        !(data is Bool) ==> state.changed("pause"@, data) == state && state.changed("mute"@, data)
            == state,
        !(data is Text) ==> state.changed("media-title"@, data) == state,
        !(data is Number && data->Number_0.double is Some) ==> {
            &&& state.changed("time-pos"@, data) == state
            &&& state.changed("volume"@, data) == state
            &&& state.changed("duration"@, data) == (StateView { duration: None, ..state })
        },
{
    lemma_property_names_differ();
}

/// A playback of which nothing was reported is at its start, runs, is not muted and as loud
/// as `mpv` starts; its duration is unknown.
pub proof fn a_fresh_playback(title: Seq<char>)
    ensures
        StateView::initial(title).title == title,
        StateView::initial(title).time_pos.bits == 0,
        StateView::initial(title).duration is None,
        !StateView::initial(title).paused,
        StateView::initial(title).volume.bits == 0x4059_0000_0000_0000,
        !StateView::initial(title).muted,
{
}

/// The names of the events are told apart.
proof fn lemma_event_names_differ()
    ensures
        "property-change"@ != "end-file"@,
        "property-change"@ != "shutdown"@,
        "end-file"@ != "shutdown"@,
{
    reveal_strlit("property-change");
    reveal_strlit("end-file");
    reveal_strlit("shutdown");
    assert("property-change"@.len() == 15 && "end-file"@.len() == 8 && "shutdown"@.len() == 8);
    assert("end-file"@[0] != "shutdown"@[0]);
}

/// The report of a changed property is taken with the name and the data that stand in it;
/// data that are absent are null, and without a name there is no report.
pub proof fn property_changes_are_understood(message: JsonView)
    requires
        message.field("event"@) == Some(JsonView::Text("property-change"@)),
    ensures
        match (message.field("name"@), message.field("data"@)) {
            (Some(JsonView::Text(name)), Some(data)) => event_in(message) == Some(
                EventView::PropertyChange { name, data },
            ),
            (Some(JsonView::Text(name)), None) => event_in(message) == Some(
                EventView::PropertyChange { name, data: JsonView::Null },
            ),
            _ => event_in(message) is None,
        },
{
}

/// The report of the end of a file is taken with its reason and its error, each where it
/// is a text.
pub proof fn ends_of_files_are_understood(message: JsonView)
    requires
        message.field("event"@) == Some(JsonView::Text("end-file"@)),
    ensures
        event_in(message) is Some,
        event_in(message)->0 is EndFile,
        match message.field("reason"@) {
            Some(JsonView::Text(reason)) => event_in(message)->0->reason == Some(reason),
            _ => event_in(message)->0->reason is None,
        },
        match message.field("error"@) {
            Some(JsonView::Text(error)) => event_in(message)->0->error == Some(error),
            _ => event_in(message)->0->error is None,
        },
{
    lemma_event_names_differ();
}

/// The report that `mpv` shuts down is understood, and events of other names are passed
/// over, whatever else stands in their messages.
pub proof fn other_events(message: JsonView, name: Seq<char>)
    requires
        message.field("event"@) == Some(JsonView::Text(name)),
    ensures
        name == "shutdown"@ ==> event_in(message) == Some(EventView::Shutdown),
        name != "property-change"@ && name != "end-file"@ && name != "shutdown"@ ==> event_in(
            message,
        ) is None,
{
    lemma_event_names_differ();
}

/// A message that names no event is a reply, and says something only if it has the id of
/// one of the five requests and data: then its data are the value of the property that was
/// asked for.
pub proof fn replies_are_understood_by_their_ids(message: JsonView, number: JsonNumber, id: u64)
    requires
        !(message.field("event"@) is Some && message.field("event"@)->0 is Text),
    ensures
        ({
            let asked = message.field("request_id"@) == Some(JsonView::Number(number))
                && number.unsigned == Some(id) && message.field("data"@) is Some;
            let data = message.field("data"@)->0;
            &&& asked && id == 101 ==> event_in(message) == Some(
                EventView::PropertyChange { name: "volume"@, data },
            )
            &&& asked && id == 102 ==> event_in(message) == Some(
                EventView::PropertyChange { name: "pause"@, data },
            )
            &&& asked && id == 103 ==> event_in(message) == Some(
                EventView::PropertyChange { name: "mute"@, data },
            )
            &&& asked && id == 104 ==> event_in(message) == Some(
                EventView::PropertyChange { name: "duration"@, data },
            )
            &&& asked && id == 105 ==> event_in(message) == Some(
                EventView::PropertyChange { name: "media-title"@, data },
            )
            &&& asked && !(101 <= id <= 105) ==> event_in(message) is None
        }),
        message.field("data"@) is None ==> event_in(message) is None,
        !(message.field("request_id"@) is Some && message.field("request_id"@)->0 is Number
            && message.field("request_id"@)->0->Number_0.unsigned is Some) ==> event_in(
            message,
        ) is None,
{
}

/// A line means what the document in it means, and nothing where it is no document.
pub proof fn lines_mean_what_their_documents_mean(line: Seq<char>, message: JsonView)
    ensures
        json::json_reading(line) == Ok::<JsonView, Seq<char>>(message) ==> event_in_line(line)
            == event_in(message),
        json::json_reading(line) is Err ==> event_in_line(line) is None,
{
}

/// What `mpv` is told for an order: to cycle pausing or muting, to seek by exactly the
/// seconds of the order, to set the volume to exactly the given level, or to quit. None of
/// these asks for a reply.
pub proof fn orders_are_told_as_they_are(seconds: i64, from: Double, by: i64, level: Double)
    ensures
        message_for(PlayerOrder::TogglePause, level).command == seq![
            WordView::Text("cycle"@),
            WordView::Text("pause"@),
        ],
        message_for(PlayerOrder::ToggleMute, level).command == seq![
            WordView::Text("cycle"@),
            WordView::Text("mute"@),
        ],
        message_for(PlayerOrder::SeekRelative(seconds), level).command == seq![
            WordView::Text("seek"@),
            WordView::Integer(seconds),
            WordView::Text("relative"@),
        ],
        message_for(PlayerOrder::AdjustVolume { from, by }, level).command == seq![
            WordView::Text("set_property"@),
            WordView::Text("volume"@),
            WordView::Number(level),
        ],
        message_for(PlayerOrder::Quit, level).command == seq![WordView::Text("quit"@)],
        forall|order: PlayerOrder| #[trigger] message_for(order, level).request_id is None,
{
}

/// A message has its command as its first field, whole, and its id, where it has one, as the
/// second; there are no other fields.
pub proof fn messages_carry_their_command_and_id(message: MessageView)
    ensures
        message.fields().len() == if message.request_id is Some {
            2int
        } else {
            1int
        },
        message.fields()[0] == ("command"@, FieldView::Words(message.command)),
        message.request_id is Some ==> message.fields()[1] == (
            "request_id"@,
            FieldView::Identifier(message.request_id->0),
        ),
{
}

/// Whether a list of messages has `mpv` report each change of a property.
pub open spec fn observes(messages: Seq<MessageView>, property: Seq<char>) -> bool {
    exists|at: int|
        {
            &&& 0 <= at < messages.len()
            &&& (#[trigger] messages[at]).command.len() == 3
            &&& messages[at].command[0] == WordView::Text("observe_property"@)
            &&& messages[at].command[1] is Integer
            &&& messages[at].command[2] == WordView::Text(property)
        }
}

/// Whether a list of messages asks for the value of a property.
pub open spec fn requests(messages: Seq<MessageView>, property: Seq<char>) -> bool {
    exists|at: int|
        0 <= at < messages.len() && (#[trigger] messages[at]).command == seq![
            WordView::Text("get_property"@),
            WordView::Text(property),
        ]
}

/// The opening has `mpv` report all that is shown: it observes the position, the duration,
/// the pause, the volume and the muting, asks for all of them but the position, and does
/// both for the title where that is not known.
pub proof fn opening_asks_for_all_that_is_shown(observe_title: bool)
    ensures
        observes(opening(observe_title), "time-pos"@),
        observes(opening(observe_title), "duration"@),
        observes(opening(observe_title), "pause"@),
        observes(opening(observe_title), "volume"@),
        observes(opening(observe_title), "mute"@),
        requests(opening(observe_title), "volume"@),
        requests(opening(observe_title), "pause"@),
        requests(opening(observe_title), "mute"@),
        requests(opening(observe_title), "duration"@),
        observe_title ==> observes(opening(observe_title), "media-title"@),
        observe_title ==> requests(opening(observe_title), "media-title"@),
        opening(observe_title).len() == if observe_title {
            11int
        } else {
            9int
        },
{
    let messages = opening(observe_title);
    assert(messages[0].command == observation(1, "time-pos"@).command);
    assert(messages[1].command == observation(2, "duration"@).command);
    assert(messages[2].command == observation(3, "pause"@).command);
    assert(messages[3].command == observation(4, "volume"@).command);
    assert(messages[4].command == observation(5, "mute"@).command);
    assert(messages[5].command == request(101, "volume"@).command);
    assert(messages[6].command == request(102, "pause"@).command);
    assert(messages[7].command == request(103, "mute"@).command);
    assert(messages[8].command == request(104, "duration"@).command);
    if observe_title {
        assert(messages[9].command == observation(6, "media-title"@).command
           );
        assert(messages[10].command == request(105, "media-title"@).command);
    }
}

} // verus!
