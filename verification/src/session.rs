//! The course of a playback with a terminal: what happens is taken in, and what has to
//! be done next is said, one step at a time.
use crate::error::AppError;
use crate::error::ErrorView;
use crate::json::Double;
use crate::json::JsonView;
use crate::player;
use crate::player::Control;
use crate::player::EventView;
use crate::player::OutcomeView;
use crate::player::PlaybackOutcome;
use crate::player::PlaybackState;
use crate::player::PlayerEvent;
use crate::player::PlayerOrder;
use crate::player::StateView;
use crate::recommendations::CandidateView;
use crate::text;
use crate::ui;
use crate::ui::PlaybackView;
use crate::ui::Readout;
use crate::up_next::PollView;
use crate::up_next::RecommendationsPoll;
use crate::up_next::SourceView;
use crate::up_next::UpNextState;
use crate::up_next::UpNextView;
use vstd::prelude::*;

verus! {

/// What the session waits for.
#[derive(Debug, Clone, Copy, PartialEq, Eq, Structural)]
pub enum Phase {
    /// The first picture.
    Opening,
    /// Word from the lookup of recommendations.
    Receiving,
    /// A report of the player.
    Reading,
    /// The exit code of the player, which has ended its file; `quit` tells whether it was
    /// told to.
    Ending { quit: bool },
    /// The exit code of the player, which is shutting down.
    Closing,
    /// Word on whether the player still runs.
    Checking,
    /// The next picture.
    Drawing,
    /// A wish of the listener.
    Listening,
    /// An order on its way to the player.
    Sending,
    /// Nothing: the session is over.
    Over,
}

/// What happened.
#[derive(Debug)]
pub enum SessionEvent {
    /// The picture was drawn.
    Drawn,
    /// The lookup of recommendations was asked.
    Recommendations(RecommendationsPoll),
    /// The player was asked for a report.
    Player(Option<PlayerEvent>),
    /// The player has exited with this code.
    Exited(u8),
    /// It was seen whether the player has exited, and with what code.
    Process(Option<u8>),
    /// The listener was asked.
    Control(Option<Control>),
    /// The order was sent.
    Sent,
}

/// The content of a [`SessionEvent`].
pub enum HappeningView {
    Drawn,
    Recommendations(PollView),
    Player(Option<EventView>),
    Exited(u8),
    Process(Option<u8>),
    Control(Option<Control>),
    Sent,
}

impl View for SessionEvent {
    type V = HappeningView;

    open spec fn view(&self) -> HappeningView {
        match self {
            SessionEvent::Drawn => HappeningView::Drawn,
            SessionEvent::Recommendations(poll) => HappeningView::Recommendations(poll@),
            SessionEvent::Player(event) => HappeningView::Player(player::maybe_event(*event)),
            SessionEvent::Exited(code) => HappeningView::Exited(*code),
            SessionEvent::Process(code) => HappeningView::Process(*code),
            SessionEvent::Control(control) => HappeningView::Control(*control),
            SessionEvent::Sent => HappeningView::Sent,
        }
    }
}

/// What has to be done.
#[derive(Debug)]
pub enum SessionAction {
    /// Draw the picture.
    Draw,
    /// Ask the lookup of recommendations.
    PollRecommendations,
    /// Ask the player for a report.
    ReadPlayer,
    /// Wait for the player to exit.
    WaitForExit,
    /// See whether the player has exited.
    CheckProcess,
    /// Ask the listener.
    Listen,
    /// Send this order to the player.
    Send(PlayerOrder),
    /// Nothing: this is how the session ended.
    Finish(PlaybackOutcome),
    /// Nothing: this is why the session failed.
    Fail(AppError),
}

/// The content of a [`SessionAction`].
pub enum ActionView {
    Draw,
    PollRecommendations,
    ReadPlayer,
    WaitForExit,
    CheckProcess,
    Listen,
    Send(PlayerOrder),
    Finish(OutcomeView),
    Fail(ErrorView),
}

impl View for SessionAction {
    type V = ActionView;

    open spec fn view(&self) -> ActionView {
        match self {
            SessionAction::Draw => ActionView::Draw,
            SessionAction::PollRecommendations => ActionView::PollRecommendations,
            SessionAction::ReadPlayer => ActionView::ReadPlayer,
            SessionAction::WaitForExit => ActionView::WaitForExit,
            SessionAction::CheckProcess => ActionView::CheckProcess,
            SessionAction::Listen => ActionView::Listen,
            SessionAction::Send(order) => ActionView::Send(*order),
            SessionAction::Finish(outcome) => ActionView::Finish(outcome@),
            SessionAction::Fail(error) => ActionView::Fail(error@),
        }
    }
}

/// An action that may be absent, by its content.
pub open spec fn maybe_action(action: Option<SessionAction>) -> Option<ActionView> {
    match action {
        Some(action) => Some(action@),
        None => None,
    }
}

/// A playback under way.
#[derive(Debug)]
pub struct PlaybackSession {
    pub state: PlaybackState,
    pub up_next: UpNextState,
    /// The volume of the player, from which changes start.
    pub volume: Double,
    /// The exit code of the player, once the playback has ended.
    pub finished_code: Option<u8>,
    /// Whether the listener wants to stop.
    pub stop_requested: bool,
    pub phase: Phase,
}

/// The content of a [`PlaybackSession`].
pub struct SessionView {
    pub state: StateView,
    pub up_next: UpNextView,
    pub volume: Double,
    pub finished_code: Option<u8>,
    pub stop_requested: bool,
    pub phase: Phase,
}

impl View for PlaybackSession {
    type V = SessionView;

    open spec fn view(&self) -> SessionView {
        SessionView {
            state: self.state@,
            up_next: self.up_next@,
            volume: self.volume,
            finished_code: self.finished_code,
            stop_requested: self.stop_requested,
            phase: self.phase,
        }
    }
}

/// A session after a step, and what has to be done.
pub type Turn = (SessionView, ActionView);

/// Whether an event is what a phase waits for.
pub open spec fn awaited(phase: Phase, event: HappeningView) -> bool {
    match phase {
        Phase::Opening => event is Drawn,
        Phase::Receiving => event is Recommendations,
        Phase::Reading => event is Player,
        Phase::Ending { .. } => event is Exited,
        Phase::Closing => event is Exited,
        Phase::Checking => event is Process,
        Phase::Drawing => event is Drawn,
        Phase::Listening => event is Control,
        Phase::Sending => event is Sent,
        Phase::Over => false,
    }
}

impl SessionView {
    /// A session that is about to start.
    pub open spec fn initial(title: Option<Seq<char>>, recommending: bool) -> SessionView {
        SessionView {
            state: StateView::initial(
                match title {
                    Some(title) => title,
                    None => "Loading stream..."@,
                },
            ),
            up_next: UpNextView::initial(recommending),
            volume: Double { bits: player::HUNDRED_BITS },
            finished_code: None,
            stop_requested: false,
            phase: Phase::Opening,
        }
    }

    pub open spec fn in_phase(self, phase: Phase) -> SessionView {
        SessionView { phase, ..self }
    }

    /// The session ends.
    pub open spec fn finish(self, outcome: OutcomeView) -> Turn {
        (self.in_phase(Phase::Over), ActionView::Finish(outcome))
    }

    /// The session fails.
    pub open spec fn fail(self, error: ErrorView) -> Turn {
        (self.in_phase(Phase::Over), ActionView::Fail(error))
    }

    /// The next picture is due.
    pub open spec fn draw(self) -> Turn {
        (self.in_phase(Phase::Drawing), ActionView::Draw)
    }

    /// A round is over, and the next one starts with the recommendations.
    pub open spec fn next_round(self) -> Turn {
        (self.in_phase(Phase::Receiving), ActionView::PollRecommendations)
    }

    /// An order is due.
    pub open spec fn send(self, order: PlayerOrder) -> Turn {
        (self.in_phase(Phase::Sending), ActionView::Send(order))
    }

    /// The selection starts if it is due; else the session goes on.
    pub open spec fn play_next_or(self, now: u64, otherwise: Turn) -> Turn {
        match self.up_next.next(now) {
            Some(candidate) => self.finish(OutcomeView::PlayNext(candidate.video_id)),
            None => otherwise,
        }
    }

    /// Word has come from the lookup. After the end of the playback this decides whether
    /// something follows.
    pub open spec fn on_recommendations(self, poll: PollView, now: u64) -> Turn {
        let session = SessionView { up_next: self.up_next.polled(poll), ..self };
        match self.finished_code {
            Some(code) => session.play_next_or(
                now,
                if session.up_next.is_exhausted() {
                    session.finish(OutcomeView::Finished(code))
                } else {
                    session.draw()
                },
            ),
            None => (session.in_phase(Phase::Reading), ActionView::ReadPlayer),
        }
    }

    /// A property of the player has changed.
    pub open spec fn with_property(self, name: Seq<char>, data: JsonView) -> SessionView {
        SessionView {
            state: self.state.changed(name, data),
            volume: if name == "volume"@ && data.double() is Some {
                data.double()->0
            } else {
                self.volume
            },
            ..self
        }
    }

    /// The player has made a report, or has none to make.
    pub open spec fn on_player(self, event: Option<EventView>) -> Turn {
        match event {
            Some(EventView::PropertyChange { name, data }) => (
                self.with_property(name, data),
                ActionView::ReadPlayer,
            ),
            Some(EventView::EndFile { reason, error }) => if error is Some && error->0
                != "success"@ {
                self.fail(ErrorView::PlaybackFailed { reason: error->0 })
            } else if reason == Some("error"@) {
                self.fail(ErrorView::PlaybackBroken)
            } else {
                (
                    self.in_phase(Phase::Ending { quit: reason == Some("quit"@) }),
                    ActionView::WaitForExit,
                )
            },
            Some(EventView::Shutdown) | Some(EventView::Disconnected) => (
                self.in_phase(Phase::Closing),
                ActionView::WaitForExit,
            ),
            None => (self.in_phase(Phase::Checking), ActionView::CheckProcess),
        }
    }

    /// The player has exited at the end of its file. The session ends with it if it did
    /// not end well or was meant to stop; else the next video is up.
    pub open spec fn on_end(self, code: u8, quit: bool, now: u64) -> Turn {
        let session = SessionView { finished_code: Some(code), ..self };
        if code != 0 || self.stop_requested || quit {
            session.finish(OutcomeView::Finished(code))
        } else {
            (SessionView { up_next: self.up_next.after_playback(now), ..session }).draw()
        }
    }

    /// It was seen whether the player still runs.
    pub open spec fn on_process(self, code: Option<u8>, now: u64) -> Turn {
        match code {
            Some(code) => self.on_end(code, false, now),
            None => self.draw(),
        }
    }

    /// The order that a wish comes to. It is carried out only while the overlay is hidden.
    pub open spec fn order_for(self, control: Control) -> Option<PlayerOrder> {
        if self.up_next.overlay_visible {
            None
        } else {
            match control {
                Control::TogglePause => Some(PlayerOrder::TogglePause),
                Control::SeekBackward => Some(
                    PlayerOrder::SeekRelative((-player::SEEK_SECONDS) as i64),
                ),
                Control::SeekForward => Some(PlayerOrder::SeekRelative(player::SEEK_SECONDS)),
                Control::VolumeDown => Some(
                    PlayerOrder::AdjustVolume {
                        from: self.volume,
                        by: (-player::UI_VOLUME_STEP) as i64,
                    },
                ),
                Control::VolumeUp => Some(
                    PlayerOrder::AdjustVolume { from: self.volume, by: player::UI_VOLUME_STEP },
                ),
                Control::ToggleMute => Some(PlayerOrder::ToggleMute),
                _ => None,
            }
        }
    }

    /// The choice of the next video after a wish during the playback.
    pub open spec fn choice_after(self, control: Control) -> UpNextView {
        match control {
            Control::ToggleUpNext => self.up_next.with_overlay(!self.up_next.overlay_visible),
            Control::CloseOverlay => self.up_next.with_overlay(false),
            Control::SelectUpNext(index) => if self.up_next.offers(index as int) {
                self.up_next.selecting(index as nat, true).with_overlay(false)
            } else {
                self.up_next
            },
            Control::ConfirmUpNext => if self.up_next.has_candidates() {
                self.up_next.decided().with_overlay(false)
            } else {
                self.up_next
            },
            _ => self.up_next,
        }
    }

    /// The listener has a wish during the playback.
    pub open spec fn on_wish(self, control: Control) -> Turn {
        if control == Control::Quit {
            (SessionView { stop_requested: true, ..self }).send(PlayerOrder::Quit)
        } else {
            match self.order_for(control) {
                Some(order) => self.send(order),
                None => (SessionView { up_next: self.choice_after(control), ..self }).next_round(),
            }
        }
    }

    /// The listener has a wish after the playback.
    pub open spec fn on_late_wish(self, control: Control, code: u8, now: u64) -> Turn {
        match control {
            Control::SelectUpNext(index) => if self.up_next.offers(index as int) {
                let session = SessionView {
                    up_next: self.up_next.selecting(index as nat, true),
                    ..self
                };
                session.play_next_or(now, session.next_round())
            } else {
                self.next_round()
            },
            Control::ConfirmUpNext => self.play_next_or(now, self.next_round()),
            Control::Quit => self.finish(OutcomeView::Finished(code)),
            _ => self.next_round(),
        }
    }

    /// The listener was asked.
    pub open spec fn on_control(self, control: Option<Control>, now: u64) -> Turn {
        match (control, self.finished_code) {
            (None, _) => self.next_round(),
            (Some(control), Some(code)) => self.on_late_wish(control, code, now),
            (Some(control), None) => self.on_wish(control),
        }
    }

    /// What an event leads to in the phase that waits for it.
    pub open spec fn turn(self, event: HappeningView, now: u64) -> Turn {
        match event {
            HappeningView::Drawn => if self.phase == Phase::Opening {
                self.next_round()
            } else {
                (self.in_phase(Phase::Listening), ActionView::Listen)
            },
            HappeningView::Recommendations(poll) => self.on_recommendations(poll, now),
            HappeningView::Player(event) => self.on_player(event),
            HappeningView::Exited(code) => match self.phase {
                Phase::Ending { quit } => self.on_end(code, quit, now),
                _ => self.finish(OutcomeView::Finished(code)),
            },
            HappeningView::Process(code) => self.on_process(code, now),
            HappeningView::Control(control) => self.on_control(control, now),
            HappeningView::Sent => self.next_round(),
        }
    }

    /// A step of the session: an event that it does not wait for changes nothing.
    pub open spec fn step(self, event: HappeningView, now: u64) -> (
        SessionView,
        Option<ActionView>,
    ) {
        if awaited(self.phase, event) {
            let turn = self.turn(event, now);
            (turn.0, Some(turn.1))
        } else {
            (self, None)
        }
    }

    /// The picture that is due.
    pub open spec fn shown(self, readout: Readout, now: u64) -> ui::FrameModel {
        ui::frame(
            self.state,
            readout,
            self.up_next.status(),
            self.up_next.overlay(self.finished_code is Some, now),
        )
    }

    /// What holds of a session throughout. The selection is valid, and changes of the
    /// volume start from the volume that is shown. A playback that has ended without
    /// ending the session has ended well, the listener did not want to stop, and the
    /// player is not addressed any more.
    pub open spec fn valid(self) -> bool {
        &&& self.up_next.well_formed()
        &&& self.volume == self.state.volume
        &&& self.finished_code is Some && self.phase != Phase::Over ==> {
            &&& self.finished_code == Some(0u8)
            &&& !self.stop_requested
            &&& self.phase == Phase::Receiving || self.phase == Phase::Drawing || self.phase
                == Phase::Listening
        }
    }
}

impl PlaybackSession {
    /// A session that is about to start. `recommending` tells whether recommendations
    /// are looked up.
    pub fn new(title: Option<String>, recommending: bool) -> (r: PlaybackSession)
        ensures
            r@ == SessionView::initial(text::text_view(title), recommending),
            r@.valid(),
    {
        let mut state = PlaybackState::default();
        if let Some(title) = title {
            state.title = title;
        }
        PlaybackSession {
            state,
            up_next: UpNextState::new(recommending),
            volume: Double { bits: player::HUNDRED_BITS },
            finished_code: None,
            stop_requested: false,
            phase: Phase::Opening,
        }
    }

    /// The picture that is due.
    pub fn frame(&self, readout: Readout, now: u64) -> (r: PlaybackView)
        requires
            self@.up_next.well_formed(),
        ensures
            r@ == self@.shown(readout, now),
            r@ == ui::frame(
                self@.state,
                readout,
                self@.up_next.status(),
                self@.up_next.overlay(self@.finished_code is Some, now),
            ),
    {
        PlaybackView::from_state(
            &self.state,
            readout,
            self.up_next.status_line(),
            self.up_next.overlay_view(self.finished_code.is_some(), now),
        )
    }

    fn finish(&mut self, outcome: PlaybackOutcome) -> (action: SessionAction)
        ensures
            (final(self)@, action@) == old(self)@.finish(outcome@),
    {
        self.phase = Phase::Over;
        SessionAction::Finish(outcome)
    }

    fn fail(&mut self, error: AppError) -> (action: SessionAction)
        ensures
            (final(self)@, action@) == old(self)@.fail(error@),
    {
        self.phase = Phase::Over;
        SessionAction::Fail(error)
    }

    fn draw(&mut self) -> (action: SessionAction)
        ensures
            (final(self)@, action@) == old(self)@.draw(),
    {
        self.phase = Phase::Drawing;
        SessionAction::Draw
    }

    fn next_round(&mut self) -> (action: SessionAction)
        ensures
            (final(self)@, action@) == old(self)@.next_round(),
    {
        self.phase = Phase::Receiving;
        SessionAction::PollRecommendations
    }

    fn send(&mut self, order: PlayerOrder) -> (action: SessionAction)
        ensures
            (final(self)@, action@) == old(self)@.send(order),
    {
        self.phase = Phase::Sending;
        SessionAction::Send(order)
    }

    fn on_recommendations(&mut self, poll: RecommendationsPoll, now: u64) -> (action: SessionAction)
        ensures
            (final(self)@, action@) == old(self)@.on_recommendations(poll@, now),
    {
        self.up_next.poll_receiver(poll);
        match self.finished_code {
            Some(code) => {
                if let Some(candidate) = self.up_next.next_after_finish(now) {
                    return self.finish(PlaybackOutcome::PlayNext(candidate.playback_input()));
                }
                if self.up_next.should_exit_after_finish() {
                    return self.finish(PlaybackOutcome::Finished(code));
                }
                self.draw()
            },
            None => {
                self.phase = Phase::Reading;
                SessionAction::ReadPlayer
            },
        }
    }

    fn on_player(&mut self, event: Option<PlayerEvent>) -> (action: SessionAction)
        ensures
            (final(self)@, action@) == old(self)@.on_player(player::maybe_event(event)),
    {
        match event {
            Some(PlayerEvent::PropertyChange { name, data }) => {
                if text::same_text(name.as_str(), "volume") {
                    if let Some(value) = data.as_double() {
                        self.volume = value;
                    }
                }
                player::apply_property_change(&mut self.state, name.as_str(), &data);
                SessionAction::ReadPlayer
            },
            Some(PlayerEvent::EndFile { reason, error }) => {
                if let Some(error) = error {
                    if !text::same_text(error.as_str(), "success") {
                        return self.fail(AppError::PlaybackFailed { reason: error });
                    }
                }
                if text::is_text(&reason, "error") {
                    return self.fail(AppError::PlaybackBroken);
                }
                self.phase = Phase::Ending { quit: text::is_text(&reason, "quit") };
                SessionAction::WaitForExit
            },
            Some(PlayerEvent::Shutdown) | Some(PlayerEvent::Disconnected) => {
                self.phase = Phase::Closing;
                SessionAction::WaitForExit
            },
            None => {
                self.phase = Phase::Checking;
                SessionAction::CheckProcess
            },
        }
    }

    fn on_end(&mut self, code: u8, quit: bool, now: u64) -> (action: SessionAction)
        requires
            now + crate::up_next::UP_NEXT_AUTOPLAY_DELAY <= u64::MAX,
        ensures
            (final(self)@, action@) == old(self)@.on_end(code, quit, now),
    {
        self.finished_code = Some(code);
        if code != 0 || self.stop_requested || quit {
            return self.finish(PlaybackOutcome::Finished(code));
        }
        self.up_next.on_playback_finished(now);
        self.draw()
    }

    fn order_for(&self, control: Control) -> (order: Option<PlayerOrder>)
        ensures
            order == self@.order_for(control),
    {
        if self.up_next.overlay_visible() {
            return None;
        }
        match control {
            Control::TogglePause => Some(PlayerOrder::TogglePause),
            Control::SeekBackward => Some(PlayerOrder::SeekRelative(-player::SEEK_SECONDS)),
            Control::SeekForward => Some(PlayerOrder::SeekRelative(player::SEEK_SECONDS)),
            Control::VolumeDown => Some(
                PlayerOrder::AdjustVolume { from: self.volume, by: -player::UI_VOLUME_STEP },
            ),
            Control::VolumeUp => Some(
                PlayerOrder::AdjustVolume { from: self.volume, by: player::UI_VOLUME_STEP },
            ),
            Control::ToggleMute => Some(PlayerOrder::ToggleMute),
            _ => None,
        }
    }

    fn on_wish(&mut self, control: Control) -> (action: SessionAction)
        ensures
            (final(self)@, action@) == old(self)@.on_wish(control),
    {
        if let Some(order) = self.order_for(control) {
            return self.send(order);
        }
        match control {
            Control::ToggleUpNext => {
                self.up_next.toggle_overlay();
            },
            Control::CloseOverlay => {
                self.up_next.close_overlay();
            },
            Control::SelectUpNext(index) => {
                if self.up_next.select(index, true) {
                    self.up_next.close_overlay();
                }
            },
            Control::ConfirmUpNext => {
                if self.up_next.has_ready_candidates() {
                    self.up_next.mark_explicit();
                    self.up_next.close_overlay();
                }
            },
            Control::Quit => {
                self.stop_requested = true;
                return self.send(PlayerOrder::Quit);
            },
            _ => {},
        }
        self.next_round()
    }

    fn on_late_wish(&mut self, control: Control, code: u8, now: u64) -> (action: SessionAction)
        ensures
            (final(self)@, action@) == old(self)@.on_late_wish(control, code, now),
    {
        match control {
            Control::SelectUpNext(index) => {
                if self.up_next.select(index, true) {
                    if let Some(candidate) = self.up_next.next_after_finish(now) {
                        return self.finish(PlaybackOutcome::PlayNext(candidate.playback_input()));
                    }
                }
            },
            Control::ConfirmUpNext => {
                if let Some(candidate) = self.up_next.next_after_finish(now) {
                    return self.finish(PlaybackOutcome::PlayNext(candidate.playback_input()));
                }
            },
            Control::Quit => {
                return self.finish(PlaybackOutcome::Finished(code));
            },
            _ => {},
        }
        self.next_round()
    }
}

/// Takes in what happened in a session and says what has to be done. `None` means that
/// the session does not wait for such an event.
pub fn play_stream_with_ui(session: &mut PlaybackSession, event: SessionEvent, now: u64) -> (action:
    Option<SessionAction>)
    requires
        now + crate::up_next::UP_NEXT_AUTOPLAY_DELAY <= u64::MAX,
    ensures
        (final(session)@, maybe_action(action)) == old(session)@.step(event@, now),
        old(session)@.valid() ==> final(session)@.valid(),
{
    proof {
        if session@.valid() {
            session_stays_valid(session@, event@, now);
        }
    }
    match (session.phase, event) {
        (Phase::Opening, SessionEvent::Drawn) => Some(session.next_round()),
        (Phase::Receiving, SessionEvent::Recommendations(poll)) => Some(
            session.on_recommendations(poll, now),
        ),
        (Phase::Reading, SessionEvent::Player(event)) => Some(session.on_player(event)),
        (Phase::Ending { quit }, SessionEvent::Exited(code)) => Some(
            session.on_end(code, quit, now),
        ),
        (Phase::Closing, SessionEvent::Exited(code)) => Some(
            session.finish(PlaybackOutcome::Finished(code)),
        ),
        (Phase::Checking, SessionEvent::Process(code)) => match code {
            Some(code) => Some(session.on_end(code, false, now)),
            None => Some(session.draw()),
        },
        (Phase::Drawing, SessionEvent::Drawn) => {
            session.phase = Phase::Listening;
            Some(SessionAction::Listen)
        },
        (Phase::Listening, SessionEvent::Control(control)) => match control {
            None => Some(session.next_round()),
            Some(control) => match session.finished_code {
                Some(code) => Some(session.on_late_wish(control, code, now)),
                None => Some(session.on_wish(control)),
            },
        },
        (Phase::Sending, SessionEvent::Sent) => Some(session.next_round()),
        _ => None,
    }
}

/// A change of the volume changes the volume that is shown, and no other change does.
proof fn lemma_volume_is_shown(state: StateView, name: Seq<char>, data: JsonView)
    ensures
        state.changed(name, data).volume == if name == "volume"@ && data.double() is Some {
            data.double()->0
        } else {
            state.volume
        },
{
    reveal_strlit("volume");
    reveal_strlit("time-pos");
    reveal_strlit("duration");
    reveal_strlit("pause");
    assert("volume"@.len() != "time-pos"@.len());
    assert("volume"@.len() != "duration"@.len());
    assert("volume"@.len() != "pause"@.len());
}

/// Whatever happens, what holds of a session throughout goes on holding.
pub proof fn session_stays_valid(session: SessionView, event: HappeningView, now: u64)
    requires
        session.valid(),
    ensures
        session.step(event, now).0.valid(),
{
    if let HappeningView::Player(Some(EventView::PropertyChange { name, data })) = event {
        lemma_volume_is_shown(session.state, name, data);
    }
}

/// A session starts valid.
pub proof fn session_starts_valid(title: Option<Seq<char>>, recommending: bool)
    ensures
        SessionView::initial(title, recommending).valid(),
{
}

/// The exit code that a session ends with is the one that the player exited with: it
/// comes with the event that ends the session, or came with an earlier one.
pub proof fn exit_code_is_that_of_the_player(
    session: SessionView,
    event: HappeningView,
    now: u64,
    code: u8,
)
    requires
        session.step(event, now).1 == Some(ActionView::Finish(OutcomeView::Finished(code))),
    ensures
        event == HappeningView::Exited(code) || event == HappeningView::Process(Some(code))
            || session.finished_code == Some(code),
{
}

/// An exit code is noted only when the player has exited with it.
pub proof fn noted_exit_code_is_that_of_the_player(
    session: SessionView,
    event: HappeningView,
    now: u64,
    code: u8,
)
    requires
        session.step(event, now).0.finished_code == Some(code),
    ensures
        event == HappeningView::Exited(code) || event == HappeningView::Process(Some(code))
            || session.finished_code == Some(code),
{
}

/// A player that fails ends the session with its exit code, and so does one that was told
/// to stop.
pub proof fn failure_and_quitting_end_the_session(
    session: SessionView,
    code: u8,
    quit: bool,
    now: u64,
)
    requires
        code != 0 || session.stop_requested || quit,
    ensures
        session.in_phase(Phase::Ending { quit }).step(HappeningView::Exited(code), now).1 == Some(
            ActionView::Finish(OutcomeView::Finished(code)),
        ),
        code != 0 || session.stop_requested ==> session.in_phase(Phase::Checking).step(
            HappeningView::Process(Some(code)),
            now,
        ).1 == Some(ActionView::Finish(OutcomeView::Finished(code))),
{
}

/// After the listener has asked to stop, no other video starts; the wish is not
/// forgotten.
pub proof fn nothing_starts_after_quitting(session: SessionView, event: HappeningView, now: u64)
    requires
        session.valid(),
        session.stop_requested,
    ensures
        session.step(event, now).0.stop_requested,
        !(session.step(event, now).1 matches Some(ActionView::Finish(OutcomeView::PlayNext(_)))),
{
}

/// What starts next is a candidate that was recommended, and it starts only after the
/// player has ended well.
pub proof fn next_video_was_recommended(
    session: SessionView,
    event: HappeningView,
    now: u64,
    input: Seq<char>,
)
    requires
        session.valid(),
        session.step(event, now).1 == Some(ActionView::Finish(OutcomeView::PlayNext(input))),
    ensures
        session.finished_code == Some(0u8),
        ({
            let up_next = session.step(event, now).0.up_next;
            up_next.selected() is Some && up_next.selected()->0.video_id == input
        }),
{
}

/// While the overlay is shown, the player gets no orders but to quit.
pub proof fn overlay_holds_orders_back(session: SessionView, event: HappeningView, now: u64)
    requires
        session.up_next.overlay_visible,
        session.step(event, now).1 is Some,
        session.step(event, now).1->0 is Send,
    ensures
        session.step(event, now).1->0 == ActionView::Send(PlayerOrder::Quit),
{
}

/// A change of the volume starts from the volume that is shown.
pub proof fn volume_orders_start_from_what_is_shown(
    session: SessionView,
    event: HappeningView,
    now: u64,
    from: Double,
    by: i64,
)
    requires
        session.valid(),
        session.step(event, now).1 == Some(
            ActionView::Send(PlayerOrder::AdjustVolume { from, by }),
        ),
    ensures
        from == session.state.volume,
        by == player::UI_VOLUME_STEP || by == -player::UI_VOLUME_STEP,
{
}

/// After the end of the playback the player is not addressed any more.
pub proof fn player_is_left_alone_after_the_end(
    session: SessionView,
    event: HappeningView,
    now: u64,
)
    requires
        session.valid(),
        session.finished_code is Some,
        session.step(event, now).1 is Some,
    ensures
        !(session.step(event, now).1->0 is Send),
        !(session.step(event, now).1->0 is ReadPlayer),
        !(session.step(event, now).1->0 is WaitForExit),
        !(session.step(event, now).1->0 is CheckProcess),
{
}

/// What has to be done is what the session then waits for; it is over exactly if it has
/// ended or failed.
pub proof fn session_waits_for_what_it_asked(
    session: SessionView,
    event: HappeningView,
    now: u64,
)
    requires
        session.valid(),
        awaited(session.phase, event),
    ensures
        ({
            let (after, action) = session.step(event, now);
            &&& action is Some
            &&& match action->0 {
                ActionView::Draw => after.phase == Phase::Drawing,
                ActionView::PollRecommendations => after.phase == Phase::Receiving,
                ActionView::ReadPlayer => after.phase == Phase::Reading,
                ActionView::WaitForExit => after.phase is Ending || after.phase is Closing,
                ActionView::CheckProcess => after.phase == Phase::Checking,
                ActionView::Listen => after.phase == Phase::Listening,
                ActionView::Send(_) => after.phase == Phase::Sending,
                ActionView::Finish(_) => after.phase == Phase::Over,
                ActionView::Fail(_) => after.phase == Phase::Over,
            }
        }),
{
}

/// A session that is over stays so, and asks for nothing.
pub proof fn over_is_over(session: SessionView, event: HappeningView, now: u64)
    requires
        session.phase == Phase::Over,
    ensures
        session.step(event, now) == (session, None::<ActionView>),
{
}

/// After the end of the playback no wish has an effect but a choice, a confirmation or to
/// quit.
pub proof fn late_wishes_without_effect(session: SessionView, control: Control, now: u64)
    requires
        session.phase == Phase::Listening,
        session.finished_code is Some,
        !(control is SelectUpNext),
        !(control is ConfirmUpNext),
        !(control is Quit),
    ensures
        session.step(HappeningView::Control(Some(control)), now) == (
            session.in_phase(Phase::Receiving),
            Some(ActionView::PollRecommendations),
        ),
{
}

/// After the end of the playback, a number that stands for a candidate starts it at once.
pub proof fn late_choice_starts_at_once(session: SessionView, index: usize, now: u64)
    requires
        session.phase == Phase::Listening,
        session.finished_code is Some,
        session.up_next.offers(index as int),
    ensures
        session.step(HappeningView::Control(Some(Control::SelectUpNext(index))), now).1 == Some(
            ActionView::Finish(
                OutcomeView::PlayNext(
                    session.up_next.source->Ready_0[index as int].video_id,
                ),
            ),
        ),
{
}

/// A playback that has ended with nothing to follow ends the session.
pub proof fn exhausted_session_ends(session: SessionView, poll: PollView, code: u8, now: u64)
    requires
        session.phase == Phase::Receiving,
        session.finished_code == Some(code),
        session.up_next.polled(poll).is_exhausted(),
    ensures
        session.step(HappeningView::Recommendations(poll), now).1 == Some(
            ActionView::Finish(OutcomeView::Finished(code)),
        ),
{
}

/// A video that the listener queues during the playback follows when the playback has
/// ended well, whatever the lookup and the clock say.
pub proof fn queued_video_follows(
    session: SessionView,
    index: usize,
    chosen: u64,
    end: u64,
    poll: PollView,
    now: u64,
)
    requires
        session.phase == Phase::Listening,
        session.finished_code is None,
        !session.stop_requested,
        session.up_next.offers(index as int),
    ensures
        ({
            let choice = HappeningView::Control(Some(Control::SelectUpNext(index)));
            let queued = session.step(choice, chosen).0;
            let ended = queued.in_phase(Phase::Ending { quit: false }).step(
                HappeningView::Exited(0),
                end,
            ).0;
            ended.in_phase(Phase::Receiving).step(HappeningView::Recommendations(poll), now).1
                == Some(
                ActionView::Finish(
                    OutcomeView::PlayNext(session.up_next.source->Ready_0[index as int].video_id),
                ),
            )
        }),
{
}

/// A decision of the listener is kept until the listener makes another one.
pub proof fn decision_is_kept(session: SessionView, event: HappeningView, now: u64)
    requires
        session.up_next.explicit_selection,
        session.up_next.has_candidates(),
        !(event matches HappeningView::Control(Some(Control::SelectUpNext(_)))),
    ensures
        session.step(event, now).0.up_next.explicit_selection,
        session.step(event, now).0.up_next.selected() == session.up_next.selected(),
{
}

/// Once the playback has ended, a decision is carried out as soon as the session comes
/// back to the recommendations.
pub proof fn decision_is_carried_out(session: SessionView, poll: PollView, now: u64)
    requires
        session.valid(),
        session.phase == Phase::Receiving,
        session.finished_code is Some,
        session.up_next.explicit_selection,
        session.up_next.has_candidates(),
    ensures
        session.up_next.selected() is Some,
        session.step(HappeningView::Recommendations(poll), now).1 == Some(
            ActionView::Finish(OutcomeView::PlayNext(session.up_next.selected()->0.video_id)),
        ),
{
}

/// Where nobody has chosen, the selected candidate starts at the end of the countdown;
/// until then the session goes on.
pub proof fn countdown_decides_what_follows(
    session: SessionView,
    end: u64,
    poll: PollView,
    now: u64,
)
    requires
        session.valid(),
        session.up_next.has_candidates(),
        !session.up_next.explicit_selection,
        !session.stop_requested,
        end + crate::up_next::UP_NEXT_AUTOPLAY_DELAY <= u64::MAX,
    ensures
        ({
            let ended = session.in_phase(Phase::Ending { quit: false }).step(
                HappeningView::Exited(0),
                end,
            ).0;
            ended.in_phase(Phase::Receiving).step(HappeningView::Recommendations(poll), now).1
                == Some(
                if now >= end + crate::up_next::UP_NEXT_AUTOPLAY_DELAY {
                    ActionView::Finish(
                        OutcomeView::PlayNext(session.up_next.selected()->0.video_id),
                    )
                } else {
                    ActionView::Draw
                },
            )
        }),
{
}

/// The arrow keys have no effect, neither during the playback nor after it.
pub proof fn arrow_keys_have_no_effect(session: SessionView, by: i32, now: u64)
    requires
        session.phase == Phase::Listening,
    ensures
        session.step(HappeningView::Control(Some(Control::MoveUpNext(by))), now) == (
            session.in_phase(Phase::Receiving),
            Some(ActionView::PollRecommendations),
        ),
{
}

/// A session after a course of events, each with the moment at which it happened.
pub open spec fn after(session: SessionView, events: Seq<(HappeningView, u64)>) -> SessionView
    decreases events.len(),
{
    if events.len() == 0 {
        session
    } else {
        after(session, events.drop_last()).step(events.last().0, events.last().1).0
    }
}

/// Whether an event happened in a course of events while the session waited for it.
pub open spec fn happened(
    start: SessionView,
    events: Seq<(HappeningView, u64)>,
    event: HappeningView,
) -> bool
    decreases events.len(),
{
    events.len() > 0 && (happened(start, events.drop_last(), event) || events.last().0 == event
        && awaited(after(start, events.drop_last()).phase, event))
}

/// Whether the player exited with a code in a course of events, and the session waited to
/// hear of it.
pub open spec fn exits_with(
    start: SessionView,
    events: Seq<(HappeningView, u64)>,
    code: u8,
) -> bool {
    happened(start, events, HappeningView::Exited(code)) || happened(
        start,
        events,
        HappeningView::Process(Some(code)),
    )
}

/// Every session that has started is valid, whatever has happened in it.
pub proof fn every_session_is_valid(
    title: Option<Seq<char>>,
    recommending: bool,
    events: Seq<(HappeningView, u64)>,
)
    ensures
        after(SessionView::initial(title, recommending), events).valid(),
    decreases events.len(),
{
    if events.len() > 0 {
        every_session_is_valid(title, recommending, events.drop_last());
        session_stays_valid(
            after(SessionView::initial(title, recommending), events.drop_last()),
            events.last().0,
            events.last().1,
        );
    }
}

/// A session has an exit code only if the player exited with it.
proof fn lemma_exit_code_was_reported(
    title: Option<Seq<char>>,
    recommending: bool,
    events: Seq<(HappeningView, u64)>,
    code: u8,
)
    requires
        after(SessionView::initial(title, recommending), events).finished_code == Some(code),
    ensures
        exits_with(SessionView::initial(title, recommending), events, code),
    decreases events.len(),
{
    let rest = events.drop_last();
    let before = after(SessionView::initial(title, recommending), rest);
    noted_exit_code_is_that_of_the_player(before, events.last().0, events.last().1, code);
    if before.finished_code == Some(code) {
        lemma_exit_code_was_reported(title, recommending, rest, code);
    }
}

/// An exit code that the session has heard of is noted, unless the session is over.
proof fn lemma_exit_code_is_noted(
    title: Option<Seq<char>>,
    recommending: bool,
    events: Seq<(HappeningView, u64)>,
    code: u8,
)
    requires
        exits_with(SessionView::initial(title, recommending), events, code),
    ensures
        ({
            let session = after(SessionView::initial(title, recommending), events);
            session.finished_code == Some(code) || session.phase == Phase::Over
        }),
    decreases events.len(),
{
    let rest = events.drop_last();
    every_session_is_valid(title, recommending, rest);
    if exits_with(SessionView::initial(title, recommending), rest, code) {
        lemma_exit_code_is_noted(title, recommending, rest, code);
    }
}

/// The exit code with which the listener is left is the one with which the player exited
/// in the course of the session, as the session heard of it; it heard of no other.
pub proof fn session_returns_the_exit_code_of_the_player(
    title: Option<Seq<char>>,
    recommending: bool,
    events: Seq<(HappeningView, u64)>,
    event: HappeningView,
    now: u64,
    code: u8,
)
    requires
        after(SessionView::initial(title, recommending), events).step(event, now).1 == Some(
            ActionView::Finish(OutcomeView::Finished(code)),
        ),
    ensures
        ({
            let start = SessionView::initial(title, recommending);
            let all = events.push((event, now));
            &&& happened(start, all, HappeningView::Exited(code)) || happened(
                start,
                all,
                HappeningView::Process(Some(code)),
            )
            &&& forall|other: u8| #[trigger] exits_with(start, all, other) ==> other == code
        }),
{
    let start = SessionView::initial(title, recommending);
    let all = events.push((event, now));
    let session = after(start, events);
    assert(all.drop_last() =~= events);
    every_session_is_valid(title, recommending, events);
    exit_code_is_that_of_the_player(session, event, now, code);
    if session.finished_code == Some(code) {
        lemma_exit_code_was_reported(title, recommending, events, code);
    }
    assert forall|other: u8| #[trigger] exits_with(start, all, other) implies other == code by {
        if exits_with(start, events, other) {
            lemma_exit_code_is_noted(title, recommending, events, other);
        }
    }
}

/// Whether the lookup delivered a list of candidates in a course of events.
pub open spec fn delivered(
    start: SessionView,
    events: Seq<(HappeningView, u64)>,
    list: Seq<CandidateView>,
) -> bool {
    happened(start, events, HappeningView::Recommendations(PollView::Received(Ok(list))))
}

/// The number that was picked last, of those that stood for a candidate; the first one
/// where none was picked.
pub open spec fn last_pick(start: SessionView, events: Seq<(HappeningView, u64)>) -> nat
    decreases events.len(),
{
    if events.len() == 0 {
        0
    } else {
        let before = after(start, events.drop_last());
        match events.last().0 {
            HappeningView::Control(Some(Control::SelectUpNext(index))) => if before.phase
                == Phase::Listening && before.up_next.offers(index as int) {
                index as nat
            } else {
                last_pick(start, events.drop_last())
            },
            _ => last_pick(start, events.drop_last()),
        }
    }
}

/// Whether an event is a decision on the next video: a number that stands for a candidate
/// or, during the playback, a confirmation of the selection.
pub open spec fn decides(session: SessionView, event: HappeningView) -> bool {
    session.phase == Phase::Listening && match event {
        HappeningView::Control(Some(Control::SelectUpNext(index))) => session.up_next.offers(
            index as int,
        ),
        HappeningView::Control(Some(Control::ConfirmUpNext)) => session.finished_code is None
            && session.up_next.has_candidates(),
        _ => false,
    }
}

/// Whether the listener decided on the next video in a course of events.
pub open spec fn decided(start: SessionView, events: Seq<(HappeningView, u64)>) -> bool
    decreases events.len(),
{
    events.len() > 0 && (decided(start, events.drop_last()) || decides(
        after(start, events.drop_last()),
        events.last().0,
    ))
}

/// Whether an event is a good end of the playback: the player exits with code 0, was not
/// told to quit, and the listener did not ask to stop.
pub open spec fn ends_well(session: SessionView, event: HappeningView) -> bool {
    &&& !session.stop_requested
    &&& {
        ||| session.phase == Phase::Ending { quit: false } && event == HappeningView::Exited(0)
        ||| session.phase == Phase::Checking && event == HappeningView::Process(Some(0))
    }
}

/// The moment of the good end of the playback in a course of events, if there was one.
pub open spec fn good_end(start: SessionView, events: Seq<(HappeningView, u64)>) -> Option<u64>
    decreases events.len(),
{
    if events.len() == 0 {
        None
    } else if ends_well(after(start, events.drop_last()), events.last().0) {
        Some(events.last().1)
    } else {
        good_end(start, events.drop_last())
    }
}

/// A report of the player that its file has ended because it was told to quit.
pub open spec fn quit_report(error: Option<Seq<char>>) -> HappeningView {
    HappeningView::Player(Some(EventView::EndFile { reason: Some("quit"@), error }))
}

/// What a course of events has left in the choice of the next video.
proof fn lemma_choice_after(
    title: Option<Seq<char>>,
    recommending: bool,
    events: Seq<(HappeningView, u64)>,
)
    ensures
        ({
            let start = SessionView::initial(title, recommending);
            let up_next = after(start, events).up_next;
            &&& up_next.selected_index == last_pick(start, events)
            &&& up_next.explicit_selection == decided(start, events)
            &&& !(up_next.source is Disabled) ==> recommending
            &&& up_next.source is Ready ==> delivered(start, events, up_next.source->Ready_0)
        }),
    decreases events.len(),
{
    if events.len() > 0 {
        lemma_choice_after(title, recommending, events.drop_last());
        every_session_is_valid(title, recommending, events.drop_last());
    }
}

/// What a course of events has left of the end of the playback.
proof fn lemma_end_after(
    title: Option<Seq<char>>,
    recommending: bool,
    events: Seq<(HappeningView, u64)>,
)
    requires
        forall|i: int|
            0 <= i < events.len() ==> (#[trigger] events[i]).1
                + crate::up_next::UP_NEXT_AUTOPLAY_DELAY <= u64::MAX,
    ensures
        ({
            let start = SessionView::initial(title, recommending);
            let session = after(start, events);
            let end = good_end(start, events);
            &&& end is Some ==> session.finished_code is Some
            &&& session.finished_code is Some && session.phase != Phase::Over ==> end is Some
            &&& session.up_next.autoplay_deadline is Some ==> end is Some
                && session.up_next.autoplay_deadline->0 == end->0
                + crate::up_next::UP_NEXT_AUTOPLAY_DELAY
        }),
    decreases events.len(),
{
    if events.len() > 0 {
        let rest = events.drop_last();
        assert forall|i: int| 0 <= i < rest.len() implies (#[trigger] rest[i]).1
            + crate::up_next::UP_NEXT_AUTOPLAY_DELAY <= u64::MAX by {
            assert(rest[i] == events[i]);
        }
        assert(events[events.len() - 1] == events.last());
        lemma_end_after(title, recommending, rest);
        every_session_is_valid(title, recommending, rest);
    }
}

/// A wish to stop is remembered until the session is over.
proof fn lemma_wish_to_stop_is_remembered(start: SessionView, events: Seq<(HappeningView, u64)>)
    requires
        happened(start, events, HappeningView::Control(Some(Control::Quit))),
    ensures
        after(start, events).stop_requested || after(start, events).phase == Phase::Over,
    decreases events.len(),
{
    if happened(start, events.drop_last(), HappeningView::Control(Some(Control::Quit))) {
        lemma_wish_to_stop_is_remembered(start, events.drop_last());
    }
}

/// A player that was told to quit ends the session.
proof fn lemma_quit_report_ends(
    start: SessionView,
    events: Seq<(HappeningView, u64)>,
    error: Option<Seq<char>>,
)
    requires
        happened(start, events, quit_report(error)),
    ensures
        after(start, events).phase == (Phase::Ending { quit: true }) || after(start, events).phase
            == Phase::Over,
    decreases events.len(),
{
    if happened(start, events.drop_last(), quit_report(error)) {
        lemma_quit_report_ends(start, events.drop_last(), error);
    }
}

/// When a session hands over to another video. The session was to recommend something, and
/// the lookup delivered a list; the video is the one in it that the listener picked last,
/// or the first one. The playback had come to a good end: the player exited with code 0,
/// it did not report that it was told to quit, and the listener had not asked to stop. And
/// the listener had decided on the next video, or the countdown had run since the end.
pub proof fn next_video_follows_a_good_end(
    title: Option<Seq<char>>,
    recommending: bool,
    events: Seq<(HappeningView, u64)>,
    event: HappeningView,
    now: u64,
    input: Seq<char>,
)
    requires
        forall|i: int|
            0 <= i < events.len() ==> (#[trigger] events[i]).1
                + crate::up_next::UP_NEXT_AUTOPLAY_DELAY <= u64::MAX,
        after(SessionView::initial(title, recommending), events).step(event, now).1 == Some(
            ActionView::Finish(OutcomeView::PlayNext(input)),
        ),
    ensures
        recommending,
        ({
            let start = SessionView::initial(title, recommending);
            let all = events.push((event, now));
            let end = good_end(start, events);
            &&& exists|list: Seq<CandidateView>| #[trigger]
                delivered(start, all, list) && last_pick(start, all) < list.len() && list[last_pick(
                    start,
                    all,
                ) as int].video_id == input
            &&& exits_with(start, events, 0)
            &&& end is Some
            &&& decided(start, all) || now >= end->0 + crate::up_next::UP_NEXT_AUTOPLAY_DELAY
            &&& !after(start, events).stop_requested
            &&& !happened(start, events, HappeningView::Control(Some(Control::Quit)))
            &&& forall|error: Option<Seq<char>>|
                !happened(start, events, #[trigger] quit_report(error))
            &&& after(start, all).up_next.is_due(now)
            &&& after(start, all).up_next.selected() is Some
            &&& after(start, all).up_next.selected()->0.video_id == input
        }),
{
    let start = SessionView::initial(title, recommending);
    let all = events.push((event, now));
    let before = after(start, events);
    assert(all.drop_last() =~= events);
    every_session_is_valid(title, recommending, events);
    next_video_was_recommended(before, event, now, input);
    lemma_exit_code_was_reported(title, recommending, events, 0);
    lemma_choice_after(title, recommending, all);
    lemma_end_after(title, recommending, events);
    let list = after(start, all).up_next.source->Ready_0;
    assert(delivered(start, all, list));
    if happened(start, events, HappeningView::Control(Some(Control::Quit))) {
        lemma_wish_to_stop_is_remembered(start, events);
    }
    assert forall|error: Option<Seq<char>>| !happened(
        start,
        events,
        #[trigger] quit_report(error),
    ) by {
        if happened(start, events, quit_report(error)) {
            lemma_quit_report_ends(start, events, error);
        }
    }
}

/// A session that was not to recommend anything never hands over to another video.
pub proof fn nothing_follows_without_recommendations(
    title: Option<Seq<char>>,
    events: Seq<(HappeningView, u64)>,
    event: HappeningView,
    now: u64,
    input: Seq<char>,
)
    ensures
        after(SessionView::initial(title, false), events).step(event, now).1 != Some(
            ActionView::Finish(OutcomeView::PlayNext(input)),
        ),
{
    lemma_choice_after(title, false, events);
}

/// While the playback runs and the overlay is hidden, each of the keys for the player leads
/// to its order, whatever the state of the player is: pausing and muting are toggled,
/// seeking goes thirty seconds back or forth, and the volume goes five percent down or up
/// from what it is. The session stays as it is.
pub proof fn player_keys_lead_to_their_orders(session: SessionView, now: u64)
    requires
        session.phase == Phase::Listening,
        session.finished_code is None,
        !session.up_next.overlay_visible,
    ensures
        session.step(HappeningView::Control(Some(Control::TogglePause)), now) == (
            session.in_phase(Phase::Sending),
            Some(ActionView::Send(PlayerOrder::TogglePause)),
        ),
        session.step(HappeningView::Control(Some(Control::SeekBackward)), now) == (
            session.in_phase(Phase::Sending),
            Some(ActionView::Send(PlayerOrder::SeekRelative(-30i64))),
        ),
        session.step(HappeningView::Control(Some(Control::SeekForward)), now) == (
            session.in_phase(Phase::Sending),
            Some(ActionView::Send(PlayerOrder::SeekRelative(30))),
        ),
        session.step(HappeningView::Control(Some(Control::VolumeDown)), now) == (
            session.in_phase(Phase::Sending),
            Some(ActionView::Send(PlayerOrder::AdjustVolume { from: session.volume, by: -5i64 })),
        ),
        session.step(HappeningView::Control(Some(Control::VolumeUp)), now) == (
            session.in_phase(Phase::Sending),
            Some(ActionView::Send(PlayerOrder::AdjustVolume { from: session.volume, by: 5 })),
        ),
        session.step(HappeningView::Control(Some(Control::ToggleMute)), now) == (
            session.in_phase(Phase::Sending),
            Some(ActionView::Send(PlayerOrder::ToggleMute)),
        ),
        session.valid() ==> session.volume == session.state.volume,
{
}

/// While the overlay is shown, the keys for the player do nothing: the session goes on as it
/// is.
pub proof fn player_keys_rest_under_the_overlay(
    session: SessionView,
    control: Control,
    now: u64,
)
    requires
        session.phase == Phase::Listening,
        session.finished_code is None,
        session.up_next.overlay_visible,
        control is TogglePause || control is SeekBackward || control is SeekForward
            || control is VolumeDown || control is VolumeUp || control is ToggleMute,
    ensures
        session.step(HappeningView::Control(Some(control)), now) == (
            session.in_phase(Phase::Receiving),
            Some(ActionView::PollRecommendations),
        ),
{
}

/// While the playback runs, quitting is remembered and told to the player, whatever else is
/// the case.
pub proof fn quitting_is_told_to_the_player(session: SessionView, now: u64)
    requires
        session.phase == Phase::Listening,
        session.finished_code is None,
    ensures
        session.step(HappeningView::Control(Some(Control::Quit)), now) == (
            SessionView { stop_requested: true, phase: Phase::Sending, ..session },
            Some(ActionView::Send(PlayerOrder::Quit)),
        ),
{
}

/// While the playback runs, the overlay is shown and hidden by its keys, and nothing else
/// changes with it.
pub proof fn overlay_obeys_its_keys(session: SessionView, now: u64)
    requires
        session.phase == Phase::Listening,
        session.finished_code is None,
    ensures
        ({
            let (toggled, action) = session.step(
                HappeningView::Control(Some(Control::ToggleUpNext)),
                now,
            );
            &&& toggled.up_next.overlay_visible == !session.up_next.overlay_visible
            &&& toggled == (SessionView {
                up_next: UpNextView {
                    overlay_visible: !session.up_next.overlay_visible,
                    ..session.up_next
                },
                phase: Phase::Receiving,
                ..session
            })
            &&& action == Some(ActionView::PollRecommendations)
        }),
        session.step(HappeningView::Control(Some(Control::CloseOverlay)), now) == (
            SessionView {
                up_next: UpNextView { overlay_visible: false, ..session.up_next },
                phase: Phase::Receiving,
                ..session
            },
            Some(ActionView::PollRecommendations),
        ),
{
}

/// While the playback runs, the number of any candidate queues it and hides the overlay;
/// other numbers do nothing.
pub proof fn numbers_queue_their_candidates(
    session: SessionView,
    list: Seq<CandidateView>,
    index: usize,
    now: u64,
)
    requires
        session.phase == Phase::Listening,
        session.finished_code is None,
        session.up_next.source == SourceView::Ready(list),
    ensures
        ({
            let (after, action) = session.step(
                HappeningView::Control(Some(Control::SelectUpNext(index))),
                now,
            );
            &&& action == Some(ActionView::PollRecommendations)
            &&& index < list.len() ==> after == (SessionView {
                up_next: UpNextView {
                    selected_index: index as nat,
                    explicit_selection: true,
                    overlay_visible: false,
                    ..session.up_next
                },
                phase: Phase::Receiving,
                ..session
            })
            &&& index >= list.len() ==> after == session.in_phase(Phase::Receiving)
        }),
{
}

/// While the playback runs, a confirmation makes the selection a decision and hides the
/// overlay, if there is something to select.
pub proof fn confirmation_keeps_the_selection(
    session: SessionView,
    list: Seq<CandidateView>,
    now: u64,
)
    requires
        session.phase == Phase::Listening,
        session.finished_code is None,
        session.up_next.source == SourceView::Ready(list),
    ensures
        ({
            let (after, action) = session.step(
                HappeningView::Control(Some(Control::ConfirmUpNext)),
                now,
            );
            &&& action == Some(ActionView::PollRecommendations)
            &&& list.len() > 0 ==> after == (SessionView {
                up_next: UpNextView {
                    explicit_selection: true,
                    overlay_visible: false,
                    ..session.up_next
                },
                phase: Phase::Receiving,
                ..session
            })
            &&& list.len() == 0 ==> after == session.in_phase(Phase::Receiving)
        }),
{
}

/// While there is no list, neither numbers nor a confirmation do anything before the end.
pub proof fn nothing_to_queue_without_a_list(session: SessionView, control: Control, now: u64)
    requires
        session.phase == Phase::Listening,
        session.finished_code is None,
        !(session.up_next.source is Ready),
        control is SelectUpNext || control is ConfirmUpNext,
    ensures
        session.step(HappeningView::Control(Some(control)), now) == (
            session.in_phase(Phase::Receiving),
            Some(ActionView::PollRecommendations),
        ),
{
}

/// A listener without a wish leaves the session as it is, before and after the end.
pub proof fn no_wish_changes_nothing(session: SessionView, now: u64)
    requires
        session.phase == Phase::Listening,
    ensures
        session.step(HappeningView::Control(None), now) == (
            session.in_phase(Phase::Receiving),
            Some(ActionView::PollRecommendations),
        ),
{
}

/// After the end, quitting leaves with the exit code that was noted.
pub proof fn quitting_after_the_end_leaves_with_the_code(
    session: SessionView,
    code: u8,
    now: u64,
)
    requires
        session.phase == Phase::Listening,
        session.finished_code == Some(code),
    ensures
        session.step(HappeningView::Control(Some(Control::Quit)), now) == (
            session.in_phase(Phase::Over),
            Some(ActionView::Finish(OutcomeView::Finished(code))),
        ),
{
}

/// After the end, a confirmation starts the selected candidate if it is due, and a number
/// starts its candidate; a number without a candidate does nothing.
pub proof fn choices_after_the_end(
    session: SessionView,
    list: Seq<CandidateView>,
    index: usize,
    now: u64,
)
    requires
        session.phase == Phase::Listening,
        session.finished_code is Some,
        session.up_next.source == SourceView::Ready(list),
        session.up_next.selected_index < list.len(),
    ensures
        ({
            let confirmed = session.step(HappeningView::Control(Some(Control::ConfirmUpNext)), now);
            let due = session.up_next.explicit_selection || (
            session.up_next.autoplay_deadline is Some && now
                >= session.up_next.autoplay_deadline->0);
            &&& due ==> confirmed.1 == Some(
                ActionView::Finish(
                    OutcomeView::PlayNext(list[session.up_next.selected_index as int].video_id),
                ),
            )
            &&& !due ==> confirmed == (
                session.in_phase(Phase::Receiving),
                Some(ActionView::PollRecommendations),
            )
        }),
        ({
            let picked = session.step(
                HappeningView::Control(Some(Control::SelectUpNext(index))),
                now,
            );
            &&& index < list.len() ==> picked.1 == Some(
                ActionView::Finish(OutcomeView::PlayNext(list[index as int].video_id)),
            )
            &&& index >= list.len() ==> picked == (
                session.in_phase(Phase::Receiving),
                Some(ActionView::PollRecommendations),
            )
        }),
{
}

/// Each round goes its way: after the first picture the lookup is asked, during the playback
/// then the player; when the player has nothing to report, it is seen whether it runs; if it
/// does, the picture is drawn, and after it the listener is asked. An order that was sent
/// ends the round.
pub proof fn a_round_goes_its_way(session: SessionView, poll: PollView, now: u64)
    ensures
        session.in_phase(Phase::Opening).step(HappeningView::Drawn, now) == (
            session.in_phase(Phase::Receiving),
            Some(ActionView::PollRecommendations),
        ),
        session.finished_code is None ==> session.in_phase(Phase::Receiving).step(
            HappeningView::Recommendations(poll),
            now,
        ) == (
            SessionView {
                up_next: session.up_next.polled(poll),
                phase: Phase::Reading,
                ..session
            },
            Some(ActionView::ReadPlayer),
        ),
        session.in_phase(Phase::Reading).step(HappeningView::Player(None), now) == (
            session.in_phase(Phase::Checking),
            Some(ActionView::CheckProcess),
        ),
        session.in_phase(Phase::Checking).step(HappeningView::Process(None), now) == (
            session.in_phase(Phase::Drawing),
            Some(ActionView::Draw),
        ),
        session.in_phase(Phase::Drawing).step(HappeningView::Drawn, now) == (
            session.in_phase(Phase::Listening),
            Some(ActionView::Listen),
        ),
        session.in_phase(Phase::Sending).step(HappeningView::Sent, now) == (
            session.in_phase(Phase::Receiving),
            Some(ActionView::PollRecommendations),
        ),
{
}

/// After the end, the word of the lookup is taken in; then the selected candidate starts if
/// it is due, the session ends with its code if nothing can follow, and else the picture
/// is drawn.
pub proof fn a_round_after_the_end(session: SessionView, poll: PollView, code: u8, now: u64)
    requires
        session.phase == Phase::Receiving,
        session.finished_code == Some(code),
    ensures
        ({
            let up_next = session.up_next.polled(poll);
            let (after, action) = session.step(HappeningView::Recommendations(poll), now);
            &&& after == SessionView { up_next, phase: after.phase, ..session }
            &&& match up_next.next(now) {
                Some(candidate) => action == Some(
                    ActionView::Finish(OutcomeView::PlayNext(candidate.video_id)),
                ) && after.phase == Phase::Over,
                None => if up_next.is_exhausted() {
                    action == Some(ActionView::Finish(OutcomeView::Finished(code)))
                        && after.phase == Phase::Over
                } else {
                    action == Some(ActionView::Draw) && after.phase == Phase::Drawing
                },
            }
        }),
{
}

/// The change of a property is taken into the state of the playback, and the player is asked
/// on; a volume is also what later changes of the volume start from.
pub proof fn reports_of_properties_are_taken_in(
    session: SessionView,
    name: Seq<char>,
    data: JsonView,
    now: u64,
)
    requires
        session.phase == Phase::Reading,
    ensures
        ({
            let (after, action) = session.step(
                HappeningView::Player(Some(EventView::PropertyChange { name, data })),
                now,
            );
            &&& action == Some(ActionView::ReadPlayer)
            &&& after.state == session.state.changed(name, data)
            &&& name == "volume"@ && data is Number && data->Number_0.double is Some ==> Some(
                after.volume,
            ) == data->Number_0.double
            &&& name != "volume"@ || !(data is Number) ==> after.volume == session.volume
            &&& after == SessionView { state: after.state, volume: after.volume, ..session }
        }),
{
}

/// The end of a file: an error other than success fails the session with its words, and an
/// end because of an error fails it too; else the player is waited for, and it is noted
/// whether it was told to quit.
pub proof fn reports_of_the_end_are_taken_in(
    session: SessionView,
    reason: Option<Seq<char>>,
    error: Option<Seq<char>>,
    now: u64,
)
    requires
        session.phase == Phase::Reading,
    ensures
        ({
            let (after, action) = session.step(
                HappeningView::Player(Some(EventView::EndFile { reason, error })),
                now,
            );
            let failed = error is Some && error->0 != "success"@;
            &&& failed ==> action == Some(
                ActionView::Fail(ErrorView::PlaybackFailed { reason: error->0 }),
            ) && after == session.in_phase(Phase::Over)
            &&& !failed && reason == Some("error"@) ==> action == Some(
                ActionView::Fail(ErrorView::PlaybackBroken),
            ) && after == session.in_phase(Phase::Over)
            &&& !failed && reason != Some("error"@) ==> action == Some(ActionView::WaitForExit)
                && after == session.in_phase(Phase::Ending { quit: reason == Some("quit"@) })
        }),
{
}

/// A player that shuts down or is gone is waited for, and its exit code ends the session,
/// whatever it is.
pub proof fn a_closing_player_ends_the_session(session: SessionView, code: u8, now: u64)
    ensures
        session.in_phase(Phase::Reading).step(
            HappeningView::Player(Some(EventView::Shutdown)),
            now,
        ) == (session.in_phase(Phase::Closing), Some(ActionView::WaitForExit)),
        session.in_phase(Phase::Reading).step(
            HappeningView::Player(Some(EventView::Disconnected)),
            now,
        ) == (session.in_phase(Phase::Closing), Some(ActionView::WaitForExit)),
        session.in_phase(Phase::Closing).step(HappeningView::Exited(code), now) == (
            session.in_phase(Phase::Over),
            Some(ActionView::Finish(OutcomeView::Finished(code))),
        ),
{
}

/// A player that has come to its end well, without being told to, leaves the session with
/// the next video: its code is noted, the overlay comes up, the countdown starts unless
/// there is a decision, and the picture is drawn.
pub proof fn a_good_end_turns_to_the_next_video(session: SessionView, now: u64)
    requires
        !session.stop_requested,
    ensures
        ({
            let ended = SessionView {
                up_next: session.up_next.after_playback(now),
                finished_code: Some(0u8),
                phase: Phase::Drawing,
                ..session
            };
            &&& session.in_phase(Phase::Ending { quit: false }).step(HappeningView::Exited(0), now)
                == (ended, Some(ActionView::Draw))
            &&& session.in_phase(Phase::Checking).step(HappeningView::Process(Some(0)), now) == (
                ended,
                Some(ActionView::Draw),
            )
        }),
{
}

/// Every other end of the player ends the session with its code, which is noted.
pub proof fn every_other_end_ends_the_session(
    session: SessionView,
    code: u8,
    quit: bool,
    now: u64,
)
    ensures
        code != 0 || session.stop_requested || quit ==> session.in_phase(
            Phase::Ending { quit },
        ).step(HappeningView::Exited(code), now) == (
            SessionView { finished_code: Some(code), phase: Phase::Over, ..session },
            Some(ActionView::Finish(OutcomeView::Finished(code))),
        ),
        code != 0 || session.stop_requested ==> session.in_phase(Phase::Checking).step(
            HappeningView::Process(Some(code)),
            now,
        ) == (
            SessionView { finished_code: Some(code), phase: Phase::Over, ..session },
            Some(ActionView::Finish(OutcomeView::Finished(code))),
        ),
{
}

/// What a phase does not wait for changes nothing and asks for nothing.
pub proof fn unawaited_events_change_nothing(
    session: SessionView,
    event: HappeningView,
    now: u64,
)
    requires
        event is Drawn ==> session.phase != Phase::Opening && session.phase != Phase::Drawing,
        event is Recommendations ==> session.phase != Phase::Receiving,
        event is Player ==> session.phase != Phase::Reading,
        event is Exited ==> !(session.phase is Ending) && session.phase != Phase::Closing,
        event is Process ==> session.phase != Phase::Checking,
        event is Control ==> session.phase != Phase::Listening,
        event is Sent ==> session.phase != Phase::Sending,
    ensures
        session.step(event, now) == (session, None::<ActionView>),
{
}

/// A session starts with the title that is known, a fresh playback and a fresh choice, and
/// waits for its first picture.
pub proof fn a_fresh_session(title: Option<Seq<char>>, recommending: bool)
    ensures
        ({
            let session = SessionView::initial(title, recommending);
            &&& title is Some ==> session.state.title == title->0
            &&& title is None ==> session.state.title == "Loading stream..."@
            &&& session.state == StateView::initial(session.state.title)
            &&& session.up_next == UpNextView::initial(recommending)
            &&& session.volume == session.state.volume
            &&& session.finished_code is None
            &&& !session.stop_requested
            &&& session.phase == Phase::Opening
        }),
{
}

/// The phase is all that changes with a phase.
pub proof fn phases_change_nothing_else(session: SessionView, phase: Phase)
    ensures
        session.in_phase(phase).phase == phase,
        session.in_phase(phase).state == session.state,
        session.in_phase(phase).up_next == session.up_next,
        session.in_phase(phase).volume == session.volume,
        session.in_phase(phase).finished_code == session.finished_code,
        session.in_phase(phase).stop_requested == session.stop_requested,
{
}

/// The picture of a session shows its playback, its line about the next video and its
/// overlay; the overlay is that after the end exactly if the playback has ended.
pub proof fn pictures_show_the_session(session: SessionView, readout: Readout, now: u64)
    ensures
        ({
            let shown = session.shown(readout, now);
            &&& shown.title == session.state.title
            &&& session.state.paused ==> shown.status == "Paused"@
            &&& !session.state.paused ==> shown.status == "Playing"@
            &&& shown.queue_status == session.up_next.status()
            &&& session.finished_code is None ==> shown.overlay == session.up_next.overlay(
                false,
                now,
            )
            &&& session.finished_code is Some ==> shown.overlay == session.up_next.overlay(
                true,
                now,
            )
        }),
{
}

} // verus!
