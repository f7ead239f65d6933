//! The queue of one: which video plays next, who chose it and when it starts.
use crate::error::AppError;
use crate::error::ErrorView;
use crate::recommendations;
use crate::recommendations::CandidateView;
use crate::recommendations::UpNextCandidate;
use crate::text;
use vstd::prelude::*;
use vstd::string::*;

verus! {

/// How long the next video waits for a choice, in nanoseconds.
pub const UP_NEXT_AUTOPLAY_DELAY: u64 = 8_000_000_000;

/// What is known of the recommendations.
#[derive(Debug)]
pub enum RecommendationsState {
    /// None are wanted.
    Disabled,
    /// They are being looked up.
    Loading,
    /// These were found.
    Ready(Vec<UpNextCandidate>),
    /// The lookup failed, for this reason.
    Failed(String),
}

/// The content of a [`RecommendationsState`].
pub enum SourceView {
    Disabled,
    Loading,
    Ready(Seq<CandidateView>),
    Failed(Seq<char>),
}

impl View for RecommendationsState {
    type V = SourceView;

    open spec fn view(&self) -> SourceView {
        match self {
            RecommendationsState::Disabled => SourceView::Disabled,
            RecommendationsState::Loading => SourceView::Loading,
            RecommendationsState::Ready(candidates) => SourceView::Ready(
                recommendations::candidates_view(candidates@),
            ),
            RecommendationsState::Failed(error) => SourceView::Failed(error@),
        }
    }
}

/// What the lookup of recommendations has to say when it is asked.
#[derive(Debug)]
pub enum RecommendationsPoll {
    /// Nothing yet.
    Empty,
    /// Its outcome.
    Received(Result<Vec<UpNextCandidate>, AppError>),
    /// Nothing, and nothing will come.
    Disconnected,
}

/// The content of a [`RecommendationsPoll`].
pub enum PollView {
    Empty,
    Received(Result<Seq<CandidateView>, ErrorView>),
    Disconnected,
}

impl View for RecommendationsPoll {
    type V = PollView;

    open spec fn view(&self) -> PollView {
        match self {
            RecommendationsPoll::Empty => PollView::Empty,
            RecommendationsPoll::Received(outcome) => PollView::Received(
                recommendations::search_view(*outcome),
            ),
            RecommendationsPoll::Disconnected => PollView::Disconnected,
        }
    }
}

/// What is shown over the player when the next video is the topic.
#[derive(Debug)]
pub struct UpNextOverlayView {
    pub heading: String,
    pub message: String,
    pub items: Vec<OverlayItem>,
    pub help_lines: Vec<String>,
}

/// A line of the overlay that stands for a candidate.
#[derive(Debug)]
pub struct OverlayItem {
    pub text: String,
    pub selected: bool,
}

/// The content of an [`OverlayItem`].
pub struct ItemView {
    pub text: Seq<char>,
    pub selected: bool,
}

impl View for OverlayItem {
    type V = ItemView;

    open spec fn view(&self) -> ItemView {
        ItemView { text: self.text@, selected: self.selected }
    }
}

/// The contents of a list of lines.
pub open spec fn overlay_items_view(items: Seq<OverlayItem>) -> Seq<ItemView> {
    Seq::new(items.len(), |i: int| items[i]@)
}

/// The content of an [`UpNextOverlayView`].
pub struct OverlayModel {
    pub heading: Seq<char>,
    pub message: Seq<char>,
    pub items: Seq<ItemView>,
    pub help_lines: Seq<Seq<char>>,
}

impl View for UpNextOverlayView {
    type V = OverlayModel;

    open spec fn view(&self) -> OverlayModel {
        OverlayModel {
            heading: self.heading@,
            message: self.message@,
            items: overlay_items_view(self.items@),
            help_lines: text::texts_view(self.help_lines@),
        }
    }
}

/// An overlay that may be absent, by its content.
pub open spec fn maybe_overlay(overlay: Option<UpNextOverlayView>) -> Option<OverlayModel> {
    match overlay {
        Some(overlay) => Some(overlay@),
        None => None,
    }
}

/// The choice of the next video. Moments are counted in nanoseconds.
#[derive(Debug)]
pub struct UpNextState {
    pub source: RecommendationsState,
    pub overlay_visible: bool,
    pub selected_index: usize,
    pub explicit_selection: bool,
    pub autoplay_deadline: Option<u64>,
}

/// The content of an [`UpNextState`].
pub struct UpNextView {
    pub source: SourceView,
    pub overlay_visible: bool,
    pub selected_index: nat,
    pub explicit_selection: bool,
    pub autoplay_deadline: Option<u64>,
}

impl View for UpNextState {
    type V = UpNextView;

    open spec fn view(&self) -> UpNextView {
        UpNextView {
            source: self.source@,
            overlay_visible: self.overlay_visible,
            selected_index: self.selected_index as nat,
            explicit_selection: self.explicit_selection,
            autoplay_deadline: self.autoplay_deadline,
        }
    }
}

impl UpNextView {
    /// The choice as it is at the start of a video.
    pub open spec fn initial(enabled: bool) -> UpNextView {
        UpNextView {
            source: if enabled {
                SourceView::Loading
            } else {
                SourceView::Disabled
            },
            overlay_visible: false,
            selected_index: 0,
            explicit_selection: false,
            autoplay_deadline: None,
        }
    }

    /// Whether there is something to choose from.
    pub open spec fn has_candidates(self) -> bool {
        self.source is Ready && self.source->Ready_0.len() > 0
    }

    /// The selection is one of the candidates; without candidates it is the first one to
    /// come.
    pub open spec fn well_formed(self) -> bool {
        if self.has_candidates() {
            self.selected_index < self.source->Ready_0.len()
        } else {
            self.selected_index == 0
        }
    }

    /// The choice after the lookup was asked.
    pub open spec fn polled(self, poll: PollView) -> UpNextView {
        if !(self.source is Loading) {
            self
        } else {
            match poll {
                PollView::Empty => self,
                PollView::Received(Ok(candidates)) => UpNextView {
                    source: SourceView::Ready(candidates),
                    selected_index: 0,
                    ..self
                },
                PollView::Received(Err(error)) => UpNextView {
                    source: SourceView::Failed(error.message()),
                    ..self
                },
                PollView::Disconnected => UpNextView {
                    source: SourceView::Failed("recommendation lookup stopped unexpectedly"@),
                    ..self
                },
            }
        }
    }

    /// The choice with the overlay shown or hidden.
    pub open spec fn with_overlay(self, visible: bool) -> UpNextView {
        UpNextView { overlay_visible: visible, ..self }
    }

    /// The choice as somebody's decision.
    pub open spec fn decided(self) -> UpNextView {
        UpNextView { explicit_selection: true, ..self }
    }

    /// Whether a number stands for a candidate.
    pub open spec fn offers(self, index: int) -> bool {
        self.source is Ready && 0 <= index < self.source->Ready_0.len()
    }

    /// The choice after a number was picked.
    pub open spec fn selecting(self, index: nat, explicit: bool) -> UpNextView {
        if self.offers(index as int) {
            UpNextView {
                selected_index: index,
                explicit_selection: self.explicit_selection || explicit,
                ..self
            }
        } else {
            self
        }
    }

    /// The candidate that is selected.
    pub open spec fn selected(self) -> Option<CandidateView> {
        if self.offers(self.selected_index as int) {
            Some(self.source->Ready_0[self.selected_index as int])
        } else {
            None
        }
    }

    /// The choice at the end of a video: the overlay comes up and, if nobody has decided,
    /// the countdown starts.
    pub open spec fn after_playback(self, now: u64) -> UpNextView {
        UpNextView {
            overlay_visible: true,
            autoplay_deadline: if self.explicit_selection {
                self.autoplay_deadline
            } else {
                Some((now + UP_NEXT_AUTOPLAY_DELAY) as u64)
            },
            ..self
        }
    }

    /// Whether the selection may start: somebody decided, or the countdown is over.
    pub open spec fn is_due(self, now: u64) -> bool {
        ||| self.explicit_selection
        ||| self.autoplay_deadline is Some && now >= self.autoplay_deadline->0
    }

    /// What starts after the end of a video.
    pub open spec fn next(self, now: u64) -> Option<CandidateView> {
        if self.is_due(now) {
            self.selected()
        } else {
            None
        }
    }

    /// Whether nothing can follow.
    pub open spec fn is_exhausted(self) -> bool {
        !(self.source is Loading) && !self.has_candidates()
    }

    /// The line about the next video.
    pub open spec fn status(self) -> Option<Seq<char>> {
        match self.source {
            SourceView::Disabled => None,
            SourceView::Loading => Some("Up Next: loading recommendations..."@),
            SourceView::Ready(candidates) => if candidates.len() > 0 {
                Some("Up Next: "@ + candidates[self.selected_index as int].label())
            } else {
                Some("Up Next: no recommendations found"@)
            },
            SourceView::Failed(_) => Some("Up Next: unavailable"@),
        }
    }

    /// The whole seconds that are left of the countdown.
    pub open spec fn seconds_left(self, now: u64) -> nat {
        match self.autoplay_deadline {
            Some(deadline) => if now < deadline {
                ((deadline - now) / 1_000_000_000) as nat
            } else {
                0
            },
            None => 0,
        }
    }

    /// What the overlay says when there are candidates.
    pub open spec fn prompt(self, playback_finished: bool, now: u64) -> Seq<char> {
        if !playback_finished {
            "Press 1-5 to queue the next video."@
        } else if self.explicit_selection {
            "Queued selection will start now."@
        } else {
            "Autoplaying "@ + text::decimal((self.selected_index + 1) as nat) + " in "@
                + text::decimal(self.seconds_left(now))
                + "s. Press 1-5 to choose or Enter to play now."@
        }
    }

    /// The line of the overlay for a candidate.
    pub open spec fn item(self, index: int) -> ItemView {
        let marker = if index == self.selected_index {
            ">"@
        } else {
            " "@
        };
        ItemView {
            text: marker + " "@ + text::decimal((index + 1) as nat) + ". "@
                + self.source->Ready_0[index].label(),
            selected: index == self.selected_index,
        }
    }

    /// The overlay.
    pub open spec fn overlay(self, playback_finished: bool, now: u64) -> Option<OverlayModel> {
        if !self.overlay_visible {
            None
        } else {
            match self.source {
                SourceView::Disabled => None,
                SourceView::Loading => Some(
                    notice(
                        if playback_finished {
                            "Loading recommendations before autoplay..."@
                        } else {
                            "Loading recommendations..."@
                        },
                        playback_finished,
                    ),
                ),
                SourceView::Failed(error) => Some(
                    notice(overlay_error(error), playback_finished),
                ),
                SourceView::Ready(candidates) => if candidates.len() == 0 {
                    Some(
                        notice("No recommendations were found for this track."@, playback_finished),
                    )
                } else {
                    Some(
                        OverlayModel {
                            heading: "Up Next"@,
                            message: self.prompt(playback_finished, now),
                            items: Seq::new(candidates.len(), |i: int| self.item(i)),
                            help_lines: if playback_finished {
                                seq!["1-5 choose   Enter play   Q stop"@]
                            } else {
                                seq!["1-5 queue   Enter keep selected   N or Esc close"@]
                            },
                        },
                    )
                },
            }
        }
    }
}

/// The keys that leave an overlay without candidates.
pub open spec fn leaving_help(playback_finished: bool) -> Seq<Seq<char>> {
    if playback_finished {
        seq!["Q stop"@]
    } else {
        seq!["N or Esc close"@]
    }
}

/// An overlay without candidates.
pub open spec fn notice(message: Seq<char>, playback_finished: bool) -> OverlayModel {
    OverlayModel {
        heading: "Up Next"@,
        message,
        items: Seq::empty(),
        help_lines: leaving_help(playback_finished),
    }
}

/// What the overlay says when the lookup failed.
pub open spec fn overlay_error(message: Seq<char>) -> Seq<char> {
    if text::is_blank(message) {
        "Recommendations are unavailable."@
    } else {
        "Recommendations unavailable: "@ + text::trimmed(message)
    }
}

/// Says that the lookup failed.
pub fn fit_overlay_error(message: &str) -> (r: String)
    ensures
        r@ == overlay_error(message@),
{
    let trimmed = text::trim(message);
    if trimmed.as_str().is_empty() {
        "Recommendations are unavailable.".to_owned()
    } else {
        "Recommendations unavailable: ".to_owned().concat(trimmed.as_str())
    }
}

fn leaving_notice(message: String, playback_finished: bool) -> (r: UpNextOverlayView)
    ensures
        r@ == notice(message@, playback_finished),
{
    let help = if playback_finished {
        "Q stop".to_owned()
    } else {
        "N or Esc close".to_owned()
    };
    let r = UpNextOverlayView {
        heading: "Up Next".to_owned(),
        message,
        items: Vec::new(),
        help_lines: vec![help],
    };
    assert(r@.items =~= Seq::empty());
    assert(r@.help_lines =~= leaving_help(playback_finished));
    r
}

impl UpNextState {
    /// The choice at the start of a video; `enabled` tells whether recommendations are
    /// looked up for it.
    pub fn new(enabled: bool) -> (r: UpNextState)
        ensures
            r@ == UpNextView::initial(enabled),
            r@.well_formed(),
    {
        UpNextState {
            source: if enabled {
                RecommendationsState::Loading
            } else {
                RecommendationsState::Disabled
            },
            overlay_visible: false,
            selected_index: 0,
            explicit_selection: false,
            autoplay_deadline: None,
        }
    }

    /// Whether the lookup has still to be asked.
    pub fn is_loading(&self) -> (r: bool)
        ensures
            r == (self@.source is Loading),
    {
        match &self.source {
            RecommendationsState::Loading => true,
            _ => false,
        }
    }

    /// Takes in what the lookup has to say.
    pub fn poll_receiver(&mut self, poll: RecommendationsPoll)
        ensures
            final(self)@ == old(self)@.polled(poll@),
            old(self)@.well_formed() ==> final(self)@.well_formed(),
    {
        if !self.is_loading() {
            return ;
        }
        match poll {
            RecommendationsPoll::Empty => {},
            RecommendationsPoll::Received(Ok(candidates)) => {
                self.source = RecommendationsState::Ready(candidates);
                self.selected_index = 0;
            },
            RecommendationsPoll::Received(Err(error)) => {
                self.source = RecommendationsState::Failed(error.message());
            },
            RecommendationsPoll::Disconnected => {
                self.source = RecommendationsState::Failed(
                    "recommendation lookup stopped unexpectedly".to_owned(),
                );
            },
        }
    }

    /// Whether the overlay is shown.
    pub fn overlay_visible(&self) -> (r: bool)
        ensures
            r == self@.overlay_visible,
    {
        self.overlay_visible
    }

    /// Shows the overlay if it is hidden, and hides it if it is shown.
    pub fn toggle_overlay(&mut self)
        ensures
            final(self)@ == old(self)@.with_overlay(!old(self)@.overlay_visible),
    {
        self.overlay_visible = !self.overlay_visible;
    }

    /// Hides the overlay.
    pub fn close_overlay(&mut self)
        ensures
            final(self)@ == old(self)@.with_overlay(false),
    {
        self.overlay_visible = false;
    }

    /// Whether there is something to choose from.
    pub fn has_ready_candidates(&self) -> (r: bool)
        ensures
            r == self@.has_candidates(),
    {
        match &self.source {
            RecommendationsState::Ready(candidates) => !candidates.is_empty(),
            _ => false,
        }
    }

    /// Makes the selection somebody's decision.
    pub fn mark_explicit(&mut self)
        ensures
            final(self)@ == old(self)@.decided(),
    {
        self.explicit_selection = true;
    }

    /// Selects a candidate by its number; tells whether there is one with that number.
    pub fn select(&mut self, index: usize, explicit: bool) -> (r: bool)
        ensures
            r == old(self)@.offers(index as int),
            final(self)@ == old(self)@.selecting(index as nat, explicit),
            old(self)@.well_formed() ==> final(self)@.well_formed(),
    {
        match &self.source {
            RecommendationsState::Ready(candidates) => {
                if index >= candidates.len() {
                    return false;
                }
            },
            _ => {
                return false;
            },
        }
        self.selected_index = index;
        if explicit {
            self.explicit_selection = true;
        }
        true
    }

    /// The candidate that is selected.
    pub fn selected_candidate(&self) -> (r: Option<UpNextCandidate>)
        ensures
            match r {
                Some(candidate) => self@.selected() == Some(candidate@),
                None => self@.selected() is None,
            },
    {
        match &self.source {
            RecommendationsState::Ready(candidates) => if self.selected_index < candidates.len() {
                Some(candidates[self.selected_index].clone())
            } else {
                None
            },
            _ => None,
        }
    }

    /// Notes that the video has come to its end.
    pub fn on_playback_finished(&mut self, now: u64)
        requires
            old(self)@.explicit_selection || now + UP_NEXT_AUTOPLAY_DELAY <= u64::MAX,
        ensures
            final(self)@ == old(self)@.after_playback(now),
    {
        self.overlay_visible = true;
        if !self.explicit_selection {
            self.autoplay_deadline = Some(now + UP_NEXT_AUTOPLAY_DELAY);
        }
    }

    /// What starts now that the video has come to its end.
    pub fn next_after_finish(&self, now: u64) -> (r: Option<UpNextCandidate>)
        ensures
            match r {
                Some(candidate) => self@.next(now) == Some(candidate@),
                None => self@.next(now) is None,
            },
    {
        if self.explicit_selection {
            return self.selected_candidate();
        }
        match self.autoplay_deadline {
            Some(deadline) => if now >= deadline {
                self.selected_candidate()
            } else {
                None
            },
            None => None,
        }
    }

    /// Whether nothing can follow.
    pub fn should_exit_after_finish(&self) -> (r: bool)
        ensures
            r == self@.is_exhausted(),
    {
        match &self.source {
            RecommendationsState::Disabled => true,
            RecommendationsState::Loading => false,
            RecommendationsState::Ready(candidates) => candidates.is_empty(),
            RecommendationsState::Failed(_) => true,
        }
    }

    /// The line about the next video.
    pub fn status_line(&self) -> (r: Option<String>)
        requires
            self@.well_formed(),
        ensures
            text::text_view(r) == self@.status(),
    {
        match &self.source {
            RecommendationsState::Disabled => None,
            RecommendationsState::Loading => Some(
                "Up Next: loading recommendations...".to_owned(),
            ),
            RecommendationsState::Ready(candidates) => if !candidates.is_empty() {
                Some(
                    "Up Next: ".to_owned().concat(
                        candidates[self.selected_index].display_label().as_str(),
                    ),
                )
            } else {
                Some("Up Next: no recommendations found".to_owned())
            },
            RecommendationsState::Failed(_) => Some("Up Next: unavailable".to_owned()),
        }
    }

    fn prompt(&self, playback_finished: bool, now: u64) -> (r: String)
        requires
            self.selected_index < usize::MAX,
        ensures
            r@ == self@.prompt(playback_finished, now),
    {
        if !playback_finished {
            return "Press 1-5 to queue the next video.".to_owned();
        }
        if self.explicit_selection {
            return "Queued selection will start now.".to_owned();
        }
        let seconds_left: u64 = match self.autoplay_deadline {
            Some(deadline) => if now < deadline {
                (deadline - now) / 1_000_000_000
            } else {
                0
            },
            None => 0,
        };
        "Autoplaying ".to_owned().concat(
            text::decimal_text((self.selected_index + 1) as u64).as_str(),
        ).concat(" in ").concat(text::decimal_text(seconds_left).as_str()).concat(
            "s. Press 1-5 to choose or Enter to play now.",
        )
    }

    fn item(&self, candidates: &Vec<UpNextCandidate>, index: usize) -> (r: OverlayItem)
        requires
            self.source == RecommendationsState::Ready(*candidates),
            index < candidates.len(),
        ensures
            r@ == self@.item(index as int),
    {
        let selected = index == self.selected_index;
        let marker = if selected {
            ">"
        } else {
            " "
        };
        OverlayItem {
            text: marker.to_owned().concat(" ").concat(
                text::decimal_text((index + 1) as u64).as_str(),
            ).concat(". ").concat(candidates[index].display_label().as_str()),
            selected,
        }
    }

    /// The overlay.
    pub fn overlay_view(&self, playback_finished: bool, now: u64) -> (r: Option<UpNextOverlayView>)
        requires
            self@.well_formed(),
        ensures
            maybe_overlay(r) == self@.overlay(playback_finished, now),
    {
        if !self.overlay_visible {
            return None;
        }
        match &self.source {
            RecommendationsState::Disabled => None,
            RecommendationsState::Loading => {
                let message = if playback_finished {
                    "Loading recommendations before autoplay...".to_owned()
                } else {
                    "Loading recommendations...".to_owned()
                };
                Some(leaving_notice(message, playback_finished))
            },
            RecommendationsState::Failed(error) => Some(
                leaving_notice(fit_overlay_error(error.as_str()), playback_finished),
            ),
            RecommendationsState::Ready(candidates) => {
                if candidates.is_empty() {
                    return Some(
                        leaving_notice(
                            "No recommendations were found for this track.".to_owned(),
                            playback_finished,
                        ),
                    );
                }
                let mut items: Vec<OverlayItem> = Vec::new();
                let mut index: usize = 0;
                while index < candidates.len()
                    invariant
                        index <= candidates@.len(),
                        self.source == RecommendationsState::Ready(*candidates),
                        items@.len() == index,
                        forall|i: int| 0 <= i < index ==> (#[trigger] items@[i])@ == self@.item(i),
                    decreases candidates@.len() - index,
                {
                    items.push(self.item(candidates, index));
                    index = index + 1;
                }
                let help = if playback_finished {
                    "1-5 choose   Enter play   Q stop".to_owned()
                } else {
                    "1-5 queue   Enter keep selected   N or Esc close".to_owned()
                };
                let r = UpNextOverlayView {
                    heading: "Up Next".to_owned(),
                    message: self.prompt(playback_finished, now),
                    items,
                    help_lines: vec![help],
                };
                proof {
                    let model = self@.overlay(playback_finished, now)->0;
                    assert(r@.items =~= model.items);
                    assert(r@.help_lines =~= model.help_lines);
                }
                Some(r)
            },
        }
    }
}

/// Whatever happens, the selection stays one of the candidates.
pub proof fn selection_stays_valid(
    state: UpNextView,
    poll: PollView,
    visible: bool,
    index: nat,
    explicit: bool,
    now: u64,
)
    requires
        state.well_formed(),
    ensures
        state.polled(poll).well_formed(),
        state.with_overlay(visible).well_formed(),
        state.decided().well_formed(),
        state.selecting(index, explicit).well_formed(),
        state.after_playback(now).well_formed(),
{
}

/// A choice that somebody made starts at once when the video ends, whatever the clock
/// says.
pub proof fn explicit_choice_starts_at_once(state: UpNextView, index: nat, end: u64, now: u64)
    requires
        state.offers(index as int),
    ensures
        state.selecting(index, true).after_playback(end).next(now) == Some(
            state.source->Ready_0[index as int],
        ),
{
}

/// Where nobody chose, the selection starts when the countdown is over, and not before.
pub proof fn countdown_decides_without_a_choice(state: UpNextView, end: u64, now: u64)
    requires
        state.well_formed(),
        state.has_candidates(),
        !state.explicit_selection,
        end + UP_NEXT_AUTOPLAY_DELAY <= u64::MAX,
    ensures
        state.after_playback(end).next(now) == if now >= end + UP_NEXT_AUTOPLAY_DELAY {
            Some(state.source->Ready_0[state.selected_index as int])
        } else {
            None
        },
{
}

/// Candidates that arrive while nothing is chosen put the first one up, and the
/// countdown goes on as it was.
pub proof fn first_candidate_is_the_default(
    state: UpNextView,
    candidates: Seq<CandidateView>,
)
    requires
        state.source is Loading,
        candidates.len() > 0,
    ensures
        state.polled(PollView::Received(Ok(candidates))).selected() == Some(candidates[0]),
        state.polled(PollView::Received(Ok(candidates))).autoplay_deadline
            == state.autoplay_deadline,
        state.polled(PollView::Received(Ok(candidates))).explicit_selection
            == state.explicit_selection,
{
}

/// The lookup is heard once: what it says later changes nothing.
pub proof fn lookup_is_heard_once(state: UpNextView, first: PollView, later: PollView)
    requires
        !(first is Empty),
    ensures
        state.polled(first).polled(later) == state.polled(first),
{
}

/// Once the countdown is over, a next video starts, or nothing can follow, or the
/// lookup is still under way.
pub proof fn countdown_leaves_no_dead_end(state: UpNextView, end: u64, now: u64)
    requires
        state.well_formed(),
        end + UP_NEXT_AUTOPLAY_DELAY <= now,
    ensures
        ({
            let state = state.after_playback(end);
            state.next(now) is Some || state.is_exhausted() || state.source is Loading
        }),
{
}

/// Nothing starts where nothing can follow.
pub proof fn exhausted_means_no_next(state: UpNextView, now: u64)
    requires
        state.is_exhausted(),
    ensures
        state.next(now) is None,
{
}

/// Toggling the overlay twice leaves everything as it was.
pub proof fn toggling_twice_changes_nothing(state: UpNextView)
    ensures
        ({
            let once = state.with_overlay(!state.overlay_visible);
            once.with_overlay(!once.overlay_visible) == state
        }),
{
}

/// A number that stands for no candidate changes nothing.
pub proof fn unknown_number_changes_nothing(state: UpNextView, index: nat, explicit: bool)
    requires
        !state.offers(index as int),
    ensures
        state.selecting(index, explicit) == state,
{
}

/// The overlay has one line for each candidate, and marks the one that is selected.
pub proof fn overlay_marks_the_selection(
    state: UpNextView,
    playback_finished: bool,
    now: u64,
    index: int,
)
    requires
        state.overlay_visible,
        state.has_candidates(),
        0 <= index < state.source->Ready_0.len(),
    ensures
        state.overlay(playback_finished, now) is Some,
        state.overlay(playback_finished, now)->0.items.len() == state.source->Ready_0.len(),
        state.overlay(playback_finished, now)->0.items[index].selected <==> index
            == state.selected_index,
{
}

/// The countdown shows eight seconds at the end of the video, and none when it is over.
pub proof fn countdown_runs_from_eight_to_zero(state: UpNextView, end: u64, now: u64)
    requires
        !state.explicit_selection,
        end <= now,
        end + UP_NEXT_AUTOPLAY_DELAY <= u64::MAX,
    ensures
        state.after_playback(end).seconds_left(end) == 8,
        state.after_playback(end).seconds_left(now) <= 8,
        state.after_playback(end).is_due(now) ==> state.after_playback(end).seconds_left(now) == 0,
{
}

/// The choice at the start of a video: nothing is selected by anybody, the overlay is
/// hidden, no countdown runs, and a lookup is under way exactly if there is one.
pub proof fn a_fresh_choice(enabled: bool)
    ensures
        UpNextView::initial(enabled).source == if enabled {
            SourceView::Loading
        } else {
            SourceView::Disabled
        },
        !UpNextView::initial(enabled).overlay_visible,
        UpNextView::initial(enabled).selected_index == 0,
        !UpNextView::initial(enabled).explicit_selection,
        UpNextView::initial(enabled).autoplay_deadline is None,
{
}

/// What the lookup says while it is awaited: every candidate that it found is there, in its
/// place; a failure is kept in its words; and as long as it says nothing, nothing changes.
pub proof fn lookup_is_taken_in(
    state: UpNextView,
    candidates: Seq<CandidateView>,
    error: ErrorView,
)
    requires
        state.source is Loading,
    ensures
        state.polled(PollView::Empty) == state,
        state.polled(PollView::Received(Ok(candidates))) == (UpNextView {
            source: SourceView::Ready(candidates),
            selected_index: 0,
            ..state
        }),
        state.polled(PollView::Received(Err(error))) == (UpNextView {
            source: SourceView::Failed(error.message()),
            ..state
        }),
        state.polled(PollView::Disconnected) == (UpNextView {
            source: SourceView::Failed("recommendation lookup stopped unexpectedly"@),
            ..state
        }),
{
}

/// A lookup that is not awaited is not heard.
pub proof fn unawaited_lookup_changes_nothing(state: UpNextView, poll: PollView)
    requires
        !(state.source is Loading),
    ensures
        state.polled(poll) == state,
{
}

/// Any candidate of the list can be picked by its place in it, and nothing else can: a pick
/// moves the selection there and, where it counts as a decision, makes it one; an earlier
/// decision is not taken back.
pub proof fn any_candidate_can_be_picked(
    state: UpNextView,
    list: Seq<CandidateView>,
    index: nat,
    explicit: bool,
)
    requires
        state.source == SourceView::Ready(list),
    ensures
        state.offers(index as int) <==> index < list.len(),
        index < list.len() ==> {
            let picked = state.selecting(index, explicit);
            &&& picked.selected() == Some(list[index as int])
            &&& picked.selected_index == index
            &&& picked.explicit_selection <==> (state.explicit_selection || explicit)
            &&& picked.source == state.source
            &&& picked.overlay_visible == state.overlay_visible
            &&& picked.autoplay_deadline == state.autoplay_deadline
        },
        index >= list.len() ==> state.selecting(index, explicit) == state,
{
}

/// Without a list there is nothing to pick.
pub proof fn nothing_to_pick_without_a_list(state: UpNextView, index: nat, explicit: bool)
    requires
        !(state.source is Ready),
    ensures
        !state.offers(index as int),
        !state.has_candidates(),
        state.selecting(index, explicit) == state,
        state.selected() is None,
{
}

/// There is something to choose from exactly if the list is not empty; the selected
/// candidate is the one at the place of the selection.
pub proof fn selection_stands_in_the_list(state: UpNextView, list: Seq<CandidateView>)
    requires
        state.source == SourceView::Ready(list),
    ensures
        state.has_candidates() <==> list.len() > 0,
        state.selected_index < list.len() ==> state.selected() == Some(
            list[state.selected_index as int],
        ),
        state.selected_index >= list.len() ==> state.selected() is None,
        state.well_formed() && list.len() > 0 ==> state.selected_index < list.len(),
{
}

/// Showing or hiding the overlay and making the selection a decision change nothing else.
pub proof fn marks_change_nothing_else(state: UpNextView, visible: bool)
    ensures
        state.with_overlay(visible).overlay_visible == visible,
        state.with_overlay(visible).source == state.source,
        state.with_overlay(visible).selected_index == state.selected_index,
        state.with_overlay(visible).explicit_selection == state.explicit_selection,
        state.with_overlay(visible).autoplay_deadline == state.autoplay_deadline,
        state.decided().explicit_selection,
        state.decided().source == state.source,
        state.decided().selected_index == state.selected_index,
        state.decided().overlay_visible == state.overlay_visible,
        state.decided().autoplay_deadline == state.autoplay_deadline,
{
}

/// At the end of a video the overlay comes up and, unless there is a decision, a countdown
/// of eight seconds starts; the candidates and the selection stay as they are.
pub proof fn end_of_a_video(state: UpNextView, now: u64)
    requires
        now + 8_000_000_000 <= u64::MAX,
    ensures
        state.after_playback(now).overlay_visible,
        !state.explicit_selection ==> state.after_playback(now).autoplay_deadline == Some(
            (now + 8_000_000_000) as u64,
        ),
        state.explicit_selection ==> state.after_playback(now).autoplay_deadline
            == state.autoplay_deadline,
        state.after_playback(now).source == state.source,
        state.after_playback(now).selected_index == state.selected_index,
        state.after_playback(now).explicit_selection == state.explicit_selection,
{
}

/// What starts is the selected candidate and no other, and it starts exactly if there is a
/// decision or the moment of the deadline has come.
pub proof fn selection_starts_when_it_is_due(
    state: UpNextView,
    list: Seq<CandidateView>,
    now: u64,
)
    requires
        state.source == SourceView::Ready(list),
        state.selected_index < list.len(),
    ensures
        state.explicit_selection ==> state.next(now) == Some(list[state.selected_index as int]),
        !state.explicit_selection && state.autoplay_deadline is None ==> state.next(now) is None,
        !state.explicit_selection && state.autoplay_deadline is Some && now
            < state.autoplay_deadline->0 ==> state.next(now) is None,
        !state.explicit_selection && state.autoplay_deadline is Some && now
            >= state.autoplay_deadline->0 ==> state.next(now) == Some(
            list[state.selected_index as int],
        ),
{
}

/// Something can follow exactly if the lookup is still under way or has found something.
pub proof fn what_leaves_something_to_follow(state: UpNextView, list: Seq<CandidateView>)
    ensures
        state.source is Loading ==> !state.is_exhausted(),
        state.source is Disabled ==> state.is_exhausted(),
        state.source is Failed ==> state.is_exhausted(),
        state.source == SourceView::Ready(list) ==> (state.is_exhausted() <==> list.len() == 0),
{
}

/// Where there are candidates, the status line names the one that is selected, which is the
/// one that will start.
pub proof fn status_names_what_will_start(state: UpNextView)
    requires
        state.well_formed(),
        state.has_candidates(),
    ensures
        state.selected() is Some,
        state.status() == Some("Up Next: "@ + state.selected()->0.label()),
{
}

/// After a pick the status line names the candidate that was picked, whichever was named
/// before.
pub proof fn status_follows_the_pick(
    state: UpNextView,
    list: Seq<CandidateView>,
    index: nat,
    explicit: bool,
)
    requires
        state.source == SourceView::Ready(list),
        index < list.len(),
    ensures
        state.selecting(index, explicit).status() == Some(
            "Up Next: "@ + list[index as int].label(),
        ),
{
}

/// Without candidates the status line says why, unless none are wanted; it does not hang on
/// the selection or the overlay.
pub proof fn status_without_candidates(state: UpNextView, list: Seq<CandidateView>)
    ensures
        state.source is Disabled ==> state.status() is None,
        state.source is Loading ==> state.status() == Some("Up Next: loading recommendations..."@),
        state.source is Failed ==> state.status() == Some("Up Next: unavailable"@),
        state.source == SourceView::Ready(list) && list.len() == 0 ==> state.status() == Some(
            "Up Next: no recommendations found"@,
        ),
{
}

/// The seconds that are shown are the whole seconds up to the deadline: not more than are
/// left, and less than one second short of it; none when it has passed.
pub proof fn seconds_shown_are_those_left(state: UpNextView, deadline: u64, now: u64)
    requires
        state.autoplay_deadline == Some(deadline),
    ensures
        now < deadline ==> state.seconds_left(now) * 1_000_000_000 <= deadline - now < (
        state.seconds_left(now) + 1) * 1_000_000_000,
        now >= deadline ==> state.seconds_left(now) == 0,
{
}

/// The overlay is shown exactly if it was asked for and recommendations are wanted; it is
/// headed as the next video.
pub proof fn overlay_is_shown_when_wanted(state: UpNextView, playback_finished: bool, now: u64)
    ensures
        state.overlay(playback_finished, now) is Some <==> state.overlay_visible
            && !(state.source is Disabled),
        state.overlay(playback_finished, now) is Some ==> state.overlay(
            playback_finished,
            now,
        )->0.heading == "Up Next"@,
{
}

/// The line of the overlay for a candidate gives its number, counted from one, and its
/// label; the one that is selected has a mark before it, and no other has.
pub proof fn overlay_lists_candidates_by_number(
    state: UpNextView,
    list: Seq<CandidateView>,
    playback_finished: bool,
    now: u64,
    index: int,
)
    requires
        state.overlay_visible,
        state.source == SourceView::Ready(list),
        0 <= index < list.len(),
    ensures
        ({
            let overlay = state.overlay(playback_finished, now)->0;
            let line = ". "@ + list[index].label();
            &&& overlay.items.len() == list.len()
            &&& overlay.items[index].selected <==> index == state.selected_index
            &&& overlay.items[index].text == if index == state.selected_index {
                ">"@ + " "@ + text::decimal((index + 1) as nat) + line
            } else {
                " "@ + " "@ + text::decimal((index + 1) as nat) + line
            }
        }),
{
    let item = state.item(index);
    let number = text::decimal((index + 1) as nat);
    let label = list[index].label();
    if index == state.selected_index {
        assert(item.text =~= ">"@ + " "@ + number + (". "@ + label));
    } else {
        assert(item.text =~= " "@ + " "@ + number + (". "@ + label));
    }
}

/// What the overlay says over its candidates: during the video how to queue one; after it
/// that the decision starts or, without one, which number starts in how many seconds.
pub proof fn overlay_tells_what_will_happen(
    state: UpNextView,
    list: Seq<CandidateView>,
    now: u64,
)
    requires
        state.overlay_visible,
        state.source == SourceView::Ready(list),
        list.len() > 0,
    ensures
        state.overlay(false, now)->0.message == "Press 1-5 to queue the next video."@,
        state.overlay(false, now)->0.help_lines == seq![
            "1-5 queue   Enter keep selected   N or Esc close"@,
        ],
        state.explicit_selection ==> state.overlay(true, now)->0.message
            == "Queued selection will start now."@,
        !state.explicit_selection ==> state.overlay(true, now)->0.message == "Autoplaying "@
            + text::decimal((state.selected_index + 1) as nat) + " in "@ + text::decimal(
            state.seconds_left(now),
        ) + "s. Press 1-5 to choose or Enter to play now."@,
        state.overlay(true, now)->0.help_lines == seq!["1-5 choose   Enter play   Q stop"@],
{
}

/// What the overlay says where it has no candidates: why there are none, and how to leave.
/// A reason that is blank is not given.
pub proof fn overlay_tells_why_it_is_empty(
    state: UpNextView,
    list: Seq<CandidateView>,
    error: Seq<char>,
    playback_finished: bool,
    now: u64,
)
    requires
        state.overlay_visible,
        state.source is Loading || state.source == SourceView::Failed(error) || (state.source
            == SourceView::Ready(list) && list.len() == 0),
    ensures
        ({
            let overlay = state.overlay(playback_finished, now)->0;
            &&& overlay.items.len() == 0
            &&& overlay.help_lines == if playback_finished {
                seq!["Q stop"@]
            } else {
                seq!["N or Esc close"@]
            }
            &&& state.source is Ready ==> overlay.message
                == "No recommendations were found for this track."@
            &&& state.source is Loading && playback_finished ==> overlay.message
                == "Loading recommendations before autoplay..."@
            &&& state.source is Loading && !playback_finished ==> overlay.message
                == "Loading recommendations..."@
            &&& state.source is Failed && text::trimmed(error).len() == 0 ==> overlay.message
                == "Recommendations are unavailable."@
            &&& state.source is Failed && text::trimmed(error).len() > 0 ==> overlay.message
                == "Recommendations unavailable: "@ + text::trimmed(error)
        }),
{
}

} // verus!
