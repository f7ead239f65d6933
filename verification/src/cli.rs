//! The course of the program: from the URL to the end of the last video.
use crate::error::AppError;
use crate::error::ErrorView;
use crate::player;
use crate::player::OutcomeView;
use crate::player::PlaybackMode;
use crate::player::PlaybackOutcome;
use crate::recommendations::RecommendationSeed;
use crate::recommendations::SeedView;
use crate::stream;
use crate::stream::MetadataView;
use crate::stream::StreamView;
use crate::stream::VideoMetadata;
use crate::text;
use crate::tools::ToolRun;
use crate::url;
use vstd::prelude::*;
use vstd::string::*;

verus! {

/// What the program waits for.
#[derive(Debug)]
pub enum RunPhase {
    /// The URL to play.
    Resolving,
    /// The programs that do the work.
    Detecting { url: String },
    /// The description of the video.
    LookingUp { url: String },
    /// The stream of the video.
    Finding { metadata: Option<VideoMetadata> },
    /// The end of the playback.
    Playing,
    /// Nothing: the program is over.
    Over,
}

/// The content of a [`RunPhase`].
pub enum RunPhaseView {
    Resolving,
    Detecting { url: Seq<char> },
    LookingUp { url: Seq<char> },
    Finding { metadata: Option<MetadataView> },
    Playing,
    Over,
}

impl View for RunPhase {
    type V = RunPhaseView;

    open spec fn view(&self) -> RunPhaseView {
        match self {
            RunPhase::Resolving => RunPhaseView::Resolving,
            RunPhase::Detecting { url } => RunPhaseView::Detecting { url: url@ },
            RunPhase::LookingUp { url } => RunPhaseView::LookingUp { url: url@ },
            RunPhase::Finding { metadata } => RunPhaseView::Finding {
                metadata: stream::maybe_metadata(*metadata),
            },
            RunPhase::Playing => RunPhaseView::Playing,
            RunPhase::Over => RunPhaseView::Over,
        }
    }
}

/// What happened.
#[derive(Debug)]
pub enum RunEvent {
    /// The URL was sought.
    Url(Result<String, AppError>),
    /// The programs were sought.
    Tools(Result<(), AppError>),
    /// `yt-dlp` was run for a description.
    Metadata(ToolRun),
    /// `yt-dlp` was run for a stream.
    Stream(ToolRun),
    /// The playback has ended.
    Played(Result<PlaybackOutcome, AppError>),
}

/// What has to be done.
#[derive(Debug)]
pub enum RunAction {
    /// Find the programs that do the work.
    DetectTools,
    /// Have `yt-dlp` describe the video behind this URL.
    LookUp { url: String },
    /// Have `yt-dlp` name the stream behind this URL.
    FindStream { url: String },
    /// Play this stream and, if something is to start from, look for recommendations.
    Play {
        mode: PlaybackMode,
        stream_url: String,
        title: Option<String>,
        recommend: Option<RecommendationSeed>,
    },
    /// Nothing: the program ends with this code.
    Exit(u8),
    /// Nothing: this is why the program failed.
    Fail(AppError),
}

/// The content of a [`RunAction`].
pub enum RunActionView {
    DetectTools,
    LookUp { url: Seq<char> },
    FindStream { url: Seq<char> },
    Play {
        mode: PlaybackMode,
        stream_url: Seq<char>,
        title: Option<Seq<char>>,
        recommend: Option<SeedView>,
    },
    Exit(u8),
    Fail(ErrorView),
}

/// A seed that may be absent, by its content.
pub open spec fn maybe_seed(seed: Option<RecommendationSeed>) -> Option<SeedView> {
    match seed {
        Some(seed) => Some(seed@),
        None => None,
    }
}

impl View for RunAction {
    type V = RunActionView;

    open spec fn view(&self) -> RunActionView {
        match self {
            RunAction::DetectTools => RunActionView::DetectTools,
            RunAction::LookUp { url } => RunActionView::LookUp { url: url@ },
            RunAction::FindStream { url } => RunActionView::FindStream { url: url@ },
            RunAction::Play { mode, stream_url, title, recommend } => RunActionView::Play {
                mode: *mode,
                stream_url: stream_url@,
                title: text::text_view(*title),
                recommend: maybe_seed(*recommend),
            },
            RunAction::Exit(code) => RunActionView::Exit(*code),
            RunAction::Fail(error) => RunActionView::Fail(error@),
        }
    }
}

/// An action that may be absent, by its content.
pub open spec fn maybe_run_action(action: Option<RunAction>) -> Option<RunActionView> {
    match action {
        Some(action) => Some(action@),
        None => None,
    }
}

/// The program ends for a reason.
pub open spec fn failed(error: ErrorView) -> (RunPhaseView, Option<RunActionView>) {
    (RunPhaseView::Over, Some(RunActionView::Fail(error)))
}

/// The video behind a URL is up.
pub open spec fn looks_up(url: Seq<char>) -> (RunPhaseView, Option<RunActionView>) {
    (RunPhaseView::LookingUp { url }, Some(RunActionView::LookUp { url }))
}

/// How a stream is played: with recommendations where there is a terminal to show them.
pub open spec fn plays(stream: StreamView, use_terminal_ui: bool) -> RunActionView {
    RunActionView::Play {
        mode: if use_terminal_ui {
            PlaybackMode::TerminalUi
        } else {
            PlaybackMode::Simple
        },
        stream_url: stream.stream_url,
        title: stream.title,
        recommend: if use_terminal_ui {
            stream.seed()
        } else {
            None
        },
    }
}

/// A step of the program: an event that it does not wait for changes nothing.
pub open spec fn run_step(phase: RunPhaseView, event: RunEvent, use_terminal_ui: bool) -> (
    RunPhaseView,
    Option<RunActionView>,
) {
    match (phase, event) {
        (RunPhaseView::Resolving, RunEvent::Url(outcome)) => match url::outcome_view(outcome) {
            Ok(url) => (RunPhaseView::Detecting { url }, Some(RunActionView::DetectTools)),
            Err(error) => failed(error),
        },
        (RunPhaseView::Detecting { url }, RunEvent::Tools(outcome)) => match outcome {
            Ok(_) => looks_up(url),
            Err(error) => failed(error@),
        },
        (RunPhaseView::LookingUp { url }, RunEvent::Metadata(run)) => {
            match stream::described_by_run(run) {
                Ok(metadata) => (
                    RunPhaseView::Finding { metadata },
                    Some(RunActionView::FindStream { url }),
                ),
                Err(error) => failed(error),
            }
        },
        (RunPhaseView::Finding { metadata }, RunEvent::Stream(run)) => match stream::stream_by_run(
            metadata,
            run,
        ) {
            Ok(stream) => (RunPhaseView::Playing, Some(plays(stream, use_terminal_ui))),
            Err(error) => failed(error),
        },
        (RunPhaseView::Playing, RunEvent::Played(outcome)) => match outcome {
            Ok(outcome) => match outcome@ {
                OutcomeView::Finished(code) => (
                    RunPhaseView::Over,
                    Some(RunActionView::Exit(code)),
                ),
                OutcomeView::PlayNext(input) => looks_up(input),
            },
            Err(error) => failed(error@),
        },
        _ => (phase, None),
    }
}

/// Takes in what happened in the program and says what has to be done. `None` means that
/// the program does not wait for such an event.
pub fn run(phase: RunPhase, event: RunEvent, use_terminal_ui: bool) -> (r: (
    RunPhase,
    Option<RunAction>,
))
    ensures
        (r.0@, maybe_run_action(r.1)) == run_step(phase@, event, use_terminal_ui),
{
    match (phase, event) {
        (RunPhase::Resolving, RunEvent::Url(outcome)) => match outcome {
            Ok(url) => (RunPhase::Detecting { url }, Some(RunAction::DetectTools)),
            Err(error) => (RunPhase::Over, Some(RunAction::Fail(error))),
        },
        (RunPhase::Detecting { url }, RunEvent::Tools(outcome)) => match outcome {
            Ok(_) => {
                let action = RunAction::LookUp { url: url.clone() };
                (RunPhase::LookingUp { url }, Some(action))
            },
            Err(error) => (RunPhase::Over, Some(RunAction::Fail(error))),
        },
        (RunPhase::LookingUp { url }, RunEvent::Metadata(run)) => {
            match stream::extract_video_metadata(run) {
                Ok(metadata) => (
                    RunPhase::Finding { metadata },
                    Some(RunAction::FindStream { url }),
                ),
                Err(error) => (RunPhase::Over, Some(RunAction::Fail(error))),
            }
        },
        (RunPhase::Finding { metadata }, RunEvent::Stream(run)) => {
            match stream::extract_stream(metadata, run) {
                Ok(stream) => {
                    let recommend = if use_terminal_ui {
                        stream.recommendation_seed()
                    } else {
                        None
                    };
                    let action = RunAction::Play {
                        mode: player::play_stream(use_terminal_ui),
                        stream_url: stream.stream_url,
                        title: stream.title,
                        recommend,
                    };
                    (RunPhase::Playing, Some(action))
                },
                Err(error) => (RunPhase::Over, Some(RunAction::Fail(error))),
            }
        },
        (RunPhase::Playing, RunEvent::Played(outcome)) => match outcome {
            Ok(PlaybackOutcome::Finished(code)) => (RunPhase::Over, Some(RunAction::Exit(code))),
            Ok(PlaybackOutcome::PlayNext(input)) => {
                let action = RunAction::LookUp { url: input.clone() };
                (RunPhase::LookingUp { url: input }, Some(action))
            },
            Err(error) => (RunPhase::Over, Some(RunAction::Fail(error))),
        },
        (phase, _) => (phase, None),
    }
}

/// How the program takes its leave: its exit code, and what it says on the error output.
#[derive(Debug, PartialEq)]
pub struct Farewell {
    pub code: u8,
    pub complaint: Option<String>,
}

/// How the program takes its leave, by its content: its exit code and what it says.
pub open spec fn farewell(outcome: Result<u8, AppError>) -> (u8, Option<Seq<char>>) {
    match outcome {
        Ok(code) => (code, None),
        Err(error) => (1, Some("Error: "@ + error@.report())),
    }
}

/// Says how the program takes its leave: with the code of the player, or with one and
/// the reason why it failed.
pub fn run_cli(outcome: Result<u8, AppError>) -> (r: Farewell)
    ensures
        (r.code, text::text_view(r.complaint)) == farewell(outcome),
        match outcome {
            Ok(code) => r.code == code && r.complaint is None,
            Err(error) => r.code == 1 && text::text_view(r.complaint) == Some(
                "Error: "@ + error@.report(),
            ),
        },
{
    match outcome {
        Ok(code) => Farewell { code, complaint: None },
        Err(error) => Farewell {
            code: 1,
            complaint: Some("Error: ".to_owned().concat(error.report().as_str())),
        },
    }
}

/// The program ends with the exit code of the playback.
pub proof fn program_returns_the_code_of_the_playback(code: u8, use_terminal_ui: bool)
    ensures
        run_step(
            RunPhaseView::Playing,
            RunEvent::Played(Ok(PlaybackOutcome::Finished(code))),
            use_terminal_ui,
        ).1 == Some(RunActionView::Exit(code)),
{
}

/// Nothing but the end of a playback ends the program well.
pub proof fn exit_code_comes_from_the_playback(
    phase: RunPhaseView,
    event: RunEvent,
    use_terminal_ui: bool,
    code: u8,
)
    requires
        run_step(phase, event, use_terminal_ui).1 == Some(RunActionView::Exit(code)),
    ensures
        phase is Playing,
        event == RunEvent::Played(Ok(PlaybackOutcome::Finished(code))),
{
}

/// The next video goes the same way as the first: it is looked up by what the playback
/// named, as it stands.
pub proof fn next_video_is_looked_up(input: String, use_terminal_ui: bool)
    ensures
        run_step(
            RunPhaseView::Playing,
            RunEvent::Played(Ok(PlaybackOutcome::PlayNext(input))),
            use_terminal_ui,
        ) == looks_up(input@),
{
}

/// The description and the stream come from the same URL.
pub proof fn stream_is_sought_where_the_video_was_described(
    url: Seq<char>,
    run: ToolRun,
    use_terminal_ui: bool,
)
    ensures
        ({
            let (after, action) = run_step(
                RunPhaseView::LookingUp { url },
                RunEvent::Metadata(run),
                use_terminal_ui,
            );
            action == Some(RunActionView::FindStream { url }) || after is Over
        }),
{
}

/// A video whose description is no JSON is played all the same, if a stream is found.
pub proof fn video_plays_without_a_description(
    url: Seq<char>,
    described: ToolRun,
    found: ToolRun,
    use_terminal_ui: bool,
)
    requires
        stream::described_by_run(described) == Ok::<Option<MetadataView>, ErrorView>(None),
        stream::stream_by_run(None, found) is Ok,
    ensures
        ({
            let (after, action) = run_step(
                RunPhaseView::LookingUp { url },
                RunEvent::Metadata(described),
                use_terminal_ui,
            );
            &&& action == Some(RunActionView::FindStream { url })
            &&& run_step(after, RunEvent::Stream(found), use_terminal_ui) == (
                RunPhaseView::Playing,
                Some(plays(stream::stream_by_run(None, found)->Ok_0, use_terminal_ui)),
            )
        }),
{
}

/// Without a terminal nothing is recommended.
pub proof fn recommendations_need_a_terminal(stream: StreamView)
    ensures
        plays(stream, false)->recommend is None,
        plays(stream, false)->mode == PlaybackMode::Simple,
{
}

/// A program that is over stays so, and asks for nothing.
pub proof fn over_stays_over(event: RunEvent, use_terminal_ui: bool)
    ensures
        run_step(RunPhaseView::Over, event, use_terminal_ui) == (
            RunPhaseView::Over,
            None::<RunActionView>,
        ),
{
}

/// A URL that was found leads to the search for the programs, and programs that were found
/// to the lookup of that URL; what was not found ends the program with its error.
pub proof fn the_program_gets_ready(
    url: String,
    error: AppError,
    found: Seq<char>,
    use_terminal_ui: bool,
)
    ensures
        run_step(RunPhaseView::Resolving, RunEvent::Url(Ok(url)), use_terminal_ui) == (
            RunPhaseView::Detecting { url: url@ },
            Some(RunActionView::DetectTools),
        ),
        run_step(RunPhaseView::Resolving, RunEvent::Url(Err(error)), use_terminal_ui) == (
            RunPhaseView::Over,
            Some(RunActionView::Fail(error@)),
        ),
        run_step(
            RunPhaseView::Detecting { url: found },
            RunEvent::Tools(Ok(())),
            use_terminal_ui,
        ) == (
            RunPhaseView::LookingUp { url: found },
            Some(RunActionView::LookUp { url: found }),
        ),
        run_step(
            RunPhaseView::Detecting { url: found },
            RunEvent::Tools(Err(error)),
            use_terminal_ui,
        ) == (RunPhaseView::Over, Some(RunActionView::Fail(error@))),
{
}

/// What the lookup of a video tells is kept for its stream, which is sought at the same URL;
/// a lookup that failed ends the program with its error.
pub proof fn a_video_is_described(url: Seq<char>, run: ToolRun, use_terminal_ui: bool)
    ensures
        match stream::described_by_run(run) {
            Ok(metadata) => run_step(
                RunPhaseView::LookingUp { url },
                RunEvent::Metadata(run),
                use_terminal_ui,
            ) == (
                RunPhaseView::Finding { metadata },
                Some(RunActionView::FindStream { url }),
            ),
            Err(error) => run_step(
                RunPhaseView::LookingUp { url },
                RunEvent::Metadata(run),
                use_terminal_ui,
            ) == (RunPhaseView::Over, Some(RunActionView::Fail(error))),
        },
{
}

/// A stream that was found is played, with its title: with a picture and with what there is
/// to start recommendations from exactly if there is a terminal. Without a stream the
/// program ends with the error.
pub proof fn a_stream_is_played(
    metadata: Option<MetadataView>,
    run: ToolRun,
    use_terminal_ui: bool,
)
    ensures
        ({
            let (phase, action) = run_step(
                RunPhaseView::Finding { metadata },
                RunEvent::Stream(run),
                use_terminal_ui,
            );
            match stream::stream_by_run(metadata, run) {
                Ok(found) => {
                    &&& phase is Playing
                    &&& action is Some
                    &&& action->0 is Play
                    &&& action->0->stream_url == found.stream_url
                    &&& action->0->title == found.title
                    &&& use_terminal_ui ==> action->0->mode == PlaybackMode::TerminalUi
                    &&& !use_terminal_ui ==> action->0->mode == PlaybackMode::Simple
                    &&& use_terminal_ui ==> action->0->recommend == found.seed()
                    &&& !use_terminal_ui ==> action->0->recommend is None
                },
                Err(error) => phase is Over && action == Some(RunActionView::Fail(error)),
            }
        }),
{
}

/// The end of a playback: its code ends the program, the next video is looked up, and a
/// failure ends the program with its error.
pub proof fn a_playback_ends(code: u8, input: String, error: AppError, use_terminal_ui: bool)
    ensures
        run_step(
            RunPhaseView::Playing,
            RunEvent::Played(Ok(PlaybackOutcome::Finished(code))),
            use_terminal_ui,
        ) == (RunPhaseView::Over, Some(RunActionView::Exit(code))),
        run_step(
            RunPhaseView::Playing,
            RunEvent::Played(Ok(PlaybackOutcome::PlayNext(input))),
            use_terminal_ui,
        ) == (
            RunPhaseView::LookingUp { url: input@ },
            Some(RunActionView::LookUp { url: input@ }),
        ),
        run_step(RunPhaseView::Playing, RunEvent::Played(Err(error)), use_terminal_ui) == (
            RunPhaseView::Over,
            Some(RunActionView::Fail(error@)),
        ),
{
}

/// What the program does not wait for changes nothing and asks for nothing.
pub proof fn unawaited_events_are_passed_over(
    phase: RunPhaseView,
    event: RunEvent,
    use_terminal_ui: bool,
)
    requires
        event is Url ==> !(phase is Resolving),
        event is Tools ==> !(phase is Detecting),
        event is Metadata ==> !(phase is LookingUp),
        event is Stream ==> !(phase is Finding),
        event is Played ==> !(phase is Playing),
    ensures
        run_step(phase, event, use_terminal_ui) == (phase, None::<RunActionView>),
{
}

/// The program leaves with the code of the player, whatever it is, and says nothing; where
/// it failed, it leaves with code 1 and reports the error.
pub proof fn the_program_takes_its_leave(code: u8, error: AppError)
    ensures
        farewell(Ok(code)) == (code, None::<Seq<char>>),
        farewell(Err(error)).0 == 1,
        farewell(Err(error)).1 == Some("Error: "@ + error@.report()),
{
}

} // verus!
