//! What can go wrong, and the words in which it is reported.
use crate::text;
use vstd::prelude::*;
use vstd::string::*;

verus! {

/// The exit code of a process as text; a process that a signal ended has none.
pub open spec fn exit_status_text(code: Option<i32>) -> Seq<char> {
    match code {
        Some(code) => text::signed_decimal(code as int),
        None => "terminated by signal"@,
    }
}

/// Writes the exit code of a process.
pub fn format_exit_status(code: Option<i32>) -> (r: String)
    ensures
        r@ == exit_status_text(code),
{
    match code {
        Some(code) => text::signed_decimal_text(code),
        None => "terminated by signal".to_owned(),
    }
}

/// Why the player stopped short.
#[derive(Debug, PartialEq)]
pub enum AppError {
    /// The URL that was given is empty or white space.
    EmptyUrl,
    /// There is no URL, and nobody to ask for one.
    NoUrl,
    /// A program that the player needs is not installed.
    MissingDependency { tool: String },
    /// A program could not be started.
    NotStarted { program: String, cause: String },
    /// `yt-dlp` failed to look a video up.
    MetadataLookup { code: Option<i32>, stderr: String },
    /// The metadata is not UTF-8.
    MetadataNotText { cause: String },
    /// The metadata is not JSON.
    MetadataNotJson { cause: String },
    /// The metadata names no title.
    MetadataWithoutTitle,
    /// `yt-dlp` failed to find a stream.
    StreamLookup { code: Option<i32>, stderr: String },
    /// The stream URL is not UTF-8.
    StreamNotText { cause: String },
    /// No stream URL came back.
    NoStreamUrl,
    /// `yt-dlp` failed to search.
    SearchFailed { stderr: String },
    /// The search results are not UTF-8.
    SearchNotText { cause: String },
    /// The search results are not JSON.
    SearchNotJson { cause: String },
    /// The search results hold no list of entries.
    SearchWithoutEntries,
    /// The socket of `mpv` did not come up in time.
    SocketUnreachable { socket: String, reason: String },
    /// `mpv` reported an error at the end of a file.
    PlaybackFailed { reason: String },
    /// `mpv` ended a file because of an error.
    PlaybackBroken,
    /// An operation of the program around the library failed.
    Io { context: String, cause: String },
}

/// The content of an [`AppError`].
pub enum ErrorView {
    EmptyUrl,
    NoUrl,
    MissingDependency { tool: Seq<char> },
    NotStarted { program: Seq<char>, cause: Seq<char> },
    MetadataLookup { code: Option<i32>, stderr: Seq<char> },
    MetadataNotText { cause: Seq<char> },
    MetadataNotJson { cause: Seq<char> },
    MetadataWithoutTitle,
    StreamLookup { code: Option<i32>, stderr: Seq<char> },
    StreamNotText { cause: Seq<char> },
    NoStreamUrl,
    SearchFailed { stderr: Seq<char> },
    SearchNotText { cause: Seq<char> },
    SearchNotJson { cause: Seq<char> },
    SearchWithoutEntries,
    SocketUnreachable { socket: Seq<char>, reason: Seq<char> },
    PlaybackFailed { reason: Seq<char> },
    PlaybackBroken,
    Io { context: Seq<char>, cause: Seq<char> },
}

impl View for AppError {
    type V = ErrorView;

    open spec fn view(&self) -> ErrorView {
        match self {
            AppError::EmptyUrl => ErrorView::EmptyUrl,
            AppError::NoUrl => ErrorView::NoUrl,
            AppError::MissingDependency { tool } => ErrorView::MissingDependency { tool: tool@ },
            AppError::NotStarted { program, cause } => ErrorView::NotStarted {
                program: program@,
                cause: cause@,
            },
            AppError::MetadataLookup { code, stderr } => ErrorView::MetadataLookup {
                code: *code,
                stderr: stderr@,
            },
            AppError::MetadataNotText { cause } => ErrorView::MetadataNotText { cause: cause@ },
            AppError::MetadataNotJson { cause } => ErrorView::MetadataNotJson { cause: cause@ },
            AppError::MetadataWithoutTitle => ErrorView::MetadataWithoutTitle,
            AppError::StreamLookup { code, stderr } => ErrorView::StreamLookup {
                code: *code,
                stderr: stderr@,
            },
            AppError::StreamNotText { cause } => ErrorView::StreamNotText { cause: cause@ },
            AppError::NoStreamUrl => ErrorView::NoStreamUrl,
            AppError::SearchFailed { stderr } => ErrorView::SearchFailed { stderr: stderr@ },
            AppError::SearchNotText { cause } => ErrorView::SearchNotText { cause: cause@ },
            AppError::SearchNotJson { cause } => ErrorView::SearchNotJson { cause: cause@ },
            AppError::SearchWithoutEntries => ErrorView::SearchWithoutEntries,
            AppError::SocketUnreachable { socket, reason } => ErrorView::SocketUnreachable {
                socket: socket@,
                reason: reason@,
            },
            AppError::PlaybackFailed { reason } => ErrorView::PlaybackFailed { reason: reason@ },
            AppError::PlaybackBroken => ErrorView::PlaybackBroken,
            AppError::Io { context, cause } => ErrorView::Io { context: context@, cause: cause@ },
        }
    }
}

impl ErrorView {
    /// What went wrong.
    pub open spec fn message(self) -> Seq<char> {
        match self {
            ErrorView::EmptyUrl => "URL cannot be empty."@,
            ErrorView::NoUrl => {
                "No URL provided. Pass a quoted YouTube URL as an argument, pipe one on stdin, or run from an interactive terminal."@
            },
            ErrorView::MissingDependency { tool } => {
                "Required dependency `"@
                    + tool
                    + "` was not found on PATH. Install dependencies with: brew install yt-dlp mpv"@
            },
            ErrorView::NotStarted { program, .. } => "failed to start `"@ + program + "`"@,
            ErrorView::MetadataLookup { code, stderr } => {
                "`yt-dlp` metadata lookup failed with status "@
                    + exit_status_text(code)
                    + ": "@
                    + stderr
            },
            ErrorView::MetadataNotText { .. } => "yt-dlp returned non-UTF-8 metadata"@,
            ErrorView::MetadataNotJson { .. } => "failed to parse yt-dlp metadata JSON"@,
            ErrorView::MetadataWithoutTitle => "yt-dlp metadata was missing a title"@,
            ErrorView::StreamLookup { code, stderr } => {
                "`yt-dlp` failed with status "@
                    + exit_status_text(code)
                    + ": "@
                    + stderr
            },
            ErrorView::StreamNotText { .. } => "yt-dlp returned non-UTF-8 output"@,
            ErrorView::NoStreamUrl => "`yt-dlp` did not return a playable stream URL."@,
            ErrorView::SearchFailed { stderr } => {
                "`yt-dlp` recommendation search failed: "@
                    + stderr
            },
            ErrorView::SearchNotText { .. } => "yt-dlp returned non-UTF-8 recommendation output"@,
            ErrorView::SearchNotJson { .. } => "failed to parse yt-dlp recommendation JSON"@,
            ErrorView::SearchWithoutEntries => {
                "yt-dlp recommendation response was missing entries"@
            },
            ErrorView::SocketUnreachable { socket, reason } => {
                "failed to connect to mpv IPC socket at "@
                    + socket
                    + ": "@
                    + reason
            },
            ErrorView::PlaybackFailed { reason } => "mpv playback failed: "@ + reason,
            ErrorView::PlaybackBroken => "mpv playback ended with an error."@,
            ErrorView::Io { context, .. } => context,
        }
    }

    /// What it came from, where that is known.
    pub open spec fn cause(self) -> Option<Seq<char>> {
        match self {
            ErrorView::NotStarted { cause, .. } => Some(cause),
            ErrorView::MetadataNotText { cause } => Some(cause),
            ErrorView::MetadataNotJson { cause } => Some(cause),
            ErrorView::StreamNotText { cause } => Some(cause),
            ErrorView::SearchNotText { cause } => Some(cause),
            ErrorView::SearchNotJson { cause } => Some(cause),
            ErrorView::Io { cause, .. } => Some(cause),
            _ => None,
        }
    }

    /// What went wrong, and after a colon what it came from.
    pub open spec fn report(self) -> Seq<char> {
        match self.cause() {
            Some(cause) => self.message() + ": "@ + cause,
            None => self.message(),
        }
    }
}

impl AppError {
    /// Says what went wrong.
    pub fn message(&self) -> (r: String)
        ensures
            r@ == self@.message(),
    {
        match self {
            AppError::EmptyUrl => "URL cannot be empty.".to_owned(),
            AppError::NoUrl => {
                "No URL provided. Pass a quoted YouTube URL as an argument, pipe one on stdin, or run from an interactive terminal.".to_owned()
            },
            AppError::MissingDependency { tool } => {
                "Required dependency `".to_owned()
                    .concat(tool.as_str())
                    .concat("` was not found on PATH. Install dependencies with: brew install yt-dlp mpv")
            },
            AppError::NotStarted { program, .. } => {
                "failed to start `".to_owned()
                    .concat(program.as_str())
                    .concat("`")
            },
            AppError::MetadataLookup { code, stderr } => {
                "`yt-dlp` metadata lookup failed with status ".to_owned()
                    .concat(format_exit_status(*code).as_str())
                    .concat(": ")
                    .concat(stderr.as_str())
            },
            AppError::MetadataNotText { .. } => "yt-dlp returned non-UTF-8 metadata".to_owned(),
            AppError::MetadataNotJson { .. } => "failed to parse yt-dlp metadata JSON".to_owned(),
            AppError::MetadataWithoutTitle => "yt-dlp metadata was missing a title".to_owned(),
            AppError::StreamLookup { code, stderr } => {
                "`yt-dlp` failed with status ".to_owned()
                    .concat(format_exit_status(*code).as_str())
                    .concat(": ")
                    .concat(stderr.as_str())
            },
            AppError::StreamNotText { .. } => "yt-dlp returned non-UTF-8 output".to_owned(),
            AppError::NoStreamUrl => "`yt-dlp` did not return a playable stream URL.".to_owned(),
            AppError::SearchFailed { stderr } => {
                "`yt-dlp` recommendation search failed: ".to_owned()
                    .concat(stderr.as_str())
            },
            AppError::SearchNotText { .. } => {
                "yt-dlp returned non-UTF-8 recommendation output".to_owned()
            },
            AppError::SearchNotJson { .. } => {
                "failed to parse yt-dlp recommendation JSON".to_owned()
            },
            AppError::SearchWithoutEntries => {
                "yt-dlp recommendation response was missing entries".to_owned()
            },
            AppError::SocketUnreachable { socket, reason } => {
                "failed to connect to mpv IPC socket at ".to_owned()
                    .concat(socket.as_str())
                    .concat(": ")
                    .concat(reason.as_str())
            },
            AppError::PlaybackFailed { reason } => {
                "mpv playback failed: ".to_owned()
                    .concat(reason.as_str())
            },
            AppError::PlaybackBroken => "mpv playback ended with an error.".to_owned(),
            AppError::Io { context, .. } => context.clone(),
        }
    }

    /// Says what the error came from.
    pub fn cause(&self) -> (r: Option<String>)
        ensures
            text::text_view(r) == self@.cause(),
    {
        match self {
            AppError::NotStarted { cause, .. } => Some(cause.clone()),
            AppError::MetadataNotText { cause } => Some(cause.clone()),
            AppError::MetadataNotJson { cause } => Some(cause.clone()),
            AppError::StreamNotText { cause } => Some(cause.clone()),
            AppError::SearchNotText { cause } => Some(cause.clone()),
            AppError::SearchNotJson { cause } => Some(cause.clone()),
            AppError::Io { cause, .. } => Some(cause.clone()),
            _ => None,
        }
    }

    /// Says what went wrong and what it came from.
    pub fn report(&self) -> (r: String)
        ensures
            r@ == self@.report(),
    {
        match self.cause() {
            Some(cause) => self.message().concat(": ").concat(cause.as_str()),
            None => self.message(),
        }
    }
}

/// A report starts with what went wrong and, where there is a cause, ends with it.
pub proof fn reports_name_error_and_cause(error: ErrorView)
    ensures
        error.cause() is None ==> error.report() == error.message(),
        error.cause() is Some ==> error.report() == error.message() + ": "@ + error.cause()->0,
{
}

/// The cause of an error is the one that it came with; errors of the library's own have
/// none.
pub proof fn errors_keep_their_causes(
    program: Seq<char>,
    context: Seq<char>,
    cause: Seq<char>,
    code: Option<i32>,
)
    ensures
        (ErrorView::NotStarted { program, cause }).cause() == Some(cause),
        (ErrorView::MetadataNotText { cause }).cause() == Some(cause),
        (ErrorView::MetadataNotJson { cause }).cause() == Some(cause),
        (ErrorView::StreamNotText { cause }).cause() == Some(cause),
        (ErrorView::SearchNotText { cause }).cause() == Some(cause),
        (ErrorView::SearchNotJson { cause }).cause() == Some(cause),
        (ErrorView::Io { context, cause }).cause() == Some(cause),
        (ErrorView::MetadataLookup { code, stderr: cause }).cause() is None,
        (ErrorView::StreamLookup { code, stderr: cause }).cause() is None,
        (ErrorView::SearchFailed { stderr: cause }).cause() is None,
        (ErrorView::PlaybackFailed { reason: cause }).cause() is None,
        (ErrorView::SocketUnreachable { socket: context, reason: cause }).cause() is None,
        (ErrorView::MissingDependency { tool: program }).cause() is None,
        ErrorView::EmptyUrl.cause() is None,
        ErrorView::NoUrl.cause() is None,
        ErrorView::MetadataWithoutTitle.cause() is None,
        ErrorView::NoStreamUrl.cause() is None,
        ErrorView::SearchWithoutEntries.cause() is None,
        ErrorView::PlaybackBroken.cause() is None,
{
}

/// An error that is about something names it, whole: the tool that is missing, the program
/// that did not start, the exit status and the complaint of a program that failed, the
/// socket and why it cannot be reached, and why a playback failed.
pub proof fn errors_name_what_they_are_about(
    name: Seq<char>,
    reason: Seq<char>,
    code: Option<i32>,
)
    ensures
        (ErrorView::MissingDependency { tool: name }).message() == "Required dependency `"@ + name
            + "` was not found on PATH. Install dependencies with: brew install yt-dlp mpv"@,
        (ErrorView::NotStarted { program: name, cause: reason }).message() == "failed to start `"@
            + name + "`"@,
        (ErrorView::MetadataLookup { code, stderr: reason }).message()
            == "`yt-dlp` metadata lookup failed with status "@ + exit_status_text(code) + ": "@
            + reason,
        (ErrorView::StreamLookup { code, stderr: reason }).message()
            == "`yt-dlp` failed with status "@ + exit_status_text(code) + ": "@ + reason,
        (ErrorView::SearchFailed { stderr: reason }).message()
            == "`yt-dlp` recommendation search failed: "@ + reason,
        (ErrorView::SocketUnreachable { socket: name, reason }).message()
            == "failed to connect to mpv IPC socket at "@ + name + ": "@ + reason,
        (ErrorView::PlaybackFailed { reason }).message() == "mpv playback failed: "@ + reason,
        (ErrorView::Io { context: name, cause: reason }).message() == name,
{
}

/// Errors that came from elsewhere say where they arose, and errors about nothing in
/// particular have words of their own.
pub proof fn errors_have_their_words(cause: Seq<char>)
    ensures
        ErrorView::EmptyUrl.message() == "URL cannot be empty."@,
        ErrorView::NoUrl.message()
            == "No URL provided. Pass a quoted YouTube URL as an argument, pipe one on stdin, or run from an interactive terminal."@,
        (ErrorView::MetadataNotText { cause }).message() == "yt-dlp returned non-UTF-8 metadata"@,
        (ErrorView::MetadataNotJson { cause }).message() == "failed to parse yt-dlp metadata JSON"@,
        ErrorView::MetadataWithoutTitle.message() == "yt-dlp metadata was missing a title"@,
        (ErrorView::StreamNotText { cause }).message() == "yt-dlp returned non-UTF-8 output"@,
        ErrorView::NoStreamUrl.message() == "`yt-dlp` did not return a playable stream URL."@,
        (ErrorView::SearchNotText { cause }).message()
            == "yt-dlp returned non-UTF-8 recommendation output"@,
        (ErrorView::SearchNotJson { cause }).message()
            == "failed to parse yt-dlp recommendation JSON"@,
        ErrorView::SearchWithoutEntries.message()
            == "yt-dlp recommendation response was missing entries"@,
        ErrorView::PlaybackBroken.message() == "mpv playback ended with an error."@,
{
}

/// An exit status is written as the number that it is, with its sign; without one a signal
/// is named.
pub proof fn exit_statuses_are_written_as_numbers(code: i32)
    ensures
        code >= 0 ==> text::decimal_value(exit_status_text(Some(code))) == code,
        code < 0 ==> exit_status_text(Some(code)).len() > 1 && exit_status_text(Some(code))[0]
            == '-' && text::decimal_value(exit_status_text(Some(code)).drop_first()) == -code,
        exit_status_text(None) == "terminated by signal"@,
{
    if code >= 0 {
        text::decimal_reads_back(code as nat);
    } else {
        text::decimal_reads_back((-code) as nat);
        assert(exit_status_text(Some(code)).drop_first() =~= text::decimal((-code) as nat));
    }
}

} // verus!
