//! The programs that do the work: where they are, what they are told, how they end.
use crate::error::AppError;
use crate::error::ErrorView;
use crate::text;
use vstd::prelude::*;
use vstd::string::*;
use vstd::utf8;

verus! {

/// What a program left behind: its exit code, unless a signal ended it, and its output.
#[derive(Debug)]
pub struct CommandOutput {
    pub code: Option<i32>,
    pub stdout: Vec<u8>,
    pub stderr: Vec<u8>,
}

impl CommandOutput {
    /// Whether the program ended well.
    pub open spec fn succeeded(self) -> bool {
        self.code == Some(0i32)
    }

    /// Tells whether the program ended well.
    pub fn success(&self) -> (r: bool)
        ensures
            r == self.succeeded(),
    {
        match self.code {
            Some(code) => code == 0,
            None => false,
        }
    }
}

/// How an attempt to run a program went.
#[derive(Debug)]
pub enum ToolRun {
    NotStarted { program: String, cause: String },
    Finished(CommandOutput),
}

/// The words in which `String::from_utf8` refuses bytes.
pub uninterp spec fn utf8_refusal(bytes: Seq<u8>) -> Seq<char>;

/// What `String::from_utf8_lossy` makes of bytes.
pub uninterp spec fn lossy_reading(bytes: Seq<u8>) -> Seq<char>;

/// Calls `String::from_utf8`, which takes exactly the bytes that are valid UTF-8, and
/// decodes them. The contract names the words in which its error is displayed.
#[verifier::external_body]
pub(crate) fn decode(bytes: Vec<u8>) -> (r: Result<String, String>)
    ensures
        match r {
            Ok(decoded) => utf8::valid_utf8(bytes@) && decoded@ == utf8::decode_utf8(bytes@),
            Err(cause) => !utf8::valid_utf8(bytes@) && cause@ == utf8_refusal(bytes@),
        },
{
    String::from_utf8(bytes).map_err(|error| error.to_string())
}

/// Calls `String::from_utf8_lossy`, which decodes valid UTF-8 as it is. The contract
/// names what it makes of other bytes.
#[verifier::external_body]
pub(crate) fn decode_lossy(bytes: &Vec<u8>) -> (r: String)
    ensures
        r@ == lossy_reading(bytes@),
        utf8::valid_utf8(bytes@) ==> r@ == utf8::decode_utf8(bytes@),
{
    String::from_utf8_lossy(bytes).into_owned()
}

/// What a program complains of: its error output without the white space around it. What
/// is not UTF-8 is read as well as it can be.
pub open spec fn complaint(output: CommandOutput) -> Seq<char> {
    if utf8::valid_utf8(output.stderr@) {
        text::trimmed(utf8::decode_utf8(output.stderr@))
    } else {
        text::trimmed(lossy_reading(output.stderr@))
    }
}

/// Reads what a program complains of.
pub fn complaint_of(output: &CommandOutput) -> (r: String)
    ensures
        r@ == complaint(*output),
        utf8::valid_utf8(output.stderr@) ==> r@ == text::trimmed(
            utf8::decode_utf8(output.stderr@),
        ),
{
    text::trim(decode_lossy(&output.stderr).as_str())
}

/// The exit code to report for a process: its own, brought into the range of a byte, or
/// one where a signal ended it.
pub open spec fn reported_code(code: Option<i32>) -> u8 {
    match code {
        Some(code) => if code < 0 {
            0
        } else if code > 255 {
            255
        } else {
            code as u8
        },
        None => 1,
    }
}

/// The exit code to report for a process.
pub fn exit_code(code: Option<i32>) -> (r: u8)
    ensures
        r == reported_code(code),
{
    match code {
        Some(code) => if code < 0 {
            0
        } else if code > 255 {
            255
        } else {
            code as u8
        },
        None => 1,
    }
}

/// Whether a path leads to a program.
pub open spec fn executable(is_file: bool, mode: Option<u32>) -> bool {
    is_file && mode is Some && mode->0 & 0o111 != 0
}

/// Whether a path leads to a program: to a file that somebody may execute. `mode` is the
/// mode of the file, where it could be read.
pub fn is_executable(is_file: bool, mode: Option<u32>) -> (r: bool)
    ensures
        r == executable(is_file, mode),
        r == (is_file && mode is Some && mode->0 & 0o111 != 0),
{
    match mode {
        Some(mode) => is_file && mode & 0o111 != 0,
        None => false,
    }
}

/// Finds a program among the directories of the search path: `executable` tells for each
/// directory, in their order, whether the program is in it.
pub fn find_on_path(executable: &Vec<bool>) -> (r: Option<usize>)
    ensures
        match r {
            Some(at) => at < executable@.len() && executable@[at as int] && forall|i: int|
                0 <= i < at ==> !executable@[i],
            None => forall|i: int| 0 <= i < executable@.len() ==> !executable@[i],
        },
{
    let mut at: usize = 0;
    while at < executable.len()
        invariant
            at <= executable@.len(),
            forall|i: int| 0 <= i < at ==> !executable@[i],
        decreases executable@.len() - at,
    {
        if executable[at] {
            return Some(at);
        }
        at = at + 1;
    }
    None
}

/// The programs that the player needs, by their paths.
#[derive(Debug)]
pub struct Dependencies<P> {
    pub yt_dlp: P,
    pub mpv: P,
}

impl<P> Dependencies<P> {
    /// Takes the paths at which the two programs were found; the first one that was not
    /// found is reported.
    pub fn detect(yt_dlp: Option<P>, mpv: Option<P>) -> (r: Result<Dependencies<P>, AppError>)
        ensures
            match r {
                Ok(found) => yt_dlp == Some(found.yt_dlp) && mpv == Some(found.mpv),
                Err(error) => if yt_dlp is None {
                    error@ == (ErrorView::MissingDependency { tool: "yt-dlp"@ })
                } else {
                    mpv is None && error@ == (ErrorView::MissingDependency { tool: "mpv"@ })
                },
            },
    {
        match yt_dlp {
            None => Err(missing_dependency_error("yt-dlp")),
            Some(yt_dlp) => match mpv {
                None => Err(missing_dependency_error("mpv")),
                Some(mpv) => Ok(Dependencies { yt_dlp, mpv }),
            },
        }
    }
}

/// The error for a program that is not installed.
pub fn missing_dependency_error(tool: &str) -> (error: AppError)
    ensures
        error@ == (ErrorView::MissingDependency { tool: tool@ }),
{
    AppError::MissingDependency { tool: tool.to_owned() }
}

/// The arguments with which `yt-dlp` describes a video.
pub open spec fn metadata_arguments(youtube_url: Seq<char>) -> Seq<Seq<char>> {
    seq![
        "--no-playlist"@,
        "--no-warnings"@,
        "--skip-download"@,
        "--dump-single-json"@,
        youtube_url,
    ]
}

/// The arguments with which `yt-dlp` describes a video.
pub fn yt_dlp_metadata_command(youtube_url: &str) -> (args: Vec<String>)
    ensures
        text::texts_view(args@) == metadata_arguments(youtube_url@),
        text::texts_view(args@) == seq![
            "--no-playlist"@,
            "--no-warnings"@,
            "--skip-download"@,
            "--dump-single-json"@,
            youtube_url@,
        ],
{
    let args = vec![
        "--no-playlist".to_owned(),
        "--no-warnings".to_owned(),
        "--skip-download".to_owned(),
        "--dump-single-json".to_owned(),
        youtube_url.to_owned(),
    ];
    args
}

/// The arguments with which `yt-dlp` names the audio stream of a video.
pub open spec fn stream_arguments(youtube_url: Seq<char>) -> Seq<Seq<char>> {
    seq![
        "--no-playlist"@,
        "--no-warnings"@,
        "-f"@,
        "bestaudio/best"@,
        "--get-url"@,
        youtube_url,
    ]
}

/// The arguments with which `yt-dlp` names the audio stream of a video.
pub fn yt_dlp_stream_command(youtube_url: &str) -> (args: Vec<String>)
    ensures
        text::texts_view(args@) == stream_arguments(youtube_url@),
        text::texts_view(args@) == seq![
            "--no-playlist"@,
            "--no-warnings"@,
            "-f"@,
            "bestaudio/best"@,
            "--get-url"@,
            youtube_url@,
        ],
{
    let args = vec![
        "--no-playlist".to_owned(),
        "--no-warnings".to_owned(),
        "-f".to_owned(),
        "bestaudio/best".to_owned(),
        "--get-url".to_owned(),
        youtube_url.to_owned(),
    ];
    args
}

/// The arguments with which `mpv` plays a stream: audio only, with small caches.
pub open spec fn mpv_arguments(stream_url: Seq<char>) -> Seq<Seq<char>> {
    seq![
        "--no-video"@,
        "--cache=yes"@,
        "--cache-secs=2"@,
        "--cache-on-disk=no"@,
        "--demuxer-max-bytes=8MiB"@,
        "--demuxer-max-back-bytes=1MiB"@,
        stream_url,
    ]
}

/// The arguments with which `mpv` plays a stream.
pub fn mpv_command(stream_url: &str) -> (args: Vec<String>)
    ensures
        text::texts_view(args@) == mpv_arguments(stream_url@),
{
    let args = vec![
        "--no-video".to_owned(),
        "--cache=yes".to_owned(),
        "--cache-secs=2".to_owned(),
        "--cache-on-disk=no".to_owned(),
        "--demuxer-max-bytes=8MiB".to_owned(),
        "--demuxer-max-back-bytes=1MiB".to_owned(),
        stream_url.to_owned(),
    ];
    args
}

/// The arguments with which `mpv` plays a stream out of sight and takes its orders from
/// a socket.
pub open spec fn ipc_mpv_arguments(stream_url: Seq<char>, socket_path: Seq<char>) -> Seq<
    Seq<char>,
> {
    mpv_arguments(stream_url) + seq![
        "--input-terminal=no"@,
        "--terminal=no"@,
        "--force-window=no"@,
        "--input-ipc-server="@ + socket_path,
    ]
}

/// The arguments with which `mpv` plays a stream out of sight and takes its orders from
/// a socket.
pub fn ipc_mpv_command(stream_url: &str, socket_path: &str) -> (args: Vec<String>)
    ensures
        text::texts_view(args@) == ipc_mpv_arguments(stream_url@, socket_path@),
        text::texts_view(args@) == mpv_arguments(stream_url@) + seq![
            "--input-terminal=no"@,
            "--terminal=no"@,
            "--force-window=no"@,
            "--input-ipc-server="@ + socket_path@,
        ],
{
    let mut args = mpv_command(stream_url);
    let ghost before = text::texts_view(args@);
    args.push("--input-terminal=no".to_owned());
    args.push("--terminal=no".to_owned());
    args.push("--force-window=no".to_owned());
    args.push("--input-ipc-server=".to_owned().concat(socket_path));
    assert(forall|i: int| 0 <= i < before.len() ==> before[i] == #[trigger] args@[i]@);
    args
}

/// What to do about the socket of `mpv`, which takes a moment to come up.
#[derive(Debug, Clone, Copy, PartialEq, Eq, Structural)]
pub enum SocketStep {
    Use,
    RetryAfterMillis(u64),
    GiveUp,
}

/// What to do about the socket after an attempt to connect.
pub open spec fn socket_step(connected: bool, elapsed_nanos: u64) -> SocketStep {
    if connected {
        SocketStep::Use
    } else if elapsed_nanos < 5_000_000_000 {
        SocketStep::RetryAfterMillis(50)
    } else {
        SocketStep::GiveUp
    }
}

/// Decides about the socket after an attempt to connect: attempts that fail are repeated
/// every 50 milliseconds for five seconds.
pub fn connect_to_socket(connected: bool, elapsed_nanos: u64) -> (step: SocketStep)
    ensures
        step == socket_step(connected, elapsed_nanos),
        step == if connected {
            SocketStep::Use
        } else if elapsed_nanos < 5_000_000_000 {
            SocketStep::RetryAfterMillis(50)
        } else {
            SocketStep::GiveUp
        },
{
    if connected {
        SocketStep::Use
    } else if elapsed_nanos < 5_000_000_000 {
        SocketStep::RetryAfterMillis(50)
    } else {
        SocketStep::GiveUp
    }
}

/// An exit code that fits into a byte is reported as it is.
pub proof fn exit_code_is_kept(code: i32)
    requires
        0 <= code <= 255,
    ensures
        reported_code(Some(code)) == code,
{
}

/// Every exit code is reported as the byte nearest to it; a process without one, which a
/// signal ended, counts as failed.
pub proof fn exit_codes_are_brought_into_a_byte(code: i32)
    ensures
        0 <= code <= 255 ==> reported_code(Some(code)) as int == code as int,
        code < 0 ==> reported_code(Some(code)) == 0,
        code > 255 ==> reported_code(Some(code)) == 255,
        reported_code(None) == 1,
{
}

/// A program ended well exactly if its exit code is 0.
pub proof fn success_is_code_zero(output: CommandOutput)
    ensures
        output.succeeded() <==> output.code is Some && output.code->0 == 0,
{
}

/// The complaint of a program is its error output, without the white space around it.
pub proof fn complaints_are_the_error_output(output: CommandOutput)
    ensures
        utf8::valid_utf8(output.stderr@) ==> complaint(output) == text::trimmed(
            utf8::decode_utf8(output.stderr@),
        ),
        !utf8::valid_utf8(output.stderr@) ==> complaint(output) == text::trimmed(
            lossy_reading(output.stderr@),
        ),
{
}

/// `mpv` gets the stream as its last argument, whatever it is; the arguments before it are
/// the same for every stream: audio only, and small caches that are not on disk.
pub proof fn mpv_plays_every_stream_alike(stream_url: Seq<char>)
    ensures
        mpv_arguments(stream_url).last() == stream_url,
        mpv_arguments(stream_url).drop_last() == seq![
            "--no-video"@,
            "--cache=yes"@,
            "--cache-secs=2"@,
            "--cache-on-disk=no"@,
            "--demuxer-max-bytes=8MiB"@,
            "--demuxer-max-back-bytes=1MiB"@,
        ],
{
}

/// `yt-dlp` gets the URL as its last argument, whatever it is; the arguments before it are
/// the same for every URL.
pub proof fn yt_dlp_treats_every_url_alike(url: Seq<char>, other: Seq<char>)
    ensures
        metadata_arguments(url).last() == url,
        metadata_arguments(url).drop_last() == metadata_arguments(other).drop_last(),
        metadata_arguments(url).len() == 5,
        metadata_arguments(url).contains("--no-playlist"@),
        metadata_arguments(url).contains("--no-warnings"@),
        metadata_arguments(url).contains("--skip-download"@),
        metadata_arguments(url).contains("--dump-single-json"@),
        stream_arguments(url).last() == url,
        stream_arguments(url).drop_last() == stream_arguments(other).drop_last(),
        stream_arguments(url).drop_last() == seq![
            "--no-playlist"@,
            "--no-warnings"@,
            "-f"@,
            "bestaudio/best"@,
            "--get-url"@,
        ],
{
    let described = metadata_arguments(url);
    assert(described.drop_last() =~= metadata_arguments(other).drop_last());
    assert(stream_arguments(url).drop_last() =~= stream_arguments(other).drop_last());
    assert(described[0] == "--no-playlist"@ && described[1] == "--no-warnings"@);
    assert(described[2] == "--skip-download"@ && described[3] == "--dump-single-json"@);
}

/// Out of sight `mpv` plays a stream with the same arguments as in sight; behind them it is
/// told to leave the terminal alone, to open no window, and where its socket is.
pub proof fn mpv_plays_alike_out_of_sight(stream_url: Seq<char>, socket_path: Seq<char>)
    ensures
        ({
            let seen = mpv_arguments(stream_url);
            let unseen = ipc_mpv_arguments(stream_url, socket_path);
            &&& unseen.take(seen.len() as int) == seen
            &&& unseen.skip(seen.len() as int) == seq![
                "--input-terminal=no"@,
                "--terminal=no"@,
                "--force-window=no"@,
                "--input-ipc-server="@ + socket_path,
            ]
        }),
{
    let seen = mpv_arguments(stream_url);
    let unseen = ipc_mpv_arguments(stream_url, socket_path);
    assert(unseen.take(seen.len() as int) =~= seen);
    assert(unseen.skip(seen.len() as int) =~= seq![
        "--input-terminal=no"@,
        "--terminal=no"@,
        "--force-window=no"@,
        "--input-ipc-server="@ + socket_path,
    ]);
}

/// A socket that can be reached is used, however long it took; one that cannot is tried
/// again, as long as five seconds have not passed, and then given up.
pub proof fn sockets_are_tried_for_five_seconds(elapsed_nanos: u64)
    ensures
        socket_step(true, elapsed_nanos) == SocketStep::Use,
        elapsed_nanos < 5_000_000_000 ==> socket_step(false, elapsed_nanos)
            == SocketStep::RetryAfterMillis(50),
        elapsed_nanos >= 5_000_000_000 ==> socket_step(false, elapsed_nanos) == SocketStep::GiveUp,
{
}

/// A file is a program exactly if its owner, its group or the others may execute it;
/// whatever else its mode says does not matter.
pub proof fn somebody_may_execute_a_program(mode: u32)
    ensures
        executable(true, Some(mode)) <==> mode & 0o100 != 0 || mode & 0o010 != 0 || mode & 0o001
            != 0,
        !executable(false, Some(mode)),
        !executable(true, None),
        !executable(false, None),
{
    assert((mode & 0o111 != 0) == (mode & 0o100 != 0 || mode & 0o010 != 0 || mode & 0o001 != 0))
        by (bit_vector);
}

} // verus!
