//! The stream behind a URL: what `yt-dlp` tells about a video and its audio.
use crate::error::AppError;
use crate::error::ErrorView;
use crate::json;
use crate::json::Json;
use crate::json::JsonView;
use crate::recommendations;
use crate::recommendations::RecommendationSeed;
use crate::recommendations::SeedView;
use crate::text;
use crate::tools;
use crate::tools::ToolRun;
use crate::url;
use vstd::prelude::*;
use vstd::utf8;

verus! {

/// What is known about a video.
#[derive(Debug)]
pub struct VideoMetadata {
    pub title: String,
    pub video_id: Option<String>,
    pub uploader: Option<String>,
}

/// The content of a [`VideoMetadata`].
pub struct MetadataView {
    pub title: Seq<char>,
    pub video_id: Option<Seq<char>>,
    pub uploader: Option<Seq<char>>,
}

impl View for VideoMetadata {
    type V = MetadataView;

    open spec fn view(&self) -> MetadataView {
        MetadataView {
            title: self.title@,
            video_id: text::text_view(self.video_id),
            uploader: text::text_view(self.uploader),
        }
    }
}

/// Metadata or an error, by its content.
pub open spec fn metadata_view(outcome: Result<VideoMetadata, AppError>) -> Result<
    MetadataView,
    ErrorView,
> {
    match outcome {
        Ok(metadata) => Ok(metadata@),
        Err(error) => Err(error@),
    }
}

/// Metadata that may be absent, by their content.
pub open spec fn maybe_metadata(metadata: Option<VideoMetadata>) -> Option<MetadataView> {
    match metadata {
        Some(metadata) => Some(metadata@),
        None => None,
    }
}

/// Metadata that may be absent or an error, by its content.
pub open spec fn lookup_view(outcome: Result<Option<VideoMetadata>, AppError>) -> Result<
    Option<MetadataView>,
    ErrorView,
> {
    match outcome {
        Ok(metadata) => Ok(maybe_metadata(metadata)),
        Err(error) => Err(error@),
    }
}

/// A stream that can be played. Its title is absent where nothing is known of the video.
#[derive(Debug)]
pub struct ExtractedStream {
    pub title: Option<String>,
    pub stream_url: String,
    pub video_id: Option<String>,
    pub uploader: Option<String>,
}

/// The content of an [`ExtractedStream`].
pub struct StreamView {
    pub title: Option<Seq<char>>,
    pub stream_url: Seq<char>,
    pub video_id: Option<Seq<char>>,
    pub uploader: Option<Seq<char>>,
}

impl View for ExtractedStream {
    type V = StreamView;

    open spec fn view(&self) -> StreamView {
        StreamView {
            title: text::text_view(self.title),
            stream_url: self.stream_url@,
            video_id: text::text_view(self.video_id),
            uploader: text::text_view(self.uploader),
        }
    }
}

/// A stream or an error, by its content.
pub open spec fn stream_view(outcome: Result<ExtractedStream, AppError>) -> Result<
    StreamView,
    ErrorView,
> {
    match outcome {
        Ok(stream) => Ok(stream@),
        Err(error) => Err(error@),
    }
}

/// What a description of a video says.
pub open spec fn described(description: JsonView) -> Result<MetadataView, ErrorView> {
    match description.text_field("title"@) {
        Some(title) => Ok(
            MetadataView {
                title: recommendations::unbranded(title),
                video_id: description.text_field("id"@),
                uploader: recommendations::publisher(description),
            },
        ),
        None => Err(ErrorView::MetadataWithoutTitle),
    }
}

/// What the description of a video says, given as text.
pub open spec fn described_by_output(output: Seq<char>) -> Result<MetadataView, ErrorView> {
    match json::json_reading(output) {
        Ok(description) => described(description),
        Err(cause) => Err(ErrorView::MetadataNotJson { cause }),
    }
}

/// What a run of `yt-dlp` says about a video. A description that is no JSON says nothing:
/// the video can be played without one.
pub open spec fn described_by_run(run: ToolRun) -> Result<Option<MetadataView>, ErrorView> {
    match run {
        ToolRun::NotStarted { program, cause } => Err(
            ErrorView::NotStarted { program: program@, cause: cause@ },
        ),
        ToolRun::Finished(output) => if !output.succeeded() {
            Err(ErrorView::MetadataLookup { code: output.code, stderr: tools::complaint(output) })
        } else if !utf8::valid_utf8(output.stdout@) {
            Err(ErrorView::MetadataNotText { cause: tools::utf8_refusal(output.stdout@) })
        } else {
            match described_by_output(utf8::decode_utf8(output.stdout@)) {
                Ok(metadata) => Ok(Some(metadata)),
                Err(ErrorView::MetadataNotJson { .. }) => Ok(None),
                Err(error) => Err(error),
            }
        },
    }
}

/// Where the first line of a text ends.
pub open spec fn line_end(s: Seq<char>) -> int
    decreases s.len(),
{
    if s.len() == 0 || s[0] == '\n' {
        0
    } else {
        1 + line_end(s.drop_first())
    }
}

/// A line ends within its text.
pub proof fn lemma_line_end(s: Seq<char>)
    ensures
        0 <= line_end(s) <= s.len(),
        line_end(s) < s.len() ==> s[line_end(s)] == '\n',
        forall|i: int| 0 <= i < line_end(s) ==> #[trigger] s[i] != '\n',
    decreases s.len(),
{
    if s.len() > 0 && s[0] != '\n' {
        let rest = s.drop_first();
        lemma_line_end(rest);
        assert forall|i: int| 0 <= i < line_end(s) implies #[trigger] s[i] != '\n' by {
            if i > 0 {
                assert(rest[i - 1] == s[i]);
            }
        }
    }
}

/// The first line of a text that is not blank, without the white space around it.
pub open spec fn first_line(s: Seq<char>) -> Option<Seq<char>>
    decreases s.len(),
{
    let end = line_end(s);
    let line = text::trimmed(s.take(end));
    if line.len() > 0 {
        Some(line)
    } else if end < s.len() {
        proof {
            lemma_line_end(s);
        }
        first_line(s.skip(end + 1))
    } else {
        None
    }
}

/// The stream URL that the output of `yt-dlp` names.
pub open spec fn stream_named(output: Seq<char>) -> Result<Seq<char>, ErrorView> {
    match first_line(output) {
        Some(line) => Ok(line),
        None => Err(ErrorView::NoStreamUrl),
    }
}

/// The stream that a run of `yt-dlp` names for a video.
pub open spec fn stream_by_run(metadata: Option<MetadataView>, run: ToolRun) -> Result<
    StreamView,
    ErrorView,
> {
    match run {
        ToolRun::NotStarted { program, cause } => Err(
            ErrorView::NotStarted { program: program@, cause: cause@ },
        ),
        ToolRun::Finished(output) => if !output.succeeded() {
            Err(ErrorView::StreamLookup { code: output.code, stderr: tools::complaint(output) })
        } else if !utf8::valid_utf8(output.stdout@) {
            Err(ErrorView::StreamNotText { cause: tools::utf8_refusal(output.stdout@) })
        } else {
            match stream_named(utf8::decode_utf8(output.stdout@)) {
                Ok(stream_url) => Ok(stream_of(metadata, stream_url)),
                Err(error) => Err(error),
            }
        },
    }
}

/// The stream of a video.
pub open spec fn stream_of(metadata: Option<MetadataView>, stream_url: Seq<char>) -> StreamView {
    match metadata {
        Some(metadata) => StreamView {
            title: Some(metadata.title),
            stream_url,
            video_id: metadata.video_id,
            uploader: metadata.uploader,
        },
        None => StreamView { title: None, stream_url, video_id: None, uploader: None },
    }
}

/// Reads what a description of a video says.
pub fn metadata_of(description: &Json) -> (r: Result<VideoMetadata, AppError>)
    ensures
        metadata_view(r) == described(description@),
{
    match description.text_field("title") {
        Some(title) => Ok(
            VideoMetadata {
                title: recommendations::sanitize_title(title.as_str()),
                video_id: description.text_field("id"),
                uploader: recommendations::publisher_of(description),
            },
        ),
        None => Err(AppError::MetadataWithoutTitle),
    }
}

/// Reads the description of a video.
pub fn parse_video_metadata(output: &str) -> (r: Result<VideoMetadata, AppError>)
    ensures
        metadata_view(r) == described_by_output(output@),
{
    match json::parse_json(output) {
        Ok(description) => metadata_of(&description),
        Err(cause) => Err(AppError::MetadataNotJson { cause }),
    }
}

/// Reads what a run of `yt-dlp` says about a video.
pub fn extract_video_metadata(run: ToolRun) -> (r: Result<Option<VideoMetadata>, AppError>)
    ensures
        lookup_view(r) == described_by_run(run),
{
    match run {
        ToolRun::NotStarted { program, cause } => Err(AppError::NotStarted { program, cause }),
        ToolRun::Finished(output) => {
            if !output.success() {
                return Err(
                    AppError::MetadataLookup {
                        code: output.code,
                        stderr: tools::complaint_of(&output),
                    },
                );
            }
            match tools::decode(output.stdout) {
                Ok(stdout) => match parse_video_metadata(stdout.as_str()) {
                    Ok(metadata) => Ok(Some(metadata)),
                    Err(AppError::MetadataNotJson { .. }) => Ok(None),
                    Err(error) => Err(error),
                },
                Err(cause) => Err(AppError::MetadataNotText { cause }),
            }
        },
    }
}

/// Finds the stream URL in the output of `yt-dlp`.
pub fn parse_stream_output(output: &str) -> (r: Result<String, AppError>)
    ensures
        url::outcome_view(r) == stream_named(output@),
{
    let chars = text::chars_of(output);
    let mut from: usize = 0;
    assert(output@.skip(0) =~= output@);
    loop
        invariant
            chars@ == output@,
            from <= chars@.len(),
            first_line(output@) == first_line(output@.skip(from as int)),
        decreases chars@.len() + 1 - from,
    {
        let ghost rest = output@.skip(from as int);
        let mut to: usize = from;
        assert(rest.skip(0) =~= rest);
        while to < chars.len() && chars[to] != '\n'
            invariant
                chars@ == output@,
                from <= to <= chars@.len(),
                rest == output@.skip(from as int),
                line_end(rest) == to - from + line_end(rest.skip(to - from)),
            decreases chars@.len() - to,
        {
            assert(rest.skip(to - from).drop_first() =~= rest.skip(to + 1 - from));
            to = to + 1;
        }
        assert(line_end(rest) == to - from);
        assert(rest.take(to - from) =~= chars@.subrange(from as int, to as int));
        let line = text::trim(text::text_of(&chars, from, to).as_str());
        if !line.as_str().is_empty() {
            return Ok(line);
        }
        if to == chars.len() {
            return Err(AppError::NoStreamUrl);
        }
        assert(rest.skip(to - from + 1) =~= output@.skip(to + 1));
        from = to + 1;
    }
}

/// Reads the stream that a run of `yt-dlp` names for a video.
pub fn extract_stream(metadata: Option<VideoMetadata>, run: ToolRun) -> (r: Result<
    ExtractedStream,
    AppError,
>)
    ensures
        stream_view(r) == stream_by_run(maybe_metadata(metadata), run),
{
    match run {
        ToolRun::NotStarted { program, cause } => Err(AppError::NotStarted { program, cause }),
        ToolRun::Finished(output) => {
            if !output.success() {
                return Err(
                    AppError::StreamLookup {
                        code: output.code,
                        stderr: tools::complaint_of(&output),
                    },
                );
            }
            match tools::decode(output.stdout) {
                Ok(stdout) => match parse_stream_output(stdout.as_str()) {
                    Ok(stream_url) => match metadata {
                        Some(metadata) => Ok(
                            ExtractedStream {
                                title: Some(metadata.title),
                                stream_url,
                                video_id: metadata.video_id,
                                uploader: metadata.uploader,
                            },
                        ),
                        None => Ok(
                            ExtractedStream {
                                title: None,
                                stream_url,
                                video_id: None,
                                uploader: None,
                            },
                        ),
                    },
                    Err(error) => Err(error),
                },
                Err(cause) => Err(AppError::StreamNotText { cause }),
            }
        },
    }
}

/// An optional text that is equal to another one.
fn duplicate(maybe: &Option<String>) -> (r: Option<String>)
    ensures
        r == *maybe,
{
    match maybe {
        Some(it) => Some(it.clone()),
        None => None,
    }
}

impl StreamView {
    /// What recommendations for a stream start from; a stream without a title has none.
    pub open spec fn seed(self) -> Option<SeedView> {
        match self.title {
            Some(title) => if text::is_blank(title) {
                None
            } else {
                Some(
                    SeedView {
                        title,
                        uploader: self.uploader,
                        current_video_id: self.video_id,
                    },
                )
            },
            None => None,
        }
    }
}

impl ExtractedStream {
    /// What recommendations for this stream start from.
    pub fn recommendation_seed(&self) -> (r: Option<RecommendationSeed>)
        ensures
            match r {
                Some(seed) => self@.seed() == Some(seed@),
                None => self@.seed() is None,
            },
    {
        match &self.title {
            Some(title) => if text::trim(title.as_str()).as_str().is_empty() {
                None
            } else {
                Some(
                    RecommendationSeed {
                        title: title.clone(),
                        uploader: duplicate(&self.uploader),
                        current_video_id: duplicate(&self.video_id),
                    },
                )
            },
            None => None,
        }
    }
}

/// A line that was found is not empty, has no white space around it and is one line.
pub proof fn first_line_is_a_trimmed_line(s: Seq<char>)
    requires
        first_line(s) is Some,
    ensures
        first_line(s)->0.len() > 0,
        text::trimmed(first_line(s)->0) == first_line(s)->0,
        !first_line(s)->0.contains('\n'),
    decreases s.len(),
{
    lemma_line_end(s);
    let line = s.take(line_end(s));
    if text::trimmed(line).len() > 0 {
        text::trim_is_idempotent(line);
        text::lemma_trimmed_start(line);
        text::lemma_trimmed_end(text::trimmed_start(line));
        let front = text::trimmed_start(line);
        let found = text::trimmed(line);
        assert forall|i: int| 0 <= i < found.len() implies found[i] != '\n' by {
            assert(found[i] == front[i]);
            assert(front[i] == line[line.len() - front.len() + i]);
        }
    } else {
        first_line_is_a_trimmed_line(s.skip(line_end(s) + 1));
    }
}

/// A stream URL is found exactly if the output is not blank.
pub proof fn stream_is_missing_only_in_blank_output(output: Seq<char>)
    ensures
        stream_named(output) is Err <==> text::is_blank(output),
        stream_named(output) is Err ==> stream_named(output)->Err_0 == ErrorView::NoStreamUrl,
    decreases output.len(),
{
    let end = line_end(output);
    let line = output.take(end);
    let rest = output.skip(end + 1);
    lemma_line_end(output);
    text::blank_means_white_space_only(output);
    text::blank_means_white_space_only(line);
    text::blank_means_white_space_only(rest);
    if end < output.len() {
        stream_is_missing_only_in_blank_output(rest);
        assert(text::is_white_space(output[end]));
        if text::is_blank(line) && text::is_blank(rest) {
            assert forall|i: int| 0 <= i < output.len() implies text::is_white_space(
                #[trigger] output[i],
            ) by {
                if i < end {
                    assert(line[i] == output[i]);
                } else if i > end {
                    assert(rest[i - end - 1] == output[i]);
                }
            }
        }
        if text::is_blank(output) {
            assert forall|i: int| 0 <= i < rest.len() implies text::is_white_space(
                #[trigger] rest[i],
            ) by {
                assert(rest[i] == output[i + end + 1]);
            }
        }
    } else {
        assert(line =~= output);
    }
    if text::is_blank(output) {
        assert forall|i: int| 0 <= i < line.len() implies text::is_white_space(
            #[trigger] line[i],
        ) by {
            assert(line[i] == output[i]);
        }
    }
}

/// A failure of `yt-dlp` is reported with its exit status and in its own words: the error
/// ends with what it wrote on its error output.
pub proof fn failures_are_reported_in_their_own_words(
    output: tools::CommandOutput,
    metadata: Option<MetadataView>,
)
    requires
        !output.succeeded(),
        utf8::valid_utf8(output.stderr@),
    ensures
        ({
            let words = crate::error::exit_status_text(output.code) + ": "@ + text::trimmed(
                utf8::decode_utf8(output.stderr@),
            );
            let lookup = described_by_run(ToolRun::Finished(output));
            let search = stream_by_run(metadata, ToolRun::Finished(output));
            &&& lookup is Err
            &&& lookup->Err_0.report() == "`yt-dlp` metadata lookup failed with status "@ + words
            &&& search is Err
            &&& search->Err_0.report() == "`yt-dlp` failed with status "@ + words
        }),
{
    let words = crate::error::exit_status_text(output.code) + ": "@ + tools::complaint(output);
    let lookup = described_by_run(ToolRun::Finished(output))->Err_0;
    let search = stream_by_run(metadata, ToolRun::Finished(output))->Err_0;
    assert(lookup.message() =~= "`yt-dlp` metadata lookup failed with status "@ + words);
    assert(search.message() =~= "`yt-dlp` failed with status "@ + words);
}

/// The stream is that of the video whose metadata were read: it keeps their title, id
/// and uploader, and its URL is not empty.
pub proof fn stream_keeps_its_metadata(metadata: MetadataView, run: ToolRun)
    requires
        stream_by_run(Some(metadata), run) is Ok,
    ensures
        ({
            let stream = stream_by_run(Some(metadata), run)->Ok_0;
            &&& stream.title == Some(metadata.title)
            &&& stream.video_id == metadata.video_id
            &&& stream.uploader == metadata.uploader
            &&& stream.stream_url.len() > 0
        }),
{
    let output = run->Finished_0;
    first_line_is_a_trimmed_line(utf8::decode_utf8(output.stdout@));
}

/// A description gives its title, without the mark of the brand, its id and its publisher,
/// as they stand in it; it needs a title that is a text, and nothing else.
pub proof fn descriptions_are_read_as_they_stand(description: JsonView)
    ensures
        match description.field("title"@) {
            Some(JsonView::Text(title)) => {
                &&& described(description) is Ok
                &&& described(description)->Ok_0.title == recommendations::unbranded(title)
                &&& described(description)->Ok_0.uploader == recommendations::publisher(description)
                &&& match description.field("id"@) {
                    Some(JsonView::Text(id)) => described(description)->Ok_0.video_id == Some(id),
                    _ => described(description)->Ok_0.video_id is None,
                }
            },
            _ => described(description) == Err::<MetadataView, ErrorView>(
                ErrorView::MetadataWithoutTitle,
            ),
        },
{
}

/// What a run for a description comes to: a program that did not start, that failed, or
/// whose output is no UTF-8 is an error, each with its cause; output that is no JSON is no
/// description; else it is what the description says.
pub proof fn runs_for_a_description_are_read(
    program: String,
    cause: String,
    output: tools::CommandOutput,
)
    ensures
        described_by_run(ToolRun::NotStarted { program, cause }) == Err::<
            Option<MetadataView>,
            ErrorView,
        >(ErrorView::NotStarted { program: program@, cause: cause@ }),
        output.code != Some(0i32) ==> described_by_run(ToolRun::Finished(output)) == Err::<
            Option<MetadataView>,
            ErrorView,
        >(ErrorView::MetadataLookup { code: output.code, stderr: tools::complaint(output) }),
        output.code == Some(0i32) && !utf8::valid_utf8(output.stdout@) ==> described_by_run(
            ToolRun::Finished(output),
        ) == Err::<Option<MetadataView>, ErrorView>(
            ErrorView::MetadataNotText { cause: tools::utf8_refusal(output.stdout@) },
        ),
        output.code == Some(0i32) && utf8::valid_utf8(output.stdout@) ==> match json::json_reading(
            utf8::decode_utf8(output.stdout@),
        ) {
            Ok(description) => match described(description) {
                Ok(metadata) => described_by_run(ToolRun::Finished(output)) == Ok::<
                    Option<MetadataView>,
                    ErrorView,
                >(Some(metadata)),
                Err(error) => described_by_run(ToolRun::Finished(output)) == Err::<
                    Option<MetadataView>,
                    ErrorView,
                >(error),
            },
            Err(_) => described_by_run(ToolRun::Finished(output)) == Ok::<
                Option<MetadataView>,
                ErrorView,
            >(None),
        },
{
}

/// The text of a description that is no JSON is refused with the words of the reader.
pub proof fn descriptions_are_json(output: Seq<char>)
    ensures
        match json::json_reading(output) {
            Ok(description) => described_by_output(output) == described(description),
            Err(cause) => described_by_output(output) == Err::<MetadataView, ErrorView>(
                ErrorView::MetadataNotJson { cause },
            ),
        },
{
}

/// What a run for a stream comes to: a program that did not start, that failed, or whose
/// output is no UTF-8 or is blank is an error, each with its cause; else it is the stream
/// whose URL is the first line that is not blank, with what is known of the video.
pub proof fn runs_for_a_stream_are_read(
    metadata: Option<MetadataView>,
    program: String,
    cause: String,
    output: tools::CommandOutput,
)
    ensures
        stream_by_run(metadata, ToolRun::NotStarted { program, cause }) == Err::<
            StreamView,
            ErrorView,
        >(ErrorView::NotStarted { program: program@, cause: cause@ }),
        output.code != Some(0i32) ==> stream_by_run(metadata, ToolRun::Finished(output)) == Err::<
            StreamView,
            ErrorView,
        >(ErrorView::StreamLookup { code: output.code, stderr: tools::complaint(output) }),
        output.code == Some(0i32) && !utf8::valid_utf8(output.stdout@) ==> stream_by_run(
            metadata,
            ToolRun::Finished(output),
        ) == Err::<StreamView, ErrorView>(
            ErrorView::StreamNotText { cause: tools::utf8_refusal(output.stdout@) },
        ),
        output.code == Some(0i32) && utf8::valid_utf8(output.stdout@) ==> match first_line(
            utf8::decode_utf8(output.stdout@),
        ) {
            Some(line) => {
                let found = stream_by_run(metadata, ToolRun::Finished(output));
                &&& found is Ok
                &&& found->Ok_0.stream_url == line
                &&& match metadata {
                    Some(metadata) => found->Ok_0.title == Some(metadata.title)
                        && found->Ok_0.video_id == metadata.video_id && found->Ok_0.uploader
                        == metadata.uploader,
                    None => found->Ok_0.title is None && found->Ok_0.video_id is None
                        && found->Ok_0.uploader is None,
                }
            },
            None => stream_by_run(metadata, ToolRun::Finished(output)) == Err::<
                StreamView,
                ErrorView,
            >(ErrorView::NoStreamUrl),
        },
{
}

/// The line that is found is a whole line of the text, without the white space around it,
/// and before it there is nothing but white space.
pub proof fn first_line_is_the_first_that_is_not_blank(s: Seq<char>)
    requires
        first_line(s) is Some,
    ensures
        exists|from: int, to: int|
            {
                &&& 0 <= from <= to <= s.len()
                &&& first_line(s) == Some(text::trimmed(#[trigger] s.subrange(from, to)))
                &&& from == 0 || s[from - 1] == '\n'
                &&& to == s.len() || s[to] == '\n'
                &&& forall|i: int| from <= i < to ==> #[trigger] s[i] != '\n'
                &&& forall|i: int| 0 <= i < from ==> text::is_white_space(#[trigger] s[i])
            },
    decreases s.len(),
{
    lemma_line_end(s);
    let end = line_end(s);
    let line = s.take(end);
    if text::trimmed(line).len() > 0 {
        assert(s.subrange(0, end) =~= line);
    } else {
        let rest = s.skip(end + 1);
        first_line_is_the_first_that_is_not_blank(rest);
        let (from, to) = choose|from: int, to: int|
            {
                &&& 0 <= from <= to <= rest.len()
                &&& first_line(rest) == Some(text::trimmed(#[trigger] rest.subrange(from, to)))
                &&& from == 0 || rest[from - 1] == '\n'
                &&& to == rest.len() || rest[to] == '\n'
                &&& forall|i: int| from <= i < to ==> #[trigger] rest[i] != '\n'
                &&& forall|i: int| 0 <= i < from ==> text::is_white_space(#[trigger] rest[i])
            };
        let start = from + end + 1;
        let stop = to + end + 1;
        assert(s.subrange(start, stop) =~= rest.subrange(from, to));
        text::blank_means_white_space_only(line);
        assert forall|i: int| start <= i < stop implies #[trigger] s[i] != '\n' by {
            assert(rest[i - end - 1] == s[i]);
        }
        assert forall|i: int| 0 <= i < start implies text::is_white_space(#[trigger] s[i]) by {
            if i < end {
                assert(line[i] == s[i]);
            } else if i > end {
                assert(rest[i - end - 1] == s[i]);
            }
        }
        if from > 0 {
            assert(rest[from - 1] == s[start - 1]);
        }
        if to < rest.len() {
            assert(rest[to] == s[stop]);
        }
    }
}

/// Recommendations start from a video exactly if its title is known and not blank; they
/// start from all that is known of it.
pub proof fn seeds_hold_what_is_known(stream: StreamView)
    ensures
        match stream.title {
            Some(title) => if text::trimmed(title).len() > 0 {
                &&& stream.seed() is Some
                &&& stream.seed()->0.title == title
                &&& stream.seed()->0.uploader == stream.uploader
                &&& stream.seed()->0.current_video_id == stream.video_id
            } else {
                stream.seed() is None
            },
            None => stream.seed() is None,
        },
{
}

} // verus!
