//! The URL to play: where it comes from and what form it is brought into.
use crate::error::AppError;
use crate::error::ErrorView;
use crate::text;
use vstd::prelude::*;
use vstd::string::*;

verus! {

/// A text or an error, by its content.
pub open spec fn outcome_view(outcome: Result<String, AppError>) -> Result<Seq<char>, ErrorView> {
    match outcome {
        Ok(text) => Ok(text@),
        Err(error) => Err(error@),
    }
}

/// The characters that video ids are made of.
pub open spec fn is_id_char(c: char) -> bool {
    ||| '0' <= c <= '9'
    ||| 'a' <= c <= 'z'
    ||| 'A' <= c <= 'Z'
    ||| c == '-'
    ||| c == '_'
}

/// Whether a text has the form of a video id.
pub open spec fn is_youtube_id(s: Seq<char>) -> bool {
    &&& s.len() == 11
    &&& forall|i: int| 0 <= i < s.len() ==> is_id_char(#[trigger] s[i])
}

/// Whether a text is a YouTube URL that lacks its scheme.
pub open spec fn lacks_scheme(s: Seq<char>) -> bool {
    ||| "youtu.be/"@.is_prefix_of(s)
    ||| "youtube.com/"@.is_prefix_of(s)
    ||| "www.youtube.com/"@.is_prefix_of(s)
}

/// The URL that an input stands for.
pub open spec fn normalized(input: Seq<char>) -> Result<Seq<char>, ErrorView> {
    let url = text::trimmed(input);
    if url.len() == 0 {
        Err(ErrorView::EmptyUrl)
    } else if is_youtube_id(url) {
        Ok("https://www.youtube.com/watch?v="@ + url)
    } else if lacks_scheme(url) {
        Ok("https://"@ + url)
    } else {
        Ok(url)
    }
}

/// Whether an input has the form of a video id.
pub fn looks_like_youtube_id(input: &str) -> (r: bool)
    ensures
        r == is_youtube_id(input@),
{
    let chars = text::chars_of(input);
    if chars.len() != 11 {
        return false;
    }
    let mut i: usize = 0;
    while i < 11
        invariant
            chars@ == input@,
            chars@.len() == 11,
            forall|j: int| 0 <= j < i ==> is_id_char(#[trigger] chars@[j]),
        decreases 11 - i,
    {
        let c = chars[i];
        let known = ('0' <= c && c <= '9') || ('a' <= c && c <= 'z') || ('A' <= c && c <= 'Z') || c
            == '-' || c == '_';
        if !known {
            assert(!is_id_char(input@[i as int]));
            return false;
        }
        i = i + 1;
    }
    true
}

/// Whether an input is a YouTube URL that lacks its scheme.
pub fn looks_like_youtube_url_without_scheme(input: &str) -> (r: bool)
    ensures
        r == lacks_scheme(input@),
{
    text::starts_with(input, "youtu.be/") || text::starts_with(input, "youtube.com/")
        || text::starts_with(input, "www.youtube.com/")
}

/// Brings an input into the form of a URL.
pub fn normalize_url(url: String) -> (r: Result<String, AppError>)
    ensures
        outcome_view(r) == normalized(url@),
{
    let url = text::trim(url.as_str());
    if url.as_str().is_empty() {
        return Err(AppError::EmptyUrl);
    }
    if looks_like_youtube_id(url.as_str()) {
        return Ok("https://www.youtube.com/watch?v=".to_owned().concat(url.as_str()));
    }
    if looks_like_youtube_url_without_scheme(url.as_str()) {
        return Ok("https://".to_owned().concat(url.as_str()));
    }
    Ok(url)
}

/// What has to happen next to get at the URL.
#[derive(Debug, PartialEq)]
pub enum UrlStep {
    /// Show the prompt, if there is one, and read a line.
    ReadLine { prompt: Option<String> },
    /// Nothing: this is the URL, or the reason why there is none.
    Done(Result<String, AppError>),
}

/// The content of a [`UrlStep`].
pub enum UrlStepView {
    ReadLine { prompt: Option<Seq<char>> },
    Done(Result<Seq<char>, ErrorView>),
}

impl View for UrlStep {
    type V = UrlStepView;

    open spec fn view(&self) -> UrlStepView {
        match self {
            UrlStep::ReadLine { prompt } => UrlStepView::ReadLine {
                prompt: text::text_view(*prompt),
            },
            UrlStep::Done(outcome) => UrlStepView::Done(outcome_view(*outcome)),
        }
    }
}

/// How the URL is found: an argument comes first; without one a line is read, after a
/// prompt where somebody is there to read it.
pub open spec fn resolved_url(
    cli_url: Option<Seq<char>>,
    interactive: bool,
    line: Option<Seq<char>>,
) -> UrlStepView {
    match (cli_url, line) {
        (Some(url), _) => UrlStepView::Done(normalized(url)),
        (None, None) => UrlStepView::ReadLine {
            prompt: if interactive {
                Some("Paste YouTube URL: "@)
            } else {
                None
            },
        },
        (None, Some(line)) => if !interactive && text::is_blank(line) {
            UrlStepView::Done(Err(ErrorView::NoUrl))
        } else {
            UrlStepView::Done(normalized(line))
        },
    }
}

/// Finds the URL to play. `line` is the line that was read, once it was asked for.
pub fn resolve_url(cli_url: Option<String>, interactive: bool, line: Option<String>) -> (step:
    UrlStep)
    ensures
        step@ == resolved_url(
            text::text_view(cli_url),
            interactive,
            text::text_view(line),
        ),
{
    if let Some(url) = cli_url {
        return UrlStep::Done(normalize_url(url));
    }
    match line {
        None => if interactive {
            UrlStep::ReadLine { prompt: Some("Paste YouTube URL: ".to_owned()) }
        } else {
            UrlStep::ReadLine { prompt: None }
        },
        Some(line) => if !interactive && text::trim(line.as_str()).as_str().is_empty() {
            UrlStep::Done(Err(AppError::NoUrl))
        } else {
            UrlStep::Done(normalize_url(line))
        },
    }
}

/// A URL, once normalized, is neither empty nor surrounded by white space.
pub proof fn normalized_url_is_trimmed(input: Seq<char>)
    requires
        normalized(input) is Ok,
    ensures
        normalized(input)->Ok_0.len() > 0,
        text::trimmed(normalized(input)->Ok_0) == normalized(input)->Ok_0,
{
    reveal_strlit("https://www.youtube.com/watch?v=");
    reveal_strlit("https://");
    text::lemma_trimmed(input);
    let url = normalized(input)->Ok_0;
    assert(url.last() == text::trimmed(input).last());
    text::lemma_trimmed_fixed(url);
}

/// Normalizing a URL that is normalized changes nothing.
pub proof fn normalizing_is_idempotent(input: Seq<char>)
    requires
        normalized(input) is Ok,
    ensures
        normalized(normalized(input)->Ok_0) == normalized(input),
{
    normalized_url_is_trimmed(input);
    reveal_strlit("https://www.youtube.com/watch?v=");
    reveal_strlit("https://");
    reveal_strlit("youtu.be/");
    reveal_strlit("youtube.com/");
    reveal_strlit("www.youtube.com/");
    let url = normalized(input)->Ok_0;
    if url != text::trimmed(input) {
        assert(url[0] == 'h');
        assert(url[4] == 's');
        assert(url[5] == ':');
        assert(!is_id_char(url[5]));
        assert forall|prefix: Seq<char>| #[trigger]
            prefix.is_prefix_of(url) && prefix.len() > 0 implies prefix[0] == 'h' by {
            assert(prefix[0] == url.subrange(0, prefix.len() as int)[0]);
        }
    }
}

/// An input gives no URL exactly if it is blank.
pub proof fn only_blank_input_is_rejected(input: Seq<char>)
    ensures
        normalized(input) is Err <==> text::is_blank(input),
        normalized(input) is Err ==> normalized(input)->Err_0 == ErrorView::EmptyUrl,
{
}

/// An argument is taken without a prompt and without reading a line.
pub proof fn argument_needs_no_prompt(
    url: Seq<char>,
    interactive: bool,
    line: Option<Seq<char>>,
)
    ensures
        resolved_url(Some(url), interactive, line) == UrlStepView::Done(normalized(url)),
{
}

/// One line is always enough: no second one is asked for.
pub proof fn one_line_settles_the_url(
    cli_url: Option<Seq<char>>,
    interactive: bool,
    line: Seq<char>,
)
    ensures
        resolved_url(cli_url, interactive, Some(line)) is Done,
{
}

/// An input of eleven letters, digits, hyphens or underscores is taken as the id of a video,
/// and its URL is the one at which that video is watched.
pub proof fn ids_become_watch_urls(input: Seq<char>)
    requires
        text::trimmed(input).len() == 11,
        forall|i: int|
            0 <= i < 11 ==> {
                let c = #[trigger] text::trimmed(input)[i];
                '0' <= c <= '9' || 'a' <= c <= 'z' || 'A' <= c <= 'Z' || c == '-' || c == '_'
            },
    ensures
        normalized(input) == Ok::<Seq<char>, ErrorView>(
            "https://www.youtube.com/watch?v="@ + text::trimmed(input),
        ),
{
}

/// An input that starts with a host of YouTube gets the scheme before it, and is not changed
/// otherwise.
pub proof fn hosts_get_a_scheme(input: Seq<char>)
    requires
        "youtu.be/"@.is_prefix_of(text::trimmed(input)) || "youtube.com/"@.is_prefix_of(
            text::trimmed(input),
        ) || "www.youtube.com/"@.is_prefix_of(text::trimmed(input)),
    ensures
        normalized(input) == Ok::<Seq<char>, ErrorView>("https://"@ + text::trimmed(input)),
{
    reveal_strlit("youtu.be/");
    reveal_strlit("youtube.com/");
    reveal_strlit("www.youtube.com/");
    let url = text::trimmed(input);
    if "youtu.be/"@.is_prefix_of(url) {
        assert(url[8] == url.subrange(0, 9)[8]);
        assert(!is_id_char(url[8]));
    } else if "youtube.com/"@.is_prefix_of(url) {
        assert(url.len() >= 12);
    } else {
        assert(url.len() >= 16);
    }
}

/// Every other input is taken as it is, but for the white space around it.
pub proof fn other_urls_are_taken_as_they_are(input: Seq<char>, at: int)
    requires
        text::trimmed(input).len() > 0,
        text::trimmed(input).len() != 11 || (0 <= at < 11 && {
            let c = text::trimmed(input)[at];
            !('0' <= c <= '9' || 'a' <= c <= 'z' || 'A' <= c <= 'Z' || c == '-' || c == '_')
        }),
        !"youtu.be/"@.is_prefix_of(text::trimmed(input)),
        !"youtube.com/"@.is_prefix_of(text::trimmed(input)),
        !"www.youtube.com/"@.is_prefix_of(text::trimmed(input)),
    ensures
        normalized(input) == Ok::<Seq<char>, ErrorView>(text::trimmed(input)),
{
}

/// Without an argument a line is asked for, with a prompt exactly if somebody is there to
/// read it.
pub proof fn a_line_is_asked_for_without_an_argument()
    ensures
        resolved_url(None, true, None) == (UrlStepView::ReadLine {
            prompt: Some("Paste YouTube URL: "@),
        }),
        resolved_url(None, false, None) == (UrlStepView::ReadLine { prompt: None }),
{
}

/// A line that was read is normalized as an argument would be; only where nobody is there,
/// a blank one counts as none.
pub proof fn a_line_counts_as_an_argument_would(line: Seq<char>, interactive: bool)
    ensures
        interactive || text::trimmed(line).len() > 0 ==> resolved_url(None, interactive, Some(line))
            == resolved_url(Some(line), interactive, None),
        !interactive && text::trimmed(line).len() == 0 ==> resolved_url(
            None,
            interactive,
            Some(line),
        ) == UrlStepView::Done(Err(ErrorView::NoUrl)),
        interactive && text::trimmed(line).len() == 0 ==> resolved_url(
            None,
            interactive,
            Some(line),
        ) == UrlStepView::Done(Err(ErrorView::EmptyUrl)),
{
}

} // verus!
