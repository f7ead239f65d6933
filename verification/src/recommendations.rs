//! What to play next: the search for candidates and what is made of its results.
use crate::error::AppError;
use crate::error::ErrorView;
use crate::json;
use crate::json::Json;
use crate::json::JsonView;
use crate::text;
use crate::tools;
use crate::tools::ToolRun;
use vstd::prelude::*;
use vstd::string::*;
use vstd::utf8;

verus! {

/// What the search starts from: the video that is playing.
#[derive(Debug)]
pub struct RecommendationSeed {
    pub title: String,
    pub uploader: Option<String>,
    pub current_video_id: Option<String>,
}

/// The content of a [`RecommendationSeed`].
pub struct SeedView {
    pub title: Seq<char>,
    pub uploader: Option<Seq<char>>,
    pub current_video_id: Option<Seq<char>>,
}

impl View for RecommendationSeed {
    type V = SeedView;

    open spec fn view(&self) -> SeedView {
        SeedView {
            title: self.title@,
            uploader: text::text_view(self.uploader),
            current_video_id: text::text_view(self.current_video_id),
        }
    }
}

/// A video that may be played next.
#[derive(Debug, PartialEq)]
pub struct UpNextCandidate {
    pub video_id: String,
    pub title: String,
    pub uploader: Option<String>,
}

/// The content of an [`UpNextCandidate`].
pub struct CandidateView {
    pub video_id: Seq<char>,
    pub title: Seq<char>,
    pub uploader: Option<Seq<char>>,
}

impl View for UpNextCandidate {
    type V = CandidateView;

    open spec fn view(&self) -> CandidateView {
        CandidateView {
            video_id: self.video_id@,
            title: self.title@,
            uploader: text::text_view(self.uploader),
        }
    }
}

/// The contents of a list of candidates.
pub open spec fn candidates_view(candidates: Seq<UpNextCandidate>) -> Seq<CandidateView> {
    Seq::new(candidates.len(), |i: int| candidates[i]@)
}

/// A list of candidates or an error, by its content.
pub open spec fn search_view(outcome: Result<Vec<UpNextCandidate>, AppError>) -> Result<
    Seq<CandidateView>,
    ErrorView,
> {
    match outcome {
        Ok(candidates) => Ok(candidates_view(candidates@)),
        Err(error) => Err(error@),
    }
}

impl CandidateView {
    /// How a candidate is shown: by its title and, where it has one, its uploader.
    pub open spec fn label(self) -> Seq<char> {
        match self.uploader {
            Some(uploader) => if text::is_blank(uploader) {
                self.title
            } else {
                self.title + " | "@ + uploader
            },
            None => self.title,
        }
    }
}

impl Clone for UpNextCandidate {
    fn clone(&self) -> (r: UpNextCandidate)
        ensures
            r == *self,
    {
        UpNextCandidate {
            video_id: self.video_id.clone(),
            title: self.title.clone(),
            uploader: match &self.uploader {
                Some(uploader) => Some(uploader.clone()),
                None => None,
            },
        }
    }
}

impl UpNextCandidate {
    /// What the player is asked to play for this candidate: its video id.
    pub fn playback_input(&self) -> (r: String)
        ensures
            r == self.video_id,
    {
        self.video_id.clone()
    }

    /// How this candidate is shown.
    pub fn display_label(&self) -> (r: String)
        ensures
            r@ == self@.label(),
    {
        match &self.uploader {
            Some(uploader) => if text::trim(uploader.as_str()).as_str().is_empty() {
                self.title.clone()
            } else {
                self.title.clone().concat(" | ").concat(uploader.as_str())
            },
            None => self.title.clone(),
        }
    }
}

/// The title of a video without the mark that some channels put behind it.
pub open spec fn unbranded(title: Seq<char>) -> Seq<char> {
    let mark = " | PoweredbyREC."@;
    if mark.is_suffix_of(title) {
        title.take(title.len() - mark.len())
    } else {
        title
    }
}

/// Takes the mark of a brand off a title.
pub fn sanitize_title(title: &str) -> (r: String)
    ensures
        r@ == unbranded(title@),
{
    let mark = " | PoweredbyREC.";
    if text::ends_with(title, mark) {
        title.substring_char(0, title.unicode_len() - mark.unicode_len()).to_owned()
    } else {
        title.to_owned()
    }
}

/// What is searched for: the title, and before it the uploader where it is to count.
pub open spec fn search_query(seed: SeedView, include_uploader: bool) -> Seq<char> {
    match seed.uploader {
        Some(uploader) => if include_uploader && !text::is_blank(uploader) {
            text::trimmed(uploader) + " "@ + text::trimmed(seed.title)
        } else {
            text::trimmed(seed.title)
        },
        None => text::trimmed(seed.title),
    }
}

/// Says what to search for.
pub fn build_search_query(seed: &RecommendationSeed, include_uploader: bool) -> (r: String)
    ensures
        r@ == search_query(seed@, include_uploader),
{
    let title = text::trim(seed.title.as_str());
    match &seed.uploader {
        Some(uploader) => {
            let uploader = text::trim(uploader.as_str());
            if include_uploader && !uploader.as_str().is_empty() {
                uploader.concat(" ").concat(title.as_str())
            } else {
                title
            }
        },
        None => title,
    }
}

/// The arguments with which `yt-dlp` searches for five videos.
pub open spec fn search_arguments(query: Seq<char>) -> Seq<Seq<char>> {
    seq!["--no-warnings"@, "--flat-playlist"@, "--dump-single-json"@, "ytsearch5:"@ + query]
}

/// The arguments with which `yt-dlp` searches for five videos.
pub fn recommendation_command(query: &str) -> (args: Vec<String>)
    ensures
        text::texts_view(args@) == search_arguments(query@),
        text::texts_view(args@) == seq![
            "--no-warnings"@,
            "--flat-playlist"@,
            "--dump-single-json"@,
            "ytsearch5:"@ + query@,
        ],
{
    let args = vec![
        "--no-warnings".to_owned(),
        "--flat-playlist".to_owned(),
        "--dump-single-json".to_owned(),
        "ytsearch5:".to_owned().concat(query),
    ];
    args
}

/// Who published what a document describes: its uploader or, where that field is
/// absent, its channel.
pub open spec fn publisher(entry: JsonView) -> Option<Seq<char>> {
    match entry.field("uploader"@) {
        Some(uploader) => uploader.text(),
        None => entry.text_field("channel"@),
    }
}

/// Reads who published what a document describes.
pub fn publisher_of(entry: &Json) -> (r: Option<String>)
    ensures
        text::text_view(r) == publisher(entry@),
{
    match entry.field("uploader") {
        Some(uploader) => uploader.as_text(),
        None => entry.text_field("channel"),
    }
}

/// The candidate that an entry describes: one with an id other than the current one, and
/// with a title.
pub open spec fn candidate_in(entry: JsonView, current: Option<Seq<char>>) -> Option<
    CandidateView,
> {
    match (entry.text_field("id"@), entry.text_field("title"@)) {
        (Some(video_id), Some(title)) => if current == Some(video_id) {
            None
        } else {
            Some(CandidateView { video_id, title, uploader: publisher(entry) })
        },
        _ => None,
    }
}

/// Whether a candidate of the list has an id.
pub open spec fn lists(candidates: Seq<CandidateView>, video_id: Seq<char>) -> bool {
    exists|i: int| 0 <= i < candidates.len() && (#[trigger] candidates[i]).video_id == video_id
}

/// The candidates that entries describe, in their order; of those with one id, the first.
pub open spec fn candidates_in(entries: Seq<JsonView>, current: Option<Seq<char>>) -> Seq<
    CandidateView,
>
    decreases entries.len(),
{
    if entries.len() == 0 {
        Seq::empty()
    } else {
        let before = candidates_in(entries.drop_last(), current);
        match candidate_in(entries.last(), current) {
            Some(candidate) => if lists(before, candidate.video_id) {
                before
            } else {
                before.push(candidate)
            },
            None => before,
        }
    }
}

/// What the results of a search recommend.
pub open spec fn recommended(results: JsonView, current: Option<Seq<char>>) -> Result<
    Seq<CandidateView>,
    ErrorView,
> {
    match results.field("entries"@) {
        Some(JsonView::Array(entries)) => Ok(candidates_in(entries, current)),
        _ => Err(ErrorView::SearchWithoutEntries),
    }
}

/// What the output of a search recommends.
pub open spec fn recommended_by_output(output: Seq<char>, current: Option<Seq<char>>) -> Result<
    Seq<CandidateView>,
    ErrorView,
> {
    match json::json_reading(output) {
        Ok(results) => recommended(results, current),
        Err(cause) => Err(ErrorView::SearchNotJson { cause }),
    }
}

/// What a run of a search recommends.
pub open spec fn recommended_by_run(run: ToolRun, current: Option<Seq<char>>) -> Result<
    Seq<CandidateView>,
    ErrorView,
> {
    match run {
        ToolRun::NotStarted { program, cause } => Err(
            ErrorView::NotStarted { program: program@, cause: cause@ },
        ),
        ToolRun::Finished(output) => if !output.succeeded() {
            Err(ErrorView::SearchFailed { stderr: tools::complaint(output) })
        } else if !utf8::valid_utf8(output.stdout@) {
            Err(ErrorView::SearchNotText { cause: tools::utf8_refusal(output.stdout@) })
        } else {
            recommended_by_output(utf8::decode_utf8(output.stdout@), current)
        },
    }
}

/// Whether a candidate of the list has an id.
fn is_listed(candidates: &Vec<UpNextCandidate>, video_id: &str) -> (r: bool)
    ensures
        r == lists(candidates_view(candidates@), video_id@),
{
    let ghost all = candidates_view(candidates@);
    let mut i: usize = 0;
    while i < candidates.len()
        invariant
            i <= candidates@.len(),
            all == candidates_view(candidates@),
            forall|j: int| 0 <= j < i ==> (#[trigger] all[j]).video_id != video_id@,
        decreases candidates@.len() - i,
    {
        if text::same_text(candidates[i].video_id.as_str(), video_id) {
            assert(all[i as int].video_id == video_id@);
            return true;
        }
        i = i + 1;
    }
    false
}

/// Reads the candidate that an entry describes.
pub fn candidate_of(entry: &Json, current_video_id: &Option<String>) -> (r: Option<
    UpNextCandidate,
>)
    ensures
        match r {
            Some(candidate) => candidate_in(entry@, text::text_view(*current_video_id)) == Some(
                candidate@,
            ),
            None => candidate_in(entry@, text::text_view(*current_video_id)) is None,
        },
{
    match (entry.text_field("id"), entry.text_field("title")) {
        (Some(video_id), Some(title)) => {
            if text::is_text(current_video_id, video_id.as_str()) {
                None
            } else {
                Some(UpNextCandidate { video_id, title, uploader: publisher_of(entry) })
            }
        },
        _ => None,
    }
}

/// Reads what the results of a search recommend.
pub fn recommendations_of(results: &Json, current_video_id: &Option<String>) -> (r: Result<
    Vec<UpNextCandidate>,
    AppError,
>)
    ensures
        search_view(r) == recommended(results@, text::text_view(*current_video_id)),
{
    let entries = match results.field("entries") {
        Some(entries) => match entries.as_items() {
            Some(entries) => entries,
            None => {
                return Err(AppError::SearchWithoutEntries);
            },
        },
        None => {
            return Err(AppError::SearchWithoutEntries);
        },
    };
    let ghost all = json::items_view(entries@);
    let ghost current = text::text_view(*current_video_id);
    let mut candidates: Vec<UpNextCandidate> = Vec::new();
    assert(candidates_view(candidates@) =~= candidates_in(all.take(0), current));
    let mut i: usize = 0;
    while i < entries.len()
        invariant
            i <= entries@.len(),
            all == json::items_view(entries@),
            current == text::text_view(*current_video_id),
            candidates_view(candidates@) == candidates_in(all.take(i as int), current),
        decreases entries@.len() - i,
    {
        let ghost before = candidates@;
        assert(all.take(i + 1).drop_last() =~= all.take(i as int));
        assert(all.take(i + 1).last() == entries@[i as int]@);
        if let Some(candidate) = candidate_of(&entries[i], current_video_id) {
            if !is_listed(&candidates, candidate.video_id.as_str()) {
                let ghost added = candidate@;
                candidates.push(candidate);
                assert(candidates_view(candidates@) =~= candidates_view(before).push(added));
            }
        }
        i = i + 1;
    }
    assert(all.take(i as int) =~= all);
    Ok(candidates)
}

/// Reads what the output of a search recommends.
pub fn parse_recommendations(output: &str, current_video_id: &Option<String>) -> (r: Result<
    Vec<UpNextCandidate>,
    AppError,
>)
    ensures
        search_view(r) == recommended_by_output(output@, text::text_view(*current_video_id)),
{
    match json::parse_json(output) {
        Ok(results) => recommendations_of(&results, current_video_id),
        Err(cause) => Err(AppError::SearchNotJson { cause }),
    }
}

/// Reads what a run of a search recommends.
pub fn search_candidates(run: ToolRun, current_video_id: &Option<String>) -> (r: Result<
    Vec<UpNextCandidate>,
    AppError,
>)
    ensures
        search_view(r) == recommended_by_run(run, text::text_view(*current_video_id)),
{
    match run {
        ToolRun::NotStarted { program, cause } => Err(AppError::NotStarted { program, cause }),
        ToolRun::Finished(output) => {
            if !output.success() {
                return Err(AppError::SearchFailed { stderr: tools::complaint_of(&output) });
            }
            match tools::decode(output.stdout) {
                Ok(stdout) => parse_recommendations(stdout.as_str(), current_video_id),
                Err(cause) => Err(AppError::SearchNotText { cause }),
            }
        },
    }
}

/// How far the search has come: what the latest run of `yt-dlp` brought.
#[derive(Debug)]
pub enum FetchStage {
    Start,
    Primary(ToolRun),
    Fallback(ToolRun),
}

/// Which run of `yt-dlp` a search waits for.
#[derive(Debug, Clone, Copy, PartialEq, Eq, Structural)]
pub enum SearchRound {
    Primary,
    Fallback,
}

impl SearchRound {
    /// How far the search has come with a run in this round.
    pub open spec fn stage_after(self, run: ToolRun) -> FetchStage {
        match self {
            SearchRound::Primary => FetchStage::Primary(run),
            SearchRound::Fallback => FetchStage::Fallback(run),
        }
    }

    /// Takes the search on with a run in this round.
    pub fn completed(self, run: ToolRun) -> (stage: FetchStage)
        ensures
            stage == self.stage_after(run),
    {
        match self {
            SearchRound::Primary => FetchStage::Primary(run),
            SearchRound::Fallback => FetchStage::Fallback(run),
        }
    }
}

/// What to do next for the search.
#[derive(Debug)]
pub enum FetchStep {
    /// Search for this, in this round.
    Search { query: String, round: SearchRound },
    /// Nothing: this is what the search found.
    Done(Result<Vec<UpNextCandidate>, AppError>),
}

/// The content of a [`FetchStep`].
pub enum FetchStepView {
    Search { query: Seq<char>, round: SearchRound },
    Done(Result<Seq<CandidateView>, ErrorView>),
}

impl View for FetchStep {
    type V = FetchStepView;

    open spec fn view(&self) -> FetchStepView {
        match self {
            FetchStep::Search { query, round } => FetchStepView::Search {
                query: query@,
                round: *round,
            },
            FetchStep::Done(outcome) => FetchStepView::Done(search_view(*outcome)),
        }
    }
}

/// How the search goes: first with the uploader and, if that finds nothing though there
/// is an uploader, once more with the title alone.
pub open spec fn next_fetch_step(seed: SeedView, stage: FetchStage) -> FetchStepView {
    match stage {
        FetchStage::Start => FetchStepView::Search {
            query: search_query(seed, true),
            round: SearchRound::Primary,
        },
        FetchStage::Primary(run) => {
            let found = recommended_by_run(run, seed.current_video_id);
            if seed.uploader is Some && found is Ok && found->Ok_0.len() == 0 {
                FetchStepView::Search {
                    query: search_query(seed, false),
                    round: SearchRound::Fallback,
                }
            } else {
                FetchStepView::Done(found)
            }
        },
        FetchStage::Fallback(run) => FetchStepView::Done(
            recommended_by_run(run, seed.current_video_id),
        ),
    }
}

/// Decides what to do next for the search.
pub fn fetch_recommendations(seed: &RecommendationSeed, stage: FetchStage) -> (step: FetchStep)
    ensures
        step@ == next_fetch_step(seed@, stage),
{
    match stage {
        FetchStage::Start => FetchStep::Search {
            query: build_search_query(seed, true),
            round: SearchRound::Primary,
        },
        FetchStage::Primary(run) => match search_candidates(run, &seed.current_video_id) {
            Ok(primary) => if primary.is_empty() && seed.uploader.is_some() {
                FetchStep::Search {
                    query: build_search_query(seed, false),
                    round: SearchRound::Fallback,
                }
            } else {
                FetchStep::Done(Ok(primary))
            },
            Err(error) => FetchStep::Done(Err(error)),
        },
        FetchStage::Fallback(run) => FetchStep::Done(
            search_candidates(run, &seed.current_video_id),
        ),
    }
}

/// What is to be done after a search has been started and `yt-dlp` has been run for it, run
/// by run; a search that is done takes in no further run.
pub open spec fn fetch_after(seed: SeedView, runs: Seq<ToolRun>) -> FetchStepView
    decreases runs.len(),
{
    if runs.len() == 0 {
        next_fetch_step(seed, FetchStage::Start)
    } else {
        match fetch_after(seed, runs.drop_last()) {
            FetchStepView::Search { round, .. } => next_fetch_step(
                seed,
                round.stage_after(runs.last()),
            ),
            FetchStepView::Done(outcome) => FetchStepView::Done(outcome),
        }
    }
}

/// Whether an entry describes a candidate with an id.
pub open spec fn describes(
    entry: JsonView,
    current: Option<Seq<char>>,
    video_id: Seq<char>,
) -> bool {
    candidate_in(entry, current) is Some && candidate_in(entry, current)->0.video_id == video_id
}

/// The video that is playing is not recommended.
pub proof fn current_video_is_not_recommended(entries: Seq<JsonView>, current: Option<Seq<char>>)
    ensures
        forall|i: int|
            0 <= i < candidates_in(entries, current).len() ==> current != Some(
                (#[trigger] candidates_in(entries, current)[i]).video_id,
            ),
    decreases entries.len(),
{
    if entries.len() > 0 {
        current_video_is_not_recommended(entries.drop_last(), current);
    }
}

/// No video is recommended twice.
pub proof fn recommended_videos_are_distinct(entries: Seq<JsonView>, current: Option<Seq<char>>)
    ensures
        forall|i: int, j: int|
            0 <= i < j < candidates_in(entries, current).len() ==> (
            #[trigger] candidates_in(entries, current)[i]).video_id != (
            #[trigger] candidates_in(entries, current)[j]).video_id,
    decreases entries.len(),
{
    if entries.len() > 0 {
        recommended_videos_are_distinct(entries.drop_last(), current);
    }
}

/// Every video that an entry describes is recommended, the current one apart.
pub proof fn described_videos_are_recommended(
    entries: Seq<JsonView>,
    current: Option<Seq<char>>,
    at: int,
)
    requires
        0 <= at < entries.len(),
        candidate_in(entries[at], current) is Some,
    ensures
        lists(candidates_in(entries, current), candidate_in(entries[at], current)->0.video_id),
    decreases entries.len(),
{
    let before = candidates_in(entries.drop_last(), current);
    let all = candidates_in(entries, current);
    let video_id = candidate_in(entries[at], current)->0.video_id;
    if at < entries.len() - 1 {
        described_videos_are_recommended(entries.drop_last(), current, at);
        let i = choose|i: int|
            0 <= i < before.len() && (#[trigger] before[i]).video_id == video_id;
        assert(all[i].video_id == video_id);
    } else if !lists(before, video_id) {
        assert(all.last().video_id == video_id);
    }
}

/// What is recommended stands in the entries, and of the entries for one video the
/// first one counts.
pub proof fn first_entry_of_a_video_counts(
    entries: Seq<JsonView>,
    current: Option<Seq<char>>,
    i: int,
)
    requires
        0 <= i < candidates_in(entries, current).len(),
    ensures
        exists|at: int|
            {
                &&& 0 <= at < entries.len()
                &&& candidate_in(#[trigger] entries[at], current) == Some(
                    candidates_in(entries, current)[i],
                )
                &&& forall|earlier: int|
                    0 <= earlier < at ==> !describes(
                        #[trigger] entries[earlier],
                        current,
                        candidates_in(entries, current)[i].video_id,
                    )
            },
    decreases entries.len(),
{
    let rest = entries.drop_last();
    let before = candidates_in(rest, current);
    let candidate = candidates_in(entries, current)[i];
    if i < before.len() {
        first_entry_of_a_video_counts(rest, current, i);
        let at = choose|at: int|
            {
                &&& 0 <= at < rest.len()
                &&& candidate_in(#[trigger] rest[at], current) == Some(before[i])
                &&& forall|earlier: int|
                    0 <= earlier < at ==> !describes(
                        #[trigger] rest[earlier],
                        current,
                        before[i].video_id,
                    )
            };
        assert(entries[at] == rest[at]);
        assert forall|earlier: int| 0 <= earlier < at implies !describes(
            #[trigger] entries[earlier],
            current,
            candidate.video_id,
        ) by {
            assert(rest[earlier] == entries[earlier]);
        }
    } else {
        let at = entries.len() - 1;
        assert(candidate_in(entries[at], current) == Some(candidate));
        assert forall|earlier: int| 0 <= earlier < at implies !describes(
            #[trigger] entries[earlier],
            current,
            candidate.video_id,
        ) by {
            if describes(entries[earlier], current, candidate.video_id) {
                assert(rest[earlier] == entries[earlier]);
                described_videos_are_recommended(rest, current, earlier);
            }
        }
    }
}

/// The order of the entries is the order of the candidates: what further entries add
/// stands behind what was there.
pub proof fn candidates_keep_the_order_of_entries(
    entries: Seq<JsonView>,
    further: Seq<JsonView>,
    current: Option<Seq<char>>,
)
    ensures
        candidates_in(entries, current).is_prefix_of(candidates_in(entries + further, current)),
    decreases further.len(),
{
    if further.len() == 0 {
        assert(entries + further =~= entries);
    } else {
        candidates_keep_the_order_of_entries(entries, further.drop_last(), current);
        assert((entries + further).drop_last() =~= entries + further.drop_last());
        let kept = candidates_in(entries, current);
        let before = candidates_in(entries + further.drop_last(), current);
        let all = candidates_in(entries + further, current);
        assert(all.subrange(0, kept.len() as int) =~= before.subrange(0, kept.len() as int));
    }
}

/// A search runs `yt-dlp` once or twice: after two runs it is done, whatever they brought.
pub proof fn search_runs_at_most_twice(seed: SeedView, runs: Seq<ToolRun>)
    ensures
        runs.len() == 0 ==> fetch_after(seed, runs) is Search,
        runs.len() >= 2 ==> fetch_after(seed, runs) is Done,
    decreases runs.len(),
{
    if runs.len() > 2 {
        search_runs_at_most_twice(seed, runs.drop_last());
    } else if runs.len() == 2 {
        assert(runs.drop_last().drop_last().len() == 0);
        reveal_with_fuel(fetch_after, 3);
    }
}

/// What a whole search comes to: what the first run found or why it failed, unless it
/// found nothing though there is an uploader; then what the second run, for the title
/// alone, brought.
pub proof fn search_comes_to_the_run_that_counts(
    seed: SeedView,
    primary: ToolRun,
    fallback: ToolRun,
)
    ensures
        ({
            let first = recommended_by_run(primary, seed.current_video_id);
            let again = seed.uploader is Some && first is Ok && first->Ok_0.len() == 0;
            &&& fetch_after(seed, Seq::empty()) == FetchStepView::Search {
                query: search_query(seed, true),
                round: SearchRound::Primary,
            }
            &&& fetch_after(seed, seq![primary]) == if again {
                FetchStepView::Search {
                    query: search_query(seed, false),
                    round: SearchRound::Fallback,
                }
            } else {
                FetchStepView::Done(first)
            }
            &&& fetch_after(seed, seq![primary, fallback]) == FetchStepView::Done(
                if again {
                    recommended_by_run(fallback, seed.current_video_id)
                } else {
                    first
                },
            )
        }),
{
    assert(seq![primary].drop_last() =~= Seq::empty());
    assert(seq![primary, fallback].drop_last() =~= seq![primary]);
    reveal_with_fuel(fetch_after, 3);
}

/// Without an uploader there is one run only, and a run that finds something or fails
/// is the last one.
pub proof fn search_falls_back_only_when_nothing_was_found(seed: SeedView, run: ToolRun)
    ensures
        next_fetch_step(seed, FetchStage::Primary(run)) is Search <==> seed.uploader is Some
            && recommended_by_run(run, seed.current_video_id) == Ok::<
            Seq<CandidateView>,
            ErrorView,
        >(Seq::empty()),
{
    let found = recommended_by_run(run, seed.current_video_id);
    if found is Ok && found->Ok_0.len() == 0 {
        assert(found->Ok_0 =~= Seq::empty());
    }
}

/// Whatever a search brings, it offers no video twice and not the one that is playing.
pub proof fn search_offers_other_videos_once(run: ToolRun, current: Option<Seq<char>>)
    requires
        recommended_by_run(run, current) is Ok,
    ensures
        ({
            let offered = recommended_by_run(run, current)->Ok_0;
            &&& forall|i: int|
                0 <= i < offered.len() ==> current != Some((#[trigger] offered[i]).video_id)
            &&& forall|i: int, j: int|
                0 <= i < j < offered.len() ==> (#[trigger] offered[i]).video_id != (
                #[trigger] offered[j]).video_id
        }),
{
    let output = run->Finished_0;
    let results = json::json_reading(utf8::decode_utf8(output.stdout@))->Ok_0;
    let entries = results.field("entries"@)->0->Array_0;
    current_video_is_not_recommended(entries, current);
    recommended_videos_are_distinct(entries, current);
}

/// A search is for something as long as the title is not blank.
pub proof fn search_is_for_something(seed: SeedView, include_uploader: bool)
    requires
        !text::is_blank(seed.title),
    ensures
        search_query(seed, include_uploader).len() > 0,
{
}

/// The mark of the brand is all that is taken off a title.
pub proof fn only_the_mark_is_taken_off(title: Seq<char>)
    ensures
        unbranded(title + " | PoweredbyREC."@) == title,
        unbranded(title) == title || unbranded(title) + " | PoweredbyREC."@ == title,
{
    let mark = " | PoweredbyREC."@;
    let branded = title + mark;
    assert(branded.subrange(branded.len() - mark.len(), branded.len() as int) =~= mark);
    assert(branded.take(branded.len() - mark.len()) =~= title);
    if mark.is_suffix_of(title) {
        assert(unbranded(title) + mark =~= title);
    }
}

/// A candidate is shown by its title and behind it the uploader, whole; by its title alone
/// where there is no uploader or only a blank one.
pub proof fn label_names_title_and_uploader(candidate: CandidateView, uploader: Seq<char>)
    ensures
        candidate.uploader is None ==> candidate.label() == candidate.title,
        candidate.uploader == Some(uploader) && text::trimmed(uploader).len() == 0
            ==> candidate.label() == candidate.title,
        candidate.uploader == Some(uploader) && text::trimmed(uploader).len() > 0
            ==> candidate.label() == candidate.title + " | "@ + uploader,
{
}

/// What is searched for ends with the title; the uploader stands before it exactly if it is
/// to count and is not blank.
pub proof fn search_is_for_title_and_uploader(
    seed: SeedView,
    uploader: Seq<char>,
    include_uploader: bool,
)
    ensures
        seed.uploader is None ==> search_query(seed, include_uploader) == text::trimmed(seed.title),
        !include_uploader ==> search_query(seed, include_uploader) == text::trimmed(seed.title),
        seed.uploader == Some(uploader) && text::trimmed(uploader).len() == 0 ==> search_query(
            seed,
            include_uploader,
        ) == text::trimmed(seed.title),
        include_uploader && seed.uploader == Some(uploader) && text::trimmed(uploader).len() > 0
            ==> search_query(seed, include_uploader) == text::trimmed(uploader) + " "@
            + text::trimmed(seed.title),
{
}

/// Who published something is its uploader, if there is such a field, even one that is no
/// text; only without the field it is the channel.
pub proof fn uploader_comes_before_the_channel(entry: JsonView)
    ensures
        match (entry.field("uploader"@), entry.field("channel"@)) {
            (Some(JsonView::Text(uploader)), _) => publisher(entry) == Some(uploader),
            (Some(_), _) => publisher(entry) is None,
            (None, Some(JsonView::Text(channel))) => publisher(entry) == Some(channel),
            (None, _) => publisher(entry) is None,
        },
{
}

/// An entry describes a candidate exactly if it has an id other than the current one and a
/// title, both texts; these are the candidate's, as they stand.
pub proof fn entries_describe_candidates(entry: JsonView, current: Option<Seq<char>>)
    ensures
        match (entry.field("id"@), entry.field("title"@)) {
            (Some(JsonView::Text(id)), Some(JsonView::Text(title))) => if current == Some(id) {
                candidate_in(entry, current) is None
            } else {
                candidate_in(entry, current) == Some(
                    CandidateView { video_id: id, title, uploader: publisher(entry) },
                )
            },
            _ => candidate_in(entry, current) is None,
        },
{
}

/// No result of a search is left out: every entry with an id other than the current one and
/// with a title has a candidate with its id among those that are recommended.
pub proof fn no_result_is_left_out(
    results: JsonView,
    entries: Seq<JsonView>,
    current: Option<Seq<char>>,
    at: int,
    id: Seq<char>,
    title: Seq<char>,
)
    requires
        results.field("entries"@) == Some(JsonView::Array(entries)),
        0 <= at < entries.len(),
        entries[at].field("id"@) == Some(JsonView::Text(id)),
        entries[at].field("title"@) == Some(JsonView::Text(title)),
        current != Some(id),
    ensures
        recommended(results, current) is Ok,
        exists|i: int|
            0 <= i < recommended(results, current)->Ok_0.len() && (#[trigger] recommended(
                results,
                current,
            )->Ok_0[i]).video_id == id,
{
    described_videos_are_recommended(entries, current, at);
    let listed = candidates_in(entries, current);
    let i = choose|i: int| 0 <= i < listed.len() && (#[trigger] listed[i]).video_id == id;
    assert(recommended(results, current)->Ok_0[i].video_id == id);
}

/// Where no two entries are for one video, none for the current one, and all have a title,
/// there are as many candidates as entries, each in the place of its entry.
pub proof fn distinct_results_keep_their_places(
    results: JsonView,
    entries: Seq<JsonView>,
    current: Option<Seq<char>>,
)
    requires
        results.field("entries"@) == Some(JsonView::Array(entries)),
        forall|i: int|
            0 <= i < entries.len() ==> {
                &&& (#[trigger] entries[i]).field("id"@) is Some
                &&& entries[i].field("id"@)->0 is Text
                &&& current != Some(entries[i].field("id"@)->0->Text_0)
                &&& entries[i].field("title"@) is Some
                &&& entries[i].field("title"@)->0 is Text
            },
        forall|i: int, j: int|
            0 <= i < j < entries.len() ==> (#[trigger] entries[i]).field("id"@) != (
            #[trigger] entries[j]).field("id"@),
    ensures
        recommended(results, current) is Ok,
        recommended(results, current)->Ok_0.len() == entries.len(),
        forall|i: int|
            #![trigger recommended(results, current)->Ok_0[i]]
            0 <= i < entries.len() ==> {
                let candidate = recommended(results, current)->Ok_0[i];
                &&& entries[i].field("id"@) == Some(JsonView::Text(candidate.video_id))
                &&& entries[i].field("title"@) == Some(JsonView::Text(candidate.title))
                &&& candidate.uploader == publisher(entries[i])
            },
    decreases entries.len(),
{
    if entries.len() > 0 {
        let rest = entries.drop_last();
        let fewer = JsonView::Object(seq![("entries"@, JsonView::Array(rest))]);
        assert(fewer.field("entries"@) == Some(JsonView::Array(rest)));
        assert forall|i: int| 0 <= i < rest.len() implies rest[i] == entries[i] by {}
        distinct_results_keep_their_places(fewer, rest, current);
        let before = candidates_in(rest, current);
        assert(recommended(fewer, current)->Ok_0 == before);
        let last = entries[entries.len() - 1];
        let candidate = candidate_in(last, current)->0;
        assert forall|i: int| 0 <= i < before.len() implies (#[trigger] before[i]).video_id
            != candidate.video_id by {
            assert(rest[i].field("id"@) == Some(
                JsonView::Text(recommended(fewer, current)->Ok_0[i].video_id),
            ));
            assert(entries[i].field("id"@) != last.field("id"@));
        }
        assert(!lists(before, candidate.video_id));
        assert(candidates_in(entries, current) == before.push(candidate));
        assert forall|i: int|
            #![trigger recommended(results, current)->Ok_0[i]]
            0 <= i < entries.len() implies {
                let candidate = recommended(results, current)->Ok_0[i];
                &&& entries[i].field("id"@) == Some(JsonView::Text(candidate.video_id))
                &&& entries[i].field("title"@) == Some(JsonView::Text(candidate.title))
                &&& candidate.uploader == publisher(entries[i])
            } by {
            if i < before.len() {
                assert(recommended(results, current)->Ok_0[i] == recommended(
                    fewer,
                    current,
                )->Ok_0[i]);
                assert(rest[i] == entries[i]);
            }
        }
    }
}

/// Nothing is recommended that is not a result: every candidate has the id, the title and
/// the publisher of an entry, and it is not the current video.
pub proof fn nothing_is_made_up(
    results: JsonView,
    entries: Seq<JsonView>,
    current: Option<Seq<char>>,
    i: int,
)
    requires
        results.field("entries"@) == Some(JsonView::Array(entries)),
        0 <= i < recommended(results, current)->Ok_0.len(),
    ensures
        ({
            let candidate = recommended(results, current)->Ok_0[i];
            &&& current != Some(candidate.video_id)
            &&& exists|at: int|
                {
                    &&& 0 <= at < entries.len()
                    &&& (#[trigger] entries[at]).field("id"@) == Some(
                        JsonView::Text(candidate.video_id),
                    )
                    &&& entries[at].field("title"@) == Some(JsonView::Text(candidate.title))
                    &&& candidate.uploader == publisher(entries[at])
                }
        }),
{
    first_entry_of_a_video_counts(entries, current, i);
    let candidate = recommended(results, current)->Ok_0[i];
    let at = choose|at: int|
        {
            &&& 0 <= at < entries.len()
            &&& candidate_in(#[trigger] entries[at], current) == Some(candidate)
            &&& forall|earlier: int|
                0 <= earlier < at ==> !describes(
                    #[trigger] entries[earlier],
                    current,
                    candidate.video_id,
                )
        };
    assert(entries[at].field("id"@) == Some(JsonView::Text(candidate.video_id)));
}

/// Results without a list of entries are an error, and with one they are none.
pub proof fn results_need_entries(results: JsonView, current: Option<Seq<char>>)
    ensures
        results.field("entries"@) is Some && results.field("entries"@)->0 is Array
            ==> recommended(results, current) is Ok,
        !(results.field("entries"@) is Some && results.field("entries"@)->0 is Array)
            ==> recommended(results, current) == Err::<Seq<CandidateView>, ErrorView>(
            ErrorView::SearchWithoutEntries,
        ),
{
}

/// What a run of a search comes to: a program that did not start, that failed, or whose
/// output is no UTF-8 or no JSON is an error, each with its cause; else it is what the
/// results recommend.
pub proof fn runs_of_a_search_are_read(
    program: String,
    cause: String,
    output: tools::CommandOutput,
    current: Option<Seq<char>>,
)
    ensures
        recommended_by_run(ToolRun::NotStarted { program, cause }, current) == Err::<
            Seq<CandidateView>,
            ErrorView,
        >(ErrorView::NotStarted { program: program@, cause: cause@ }),
        output.code != Some(0i32) ==> recommended_by_run(ToolRun::Finished(output), current)
            == Err::<Seq<CandidateView>, ErrorView>(
            ErrorView::SearchFailed { stderr: tools::complaint(output) },
        ),
        output.code == Some(0i32) && !utf8::valid_utf8(output.stdout@) ==> recommended_by_run(
            ToolRun::Finished(output),
            current,
        ) == Err::<Seq<CandidateView>, ErrorView>(
            ErrorView::SearchNotText { cause: tools::utf8_refusal(output.stdout@) },
        ),
        output.code == Some(0i32) && utf8::valid_utf8(output.stdout@) ==> match json::json_reading(
            utf8::decode_utf8(output.stdout@),
        ) {
            Ok(results) => recommended_by_run(ToolRun::Finished(output), current) == recommended(
                results,
                current,
            ),
            Err(cause) => recommended_by_run(ToolRun::Finished(output), current) == Err::<
                Seq<CandidateView>,
                ErrorView,
            >(ErrorView::SearchNotJson { cause }),
        },
{
}

/// Every search is for five videos, and the query stands in it whole, as its last argument's
/// end; the arguments before it are the same for every query.
pub proof fn searches_are_alike(query: Seq<char>)
    ensures
        search_arguments(query).last() == "ytsearch5:"@ + query,
        search_arguments(query).drop_last() == seq![
            "--no-warnings"@,
            "--flat-playlist"@,
            "--dump-single-json"@,
        ],
{
    assert(search_arguments(query).drop_last() =~= seq![
        "--no-warnings"@,
        "--flat-playlist"@,
        "--dump-single-json"@,
    ]);
}

} // verus!
