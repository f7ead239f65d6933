//! What the terminal shows, line by line, and what its keys mean.
use crate::json;
use crate::json::Double;
use crate::player::Control;
use crate::player::PlaybackState;
use crate::player::StateView;
use crate::text;
use crate::up_next;
use crate::up_next::OverlayModel;
use crate::up_next::UpNextOverlayView;
use vstd::prelude::*;
use vstd::string::*;

verus! {

/// What the numbers of a playback come to when they are shown: the volume in percent, the
/// position in seconds and, where the duration is known, the duration in seconds and the
/// position divided by it. The floating-point arithmetic behind them is done by the
/// program around the library.
#[derive(Debug)]
pub struct Readout {
    pub volume_percent: String,
    pub elapsed_seconds: u64,
    pub total_seconds: u64,
    pub played: Double,
}

/// What is shown of a playback.
#[derive(Debug)]
pub struct PlaybackView {
    pub title: String,
    pub status: String,
    pub volume: String,
    pub elapsed: String,
    pub total: String,
    pub progress_ratio: Double,
    pub queue_status: Option<String>,
    pub overlay: Option<UpNextOverlayView>,
}

/// The content of a [`PlaybackView`].
pub struct FrameModel {
    pub title: Seq<char>,
    pub status: Seq<char>,
    pub volume: Seq<char>,
    pub elapsed: Seq<char>,
    pub total: Seq<char>,
    pub progress_ratio: Double,
    pub queue_status: Option<Seq<char>>,
    pub overlay: Option<OverlayModel>,
}

impl View for PlaybackView {
    type V = FrameModel;

    open spec fn view(&self) -> FrameModel {
        FrameModel {
            title: self.title@,
            status: self.status@,
            volume: self.volume@,
            elapsed: self.elapsed@,
            total: self.total@,
            progress_ratio: self.progress_ratio,
            queue_status: text::text_view(self.queue_status),
            overlay: up_next::maybe_overlay(self.overlay),
        }
    }
}

/// A position in a video: minutes and seconds, and hours before them where there are
/// any.
pub open spec fn timestamp(total: nat) -> Seq<char> {
    let hours = total / 3600;
    let minutes = (total % 3600) / 60;
    let seconds = total % 60;
    if hours > 0 {
        text::two_digits(hours) + ":"@ + text::two_digits(minutes) + ":"@ + text::two_digits(
            seconds,
        )
    } else {
        text::two_digits(minutes) + ":"@ + text::two_digits(seconds)
    }
}

/// Writes a position in a video.
pub fn format_timestamp(total: u64) -> (r: String)
    ensures
        r@ == timestamp(total as nat),
{
    let hours: u64 = total / 3600;
    let minutes: u64 = (total % 3600) / 60;
    let seconds: u64 = total % 60;
    let tail = text::two_digit_text(minutes).concat(":").concat(
        text::two_digit_text(seconds).as_str(),
    );
    if hours > 0 {
        let r = text::two_digit_text(hours).concat(":").concat(tail.as_str());
        assert(r@ =~= timestamp(total as nat));
        r
    } else {
        tail
    }
}

/// How much of the whole has been played, from 0 to 1; nothing where the duration is
/// unknown or not positive.
pub open spec fn progress(state: StateView, played: Double) -> Double {
    match state.duration {
        Some(duration) => if duration.is_positive() {
            played.within_one()
        } else {
            Double { bits: json::ZERO_BITS }
        },
        None => Double { bits: json::ZERO_BITS },
    }
}

/// What is shown of a playback. The whole is dashes where the duration is unknown.
pub open spec fn frame(
    state: StateView,
    readout: Readout,
    queue_status: Option<Seq<char>>,
    overlay: Option<OverlayModel>,
) -> FrameModel {
    FrameModel {
        title: state.title,
        status: if state.paused {
            "Paused"@
        } else {
            "Playing"@
        },
        volume: if state.muted {
            readout.volume_percent@ + "% (muted)"@
        } else {
            readout.volume_percent@ + "%"@
        },
        elapsed: timestamp(readout.elapsed_seconds as nat),
        total: match state.duration {
            Some(_) => timestamp(readout.total_seconds as nat),
            None => "--:--"@,
        },
        progress_ratio: progress(state, readout.played),
        queue_status,
        overlay,
    }
}

impl PlaybackView {
    /// Composes what is shown of a playback.
    pub fn from_state(
        state: &PlaybackState,
        readout: Readout,
        queue_status: Option<String>,
        overlay: Option<UpNextOverlayView>,
    ) -> (r: PlaybackView)
        ensures
            r@ == frame(
                state@,
                readout,
                text::text_view(queue_status),
                up_next::maybe_overlay(overlay),
            ),
    {
        let status = if state.paused {
            "Paused".to_owned()
        } else {
            "Playing".to_owned()
        };
        let volume = if state.muted {
            readout.volume_percent.concat("% (muted)")
        } else {
            readout.volume_percent.concat("%")
        };
        let total = match state.duration {
            Some(_) => format_timestamp(readout.total_seconds),
            None => "--:--".to_owned(),
        };
        let progress_ratio = match state.duration {
            Some(duration) if duration.positive() => readout.played.clamp_to_one(),
            _ => Double { bits: json::ZERO_BITS },
        };
        PlaybackView {
            title: state.title.clone(),
            status,
            volume,
            elapsed: format_timestamp(readout.elapsed_seconds),
            total,
            progress_ratio,
            queue_status,
            overlay,
        }
    }
}

/// How a line stands out.
#[derive(Debug, Clone, Copy, PartialEq, Eq, Structural)]
pub enum LineStyle {
    Normal,
    Selected,
}

/// A line to show.
#[derive(Debug)]
pub struct DisplayLine {
    pub text: String,
    pub style: LineStyle,
}

/// The content of a [`DisplayLine`].
pub struct LineView {
    pub text: Seq<char>,
    pub style: LineStyle,
}

impl View for DisplayLine {
    type V = LineView;

    open spec fn view(&self) -> LineView {
        LineView { text: self.text@, style: self.style }
    }
}

/// The contents of a list of lines.
pub open spec fn lines_view(lines: Seq<DisplayLine>) -> Seq<LineView> {
    Seq::new(lines.len(), |i: int| lines[i]@)
}

/// An ordinary line.
pub open spec fn normal_line(text: Seq<char>) -> LineView {
    LineView { text, style: LineStyle::Normal }
}

/// An empty line.
pub open spec fn blank_line() -> LineView {
    normal_line(Seq::empty())
}

/// A line of the overlay, as it is shown.
pub open spec fn item_line(item: up_next::ItemView) -> LineView {
    LineView {
        text: item.text,
        style: if item.selected {
            LineStyle::Selected
        } else {
            LineStyle::Normal
        },
    }
}

impl DisplayLine {
    /// An ordinary line.
    pub fn normal(text: String) -> (r: DisplayLine)
        ensures
            r@ == normal_line(text@),
    {
        DisplayLine { text, style: LineStyle::Normal }
    }

    /// A line that stands out.
    pub fn selected(text: String) -> (r: DisplayLine)
        ensures
            r@ == (LineView { text: text@, style: LineStyle::Selected }),
    {
        DisplayLine { text, style: LineStyle::Selected }
    }

    /// An empty line.
    pub fn blank() -> (r: DisplayLine)
        ensures
            r@ == blank_line(),
    {
        DisplayLine::normal(String::new())
    }
}

/// A text cut to a width: what does not fit gives way to an ellipsis, where there is
/// room for one.
pub open spec fn fitted(text: Seq<char>, max_width: nat) -> Seq<char> {
    if text.len() <= max_width {
        text
    } else if max_width <= 3 {
        text.take(max_width as int)
    } else {
        text.take(max_width - 3) + "..."@
    }
}

/// Cuts a text to a width.
pub fn fit_text(text: &str, max_width: usize) -> (r: String)
    ensures
        r@ == fitted(text@, max_width as nat),
{
    if text.unicode_len() <= max_width {
        return text.to_owned();
    }
    if max_width <= 3 {
        return text.substring_char(0, max_width).to_owned();
    }
    text.substring_char(0, max_width - 3).to_owned().concat("...")
}

/// How far a text has to be moved to stand in the middle.
pub open spec fn centering(width: nat, text_width: nat) -> nat {
    if text_width < width {
        ((width - text_width) / 2) as nat
    } else {
        0
    }
}

/// Computes how far a text has to be moved to stand in the middle.
pub fn centered_offset(width: usize, text_width: usize) -> (r: usize)
    ensures
        r == centering(width as nat, text_width as nat),
{
    if text_width < width {
        (width - text_width) / 2
    } else {
        0
    }
}

/// A text in the middle of a cell.
pub open spec fn cell(text: Seq<char>, width: nat) -> Seq<char> {
    let content = fitted(text, width);
    let left = centering(width, content.len());
    let right = (width - left - content.len()) as nat;
    text::repeated(' ', left) + content + text::repeated(' ', right)
}

/// A text that was cut fits.
pub proof fn fitted_text_fits(text: Seq<char>, max_width: nat)
    ensures
        fitted(text, max_width).len() <= max_width,
{
    reveal_strlit("...");
}

/// Writes a text into the middle of a cell.
pub fn centered_cell(text: &str, width: usize) -> (r: String)
    ensures
        r@ == cell(text@, width as nat),
{
    let content = fit_text(text, width);
    proof {
        fitted_text_fits(text@, width as nat);
    }
    let content_width = content.as_str().unicode_len();
    let left = centered_offset(width, content_width);
    let right = width - left - content_width;
    text::repeat(' ', left).concat(content.as_str()).concat(text::repeat(' ', right).as_str())
}

/// The controls that are hinted at: what they do and their keys.
pub open spec fn control_hints() -> Seq<(Seq<char>, Seq<char>)> {
    seq![
        ("Play/Pause"@, "P"@),
        ("Back 30"@, "J"@),
        ("Fwd 30"@, "L"@),
        ("Volume -"@, "U"@),
        ("Volume +"@, "I"@),
        ("Mute"@, "M"@),
        ("Up Next"@, "N"@),
        ("Quit"@, "Q"@),
    ]
}

/// What controls say.
pub open spec fn hints_view(controls: Seq<(&str, &str)>) -> Seq<(Seq<char>, Seq<char>)> {
    Seq::new(controls.len(), |i: int| (controls[i].0@, controls[i].1@))
}

/// Lists the controls that are hinted at.
pub fn playback_control_hints() -> (r: Vec<(&'static str, &'static str)>)
    ensures
        hints_view(r@) == control_hints(),
{
    let r = vec![
        ("Play/Pause", "P"),
        ("Back 30", "J"),
        ("Fwd 30", "L"),
        ("Volume -", "U"),
        ("Volume +", "I"),
        ("Mute", "M"),
        ("Up Next", "N"),
        ("Quit", "Q"),
    ];
    assert(hints_view(r@) =~= control_hints());
    r
}

/// The labels or the keys of controls, side by side in cells.
pub open spec fn cells(
    items: Seq<(Seq<char>, Seq<char>)>,
    cell_width: nat,
    label_row: bool,
) -> Seq<char>
    decreases items.len(),
{
    if items.len() == 0 {
        Seq::empty()
    } else {
        let text = if label_row {
            items.last().0
        } else {
            items.last().1
        };
        cells(items.drop_last(), cell_width, label_row) + cell(text, cell_width)
    }
}

/// A row of labels or of keys.
pub open spec fn control_row(
    items: Seq<(Seq<char>, Seq<char>)>,
    cell_width: nat,
    label_row: bool,
) -> Seq<char> {
    text::trimmed_end(cells(items, cell_width, label_row))
}

/// Writes a row of labels or of keys.
pub fn format_control_row(items: &[(&str, &str)], cell_width: usize, label_row: bool) -> (r: String)
    ensures
        r@ == control_row(hints_view(items@), cell_width as nat, label_row),
{
    let ghost all = hints_view(items@);
    let mut row = String::new();
    let mut i: usize = 0;
    assert(all.take(0) =~= Seq::empty());
    while i < items.len()
        invariant
            i <= items@.len(),
            all == hints_view(items@),
            row@ == cells(all.take(i as int), cell_width as nat, label_row),
        decreases items@.len() - i,
    {
        let text = if label_row {
            items[i].0
        } else {
            items[i].1
        };
        row.append(centered_cell(text, cell_width).as_str());
        assert(all.take(i + 1).drop_last() =~= all.take(i as int));
        i = i + 1;
    }
    assert(all.take(i as int) =~= all);
    text::trim_end(row.as_str())
}

/// How many controls stand in a row.
pub open spec fn controls_per_row(width: int) -> nat {
    if width >= 88 {
        4
    } else if width >= 64 {
        3
    } else if width >= 44 {
        2
    } else {
        1
    }
}

/// How wide the cells of a row are.
pub open spec fn cell_width(width: int, count: int) -> nat {
    if width / count < 12 {
        12
    } else {
        (width / count) as nat
    }
}

/// How many controls the next row takes.
pub open spec fn row_size(per_row: nat, left: nat) -> int {
    if per_row < left {
        per_row as int
    } else {
        left as int
    }
}

/// The rows of controls: for each group of them a row of labels and a row of keys.
pub open spec fn rows_of(
    width: int,
    per_row: nat,
    controls: Seq<(Seq<char>, Seq<char>)>,
) -> Seq<Seq<char>>
    decreases controls.len(),
{
    if controls.len() == 0 || per_row == 0 {
        Seq::empty()
    } else {
        let size = row_size(per_row, controls.len());
        let chunk = controls.take(size);
        let cell = cell_width(width, size);
        seq![control_row(chunk, cell, true), control_row(chunk, cell, false)] + rows_of(
            width,
            per_row,
            controls.skip(size),
        )
    }
}

/// Writes the rows of controls for a width.
pub fn control_rows_for_width(width: u16, controls: &[(&str, &str)]) -> (r: Vec<String>)
    ensures
        text::texts_view(r@) == rows_of(
            width as int,
            controls_per_row(width as int),
            hints_view(controls@),
        ),
{
    let per_row: usize = if width >= 88 {
        4
    } else if width >= 64 {
        3
    } else if width >= 44 {
        2
    } else {
        1
    };
    let ghost all = hints_view(controls@);
    let ghost target = rows_of(width as int, per_row as nat, all);
    let mut rows: Vec<String> = Vec::new();
    let mut from: usize = 0;
    assert(all.skip(0) =~= all);
    assert(text::texts_view(rows@) + target =~= target);
    while from < controls.len()
        invariant
            from <= controls@.len(),
            1 <= per_row <= 4,
            all == hints_view(controls@),
            text::texts_view(rows@) + rows_of(
                width as int,
                per_row as nat,
                all.skip(from as int),
            ) == target,
        decreases controls@.len() - from,
    {
        let left = controls.len() - from;
        let size: usize = if per_row < left {
            per_row
        } else {
            left
        };
        let even: usize = width as usize / size;
        let cell: usize = if even < 12 {
            12
        } else {
            even
        };
        let chunk = vstd::slice::slice_subrange(controls, from, from + size);
        let ghost rest = all.skip(from as int);
        assert(hints_view(chunk@) =~= rest.take(size as int));
        assert(rest.skip(size as int) =~= all.skip(from + size));
        let ghost before = text::texts_view(rows@);
        let ghost shown = rest.take(size as int);
        let ghost tail = rows_of(width as int, per_row as nat, all.skip(from + size));
        let ghost pair = seq![
            control_row(shown, cell as nat, true),
            control_row(shown, cell as nat, false),
        ];
        assert(rows_of(width as int, per_row as nat, rest) == pair + tail);
        rows.push(format_control_row(chunk, cell, true));
        rows.push(format_control_row(chunk, cell, false));
        assert(text::texts_view(rows@) =~= before + pair);
        assert(before + pair + tail =~= before + (pair + tail));
        from = from + size;
    }
    assert(text::texts_view(rows@) =~= target);
    rows
}

/// The width of the progress bar.
pub open spec fn bar_width(content_width: int) -> nat {
    if content_width < 20 {
        12
    } else if content_width > 80 {
        72
    } else {
        (content_width - 8) as nat
    }
}

/// Computes the width of the progress bar.
pub fn progress_bar_width(content_width: u16) -> (r: usize)
    ensures
        r == bar_width(content_width as int),
{
    if content_width < 20 {
        12
    } else if content_width > 80 {
        72
    } else {
        (content_width - 8) as usize
    }
}

/// A progress bar, of which `filled` places are done.
pub open spec fn bar(filled: nat, width: nat) -> Seq<char> {
    let done = if filled < width {
        filled
    } else {
        width
    };
    "["@ + text::repeated('#', done) + text::repeated('-', (width - done) as nat) + "]"@
}

/// Draws a progress bar, of which `filled` places are done.
pub fn progress_bar(filled: usize, width: usize) -> (r: String)
    ensures
        r@ == bar(filled as nat, width as nat),
{
    let done = if filled < width {
        filled
    } else {
        width
    };
    "[".to_owned().concat(text::repeat('#', done).as_str()).concat(
        text::repeat('-', width - done).as_str(),
    ).concat("]")
}

/// The lines of the overlay.
pub open spec fn overlay_lines(overlay: OverlayModel) -> Seq<LineView> {
    let head = seq![normal_line(overlay.heading), normal_line(overlay.message)];
    let items = Seq::new(overlay.items.len(), |i: int| item_line(overlay.items[i]));
    let help = Seq::new(overlay.help_lines.len(), |i: int| normal_line(overlay.help_lines[i]));
    head + after_gap(items) + after_gap(help)
}

/// Lines behind an empty one; no lines need none.
pub open spec fn after_gap(lines: Seq<LineView>) -> Seq<LineView> {
    if lines.len() == 0 {
        lines
    } else {
        seq![blank_line()] + lines
    }
}

/// The lines above the overlay or the controls.
pub open spec fn playback_lines(view: FrameModel, content_width: int, filled: nat) -> Seq<
    LineView,
> {
    seq![
        normal_line(view.title),
        blank_line(),
        normal_line(bar(filled, bar_width(content_width))),
        normal_line(view.elapsed + " / "@ + view.total),
        blank_line(),
        normal_line("Status: "@ + view.status + "  Volume: "@ + view.volume),
    ] + (match view.queue_status {
        Some(status) => seq![normal_line(status)],
        None => Seq::empty(),
    }) + seq![blank_line()]
}

/// All lines that are shown.
pub open spec fn composed(view: FrameModel, content_width: int, filled: nat) -> Seq<LineView> {
    playback_lines(view, content_width, filled) + match view.overlay {
        Some(overlay) => overlay_lines(overlay),
        None => {
            let rows = rows_of(content_width, controls_per_row(content_width), control_hints());
            Seq::new(rows.len(), |i: int| normal_line(rows[i]))
        },
    }
}

/// Adds texts to a list, as ordinary lines.
fn add_normal_lines(lines: &mut Vec<DisplayLine>, texts: &Vec<String>)
    ensures
        lines_view(final(lines)@) == lines_view(old(lines)@) + Seq::new(
            texts@.len(),
            |i: int| normal_line(texts@[i]@),
        ),
{
    let ghost before = lines_view(lines@);
    let ghost added = Seq::new(texts@.len(), |i: int| normal_line(texts@[i]@));
    let mut i: usize = 0;
    assert(before + added.take(0) =~= before);
    while i < texts.len()
        invariant
            i <= texts@.len(),
            added == Seq::new(texts@.len(), |i: int| normal_line(texts@[i]@)),
            lines_view(lines@) == before + added.take(i as int),
        decreases texts@.len() - i,
    {
        let ghost so_far = lines@;
        lines.push(DisplayLine::normal(texts[i].clone()));
        assert(lines_view(lines@) =~= lines_view(so_far).push(added[i as int]));
        assert(before + added.take(i + 1) =~= (before + added.take(i as int)).push(
            added[i as int],
        ));
        i = i + 1;
    }
    assert(added.take(i as int) =~= added);
}

/// Adds the lines of the overlay to a list.
fn add_overlay_lines(lines: &mut Vec<DisplayLine>, overlay: &UpNextOverlayView)
    ensures
        lines_view(final(lines)@) == lines_view(old(lines)@) + overlay_lines(overlay@),
{
    let ghost before = lines_view(lines@);
    let ghost model = overlay@;
    let ghost head = seq![normal_line(model.heading), normal_line(model.message)];
    let ghost items = Seq::new(model.items.len(), |i: int| item_line(model.items[i]));
    let ghost help = Seq::new(model.help_lines.len(), |i: int| normal_line(model.help_lines[i]));
    lines.push(DisplayLine::normal(overlay.heading.clone()));
    lines.push(DisplayLine::normal(overlay.message.clone()));
    assert(lines_view(lines@) =~= before + head);
    if !overlay.items.is_empty() {
        lines.push(DisplayLine::blank());
        let ghost start = lines_view(lines@);
        assert(start =~= before + head + seq![blank_line()]);
        let mut i: usize = 0;
        assert(start + items.take(0) =~= start);
        while i < overlay.items.len()
            invariant
                i <= overlay.items@.len(),
                model == overlay@,
                items == Seq::new(model.items.len(), |i: int| item_line(model.items[i])),
                lines_view(lines@) == start + items.take(i as int),
            decreases overlay.items@.len() - i,
        {
            let ghost so_far = lines@;
            let item = &overlay.items[i];
            let line = if item.selected {
                DisplayLine::selected(item.text.clone())
            } else {
                DisplayLine::normal(item.text.clone())
            };
            assert(line@ == items[i as int]);
            lines.push(line);
            assert(lines_view(lines@) =~= lines_view(so_far).push(items[i as int]));
            assert(start + items.take(i + 1) =~= (start + items.take(i as int)).push(
                items[i as int],
            ));
            i = i + 1;
        }
        assert(items.take(i as int) =~= items);
        assert(lines_view(lines@) =~= before + head + after_gap(items));
    } else {
        assert(lines_view(lines@) =~= before + head + after_gap(items));
    }
    if !overlay.help_lines.is_empty() {
        let ghost so_far = lines_view(lines@);
        lines.push(DisplayLine::blank());
        assert(lines_view(lines@) =~= so_far + seq![blank_line()]);
        add_normal_lines(lines, &overlay.help_lines);
        assert(Seq::new(
            overlay.help_lines@.len(),
            |i: int| normal_line(overlay.help_lines@[i]@),
        ) =~= help);
        assert(lines_view(lines@) =~= so_far + after_gap(help));
    } else {
        assert(lines_view(lines@) + after_gap(help) =~= lines_view(lines@));
    }
    assert(lines_view(lines@) =~= before + overlay_lines(model));
}

/// Composes all lines that are shown. `filled` is the number of places of the progress
/// bar that are done.
pub fn compose_lines(view: &PlaybackView, content_width: u16, filled: usize) -> (r: Vec<
    DisplayLine,
>)
    ensures
        lines_view(r@) == composed(view@, content_width as int, filled as nat),
{
    let mut lines: Vec<DisplayLine> = Vec::new();
    lines.push(DisplayLine::normal(view.title.clone()));
    lines.push(DisplayLine::blank());
    lines.push(DisplayLine::normal(progress_bar(filled, progress_bar_width(content_width))));
    lines.push(
        DisplayLine::normal(view.elapsed.clone().concat(" / ").concat(view.total.as_str())),
    );
    lines.push(DisplayLine::blank());
    lines.push(
        DisplayLine::normal(
            "Status: ".to_owned().concat(view.status.as_str()).concat("  Volume: ").concat(
                view.volume.as_str(),
            ),
        ),
    );
    if let Some(status) = &view.queue_status {
        lines.push(DisplayLine::normal(status.clone()));
    }
    lines.push(DisplayLine::blank());
    let ghost above = playback_lines(view@, content_width as int, filled as nat);
    assert(lines_view(lines@) =~= above);
    match &view.overlay {
        Some(overlay) => {
            add_overlay_lines(&mut lines, overlay);
        },
        None => {
            let hints = playback_control_hints();
            let rows = control_rows_for_width(content_width, hints.as_slice());
            add_normal_lines(&mut lines, &rows);
            proof {
                let texts = text::texts_view(rows@);
                assert(Seq::new(rows@.len(), |i: int| normal_line(rows@[i]@)) =~= Seq::new(
                    texts.len(),
                    |i: int| normal_line(texts[i]),
                ));
            }
        },
    }
    lines
}

/// A line and the place on the screen at which it starts.
#[derive(Debug)]
pub struct PlacedLine {
    pub column: u16,
    pub row: u16,
    pub text: String,
    pub style: LineStyle,
}

/// The content of a [`PlacedLine`].
pub struct PlacedView {
    pub column: int,
    pub row: int,
    pub text: Seq<char>,
    pub style: LineStyle,
}

impl View for PlacedLine {
    type V = PlacedView;

    open spec fn view(&self) -> PlacedView {
        PlacedView {
            column: self.column as int,
            row: self.row as int,
            text: self.text@,
            style: self.style,
        }
    }
}

/// The contents of a list of placed lines.
pub open spec fn placed_view(lines: Seq<PlacedLine>) -> Seq<PlacedView> {
    Seq::new(lines.len(), |i: int| lines[i]@)
}

/// A line in the middle of a strip that starts at `left`.
pub open spec fn placed(left: int, row: int, width: nat, line: LineView) -> PlacedView {
    let text = fitted(line.text, width);
    PlacedView { column: left + centering(width, text.len()), row, text, style: line.style }
}

/// Places a line in the middle of a strip that starts at `left`.
pub fn draw_centered_line(left: u16, row: u16, width: u16, line: &DisplayLine) -> (r: PlacedLine)
    requires
        left + centering(width as nat, fitted(line@.text, width as nat).len()) <= u16::MAX,
    ensures
        r@ == placed(left as int, row as int, width as nat, line@),
{
    let text = fit_text(line.text.as_str(), width as usize);
    let offset = centered_offset(width as usize, text.as_str().unicode_len());
    PlacedLine { column: left + offset as u16, row, text, style: line.style }
}

/// The width of what is shown: that of the screen without a margin, within limits.
pub open spec fn content_width(columns: int) -> nat {
    if columns < 40 {
        36
    } else if columns > 100 {
        96
    } else {
        (columns - 4) as nat
    }
}

/// Computes the width of what is shown.
pub fn content_width_for(columns: u16) -> (r: u16)
    ensures
        r == content_width(columns as int),
{
    if columns < 40 {
        36
    } else if columns > 100 {
        96
    } else {
        columns - 4
    }
}

/// Where something starts that stands in the middle.
pub open spec fn margin(available: int, taken: int) -> int {
    if taken < available {
        (available - taken) / 2
    } else {
        0
    }
}

/// The picture: the lines one below the other, in the middle of the screen.
pub open spec fn picture(lines: Seq<LineView>, columns: int, rows: int) -> Seq<PlacedView> {
    let width = content_width(columns);
    Seq::new(
        lines.len(),
        |i: int|
            placed(
                margin(columns, width as int),
                margin(rows, lines.len() as int) + i,
                width,
                lines[i],
            ),
    )
}

/// Places the lines on a screen.
pub fn render(lines: &Vec<DisplayLine>, columns: u16, rows: u16) -> (r: Vec<PlacedLine>)
    requires
        lines@.len() <= u16::MAX,
    ensures
        placed_view(r@) == picture(lines_view(lines@), columns as int, rows as int),
{
    let width = content_width_for(columns);
    let left: u16 = if width < columns {
        (columns - width) / 2
    } else {
        0
    };
    let height: u16 = lines.len() as u16;
    let top: u16 = if height < rows {
        (rows - height) / 2
    } else {
        0
    };
    let ghost target = picture(lines_view(lines@), columns as int, rows as int);
    let mut placed_lines: Vec<PlacedLine> = Vec::new();
    let mut i: u16 = 0;
    while i < height
        invariant
            i <= height,
            height == lines@.len(),
            width == content_width(columns as int),
            left == margin(columns as int, width as int),
            top == margin(rows as int, height as int),
            target == picture(lines_view(lines@), columns as int, rows as int),
            placed_lines@.len() == i,
            forall|j: int| 0 <= j < i ==> (#[trigger] placed_lines@[j])@ == target[j],
        decreases height - i,
    {
        placed_lines.push(draw_centered_line(left, top + i, width, &lines[i as usize]));
        i = i + 1;
    }
    assert(placed_view(placed_lines@) =~= target);
    placed_lines
}

/// A key of the keyboard.
#[derive(Debug, Clone, Copy, PartialEq, Eq, Structural)]
pub enum Key {
    Char(char),
    Up,
    Left,
    Down,
    Right,
    Enter,
    Esc,
    Other,
}

/// What a key asks for.
pub open spec fn control_of(key: Key) -> Option<Control> {
    match key {
        Key::Char(c) => if c == 'p' || c == 'P' {
            Some(Control::TogglePause)
        } else if c == 'j' || c == 'J' {
            Some(Control::SeekBackward)
        } else if c == 'l' || c == 'L' {
            Some(Control::SeekForward)
        } else if c == 'u' || c == 'U' {
            Some(Control::VolumeDown)
        } else if c == 'i' || c == 'I' {
            Some(Control::VolumeUp)
        } else if c == 'm' || c == 'M' {
            Some(Control::ToggleMute)
        } else if c == 'n' || c == 'N' {
            Some(Control::ToggleUpNext)
        } else if '1' <= c <= '5' {
            Some(Control::SelectUpNext((c as int - '1' as int) as usize))
        } else if c == 'q' || c == 'Q' {
            Some(Control::Quit)
        } else {
            None
        },
        Key::Up | Key::Left => Some(Control::MoveUpNext(-1i32)),
        Key::Down | Key::Right => Some(Control::MoveUpNext(1i32)),
        Key::Enter => Some(Control::ConfirmUpNext),
        Key::Esc => Some(Control::CloseOverlay),
        Key::Other => None,
    }
}

/// Tells what a key event asks for; only the press of a key counts.
pub fn poll_control(key: Key, pressed: bool) -> (r: Option<Control>)
    ensures
        r == if pressed {
            control_of(key)
        } else {
            None
        },
{
    if !pressed {
        return None;
    }
    match key {
        Key::Char(c) => match c {
            'p' | 'P' => Some(Control::TogglePause),
            'j' | 'J' => Some(Control::SeekBackward),
            'l' | 'L' => Some(Control::SeekForward),
            'u' | 'U' => Some(Control::VolumeDown),
            'i' | 'I' => Some(Control::VolumeUp),
            'm' | 'M' => Some(Control::ToggleMute),
            'n' | 'N' => Some(Control::ToggleUpNext),
            '1' => Some(Control::SelectUpNext(0)),
            '2' => Some(Control::SelectUpNext(1)),
            '3' => Some(Control::SelectUpNext(2)),
            '4' => Some(Control::SelectUpNext(3)),
            '5' => Some(Control::SelectUpNext(4)),
            'q' | 'Q' => Some(Control::Quit),
            _ => None,
        },
        Key::Up | Key::Left => Some(Control::MoveUpNext(-1)),
        Key::Down | Key::Right => Some(Control::MoveUpNext(1)),
        Key::Enter => Some(Control::ConfirmUpNext),
        Key::Esc => Some(Control::CloseOverlay),
        Key::Other => None,
    }
}

/// The whole is shown as dashes exactly if the duration is unknown.
pub proof fn unknown_duration_is_dashes(
    state: StateView,
    readout: Readout,
    queue_status: Option<Seq<char>>,
    overlay: Option<OverlayModel>,
)
    ensures
        frame(state, readout, queue_status, overlay).total == "--:--"@ <==> state.duration is None,
{
    reveal_strlit("--:--");
    let total = readout.total_seconds as nat;
    lemma_timestamp_parts(total);
    if timestamp(total) == "--:--"@ {
        assert(timestamp(total)[0] == text::two_digits((total % 3600) / 60)[0]);
    }
}

/// The progress lies between 0 and 1, and is 0 where the duration is unknown or not
/// positive.
pub proof fn progress_has_limits(state: StateView, played: Double)
    requires
        played.is_number(),
    ensures
        progress(state, played).is_number(),
        !progress(state, played).is_negative(),
        !progress(state, played).exceeds_one(),
        !(state.duration is Some && state.duration->0.is_positive()) ==> progress(state, played)
            == (Double { bits: json::ZERO_BITS }),
{
}

/// Cutting a text that was cut to the same width changes nothing.
pub proof fn fitting_is_idempotent(text: Seq<char>, max_width: nat)
    ensures
        fitted(fitted(text, max_width), max_width) == fitted(text, max_width),
{
    fitted_text_fits(text, max_width);
}

/// A text is changed only where it does not fit; it then takes all the room, and all but
/// the last three characters are its own.
pub proof fn fitting_keeps_the_beginning(text: Seq<char>, max_width: nat)
    ensures
        text.len() <= max_width ==> fitted(text, max_width) == text,
        max_width < text.len() ==> fitted(text, max_width).len() == max_width,
        forall|i: int|
            0 <= i < fitted(text, max_width).len() - 3 ==> #[trigger] fitted(text, max_width)[i]
                == text[i],
{
    reveal_strlit("...");
}

/// A cell is as wide as it was asked to be.
pub proof fn cell_has_its_width(text: Seq<char>, width: nat)
    ensures
        cell(text, width).len() == width,
{
    fitted_text_fits(text, width);
}

/// Cells side by side are as wide as all of them together.
pub proof fn cells_have_their_width(
    items: Seq<(Seq<char>, Seq<char>)>,
    cell_width: nat,
    label_row: bool,
)
    ensures
        cells(items, cell_width, label_row).len() == items.len() * cell_width,
    decreases items.len(),
{
    if items.len() > 0 {
        cells_have_their_width(items.drop_last(), cell_width, label_row);
        let text = if label_row {
            items.last().0
        } else {
            items.last().1
        };
        cell_has_its_width(text, cell_width);
        assert((items.len() - 1) * cell_width + cell_width == items.len() * cell_width)
            by (nonlinear_arith);
    }
}

/// Wherever twelve characters fit, every row of controls fits.
pub proof fn control_rows_fit(
    width: int,
    controls: Seq<(Seq<char>, Seq<char>)>,
    per_row: nat,
    at: int,
)
    requires
        12 <= width,
        1 <= per_row <= controls_per_row(width),
        0 <= at < rows_of(width, per_row, controls).len(),
    ensures
        rows_of(width, per_row, controls)[at].len() <= width,
    decreases controls.len(),
{
    let size = row_size(per_row, controls.len());
    let chunk = controls.take(size);
    let each = cell_width(width, size);
    if at < 2 {
        cells_have_their_width(chunk, each, at == 0);
        text::lemma_trimmed_end(cells(chunk, each, at == 0));
        assert(width / size >= 12) by (nonlinear_arith)
            requires
                1 <= size <= per_row,
                per_row <= controls_per_row(width),
                12 <= width,
        ;
        assert(size * (width / size) <= width) by (nonlinear_arith)
            requires
                size > 0,
        ;
    } else {
        control_rows_fit(width, controls.skip(size), per_row, at - 2);
    }
}

/// Each group of controls takes two rows, and no control is left out.
pub proof fn controls_take_two_rows_each(
    width: int,
    per_row: nat,
    controls: Seq<(Seq<char>, Seq<char>)>,
)
    requires
        per_row > 0,
    ensures
        rows_of(width, per_row, controls).len() == 2 * ((controls.len() + per_row - 1)
            / per_row as int),
    decreases controls.len(),
{
    let count = controls.len() as int;
    let group = per_row as int;
    if count > 0 {
        let size = row_size(per_row, controls.len());
        controls_take_two_rows_each(width, per_row, controls.skip(size));
        if count <= group {
            assert((count + group - 1) / group == 1) by (nonlinear_arith)
                requires
                    1 <= count <= group,
            ;
            assert((group - 1) / group == 0) by (nonlinear_arith)
                requires
                    1 <= group,
            ;
        } else {
            assert((count + group - 1) / group == (count - group + group - 1) / group + 1)
                by (nonlinear_arith)
                requires
                    1 <= group < count,
            ;
        }
    } else {
        assert((group - 1) / group == 0) by (nonlinear_arith)
            requires
                1 <= group,
        ;
    }
}

/// A progress bar has its width and two brackets.
pub proof fn bar_has_its_width(filled: nat, width: nat)
    ensures
        bar(filled, width).len() == width + 2,
{
    reveal_strlit("[");
    reveal_strlit("]");
}

/// The bar fits into what is shown.
pub proof fn bar_fits(columns: int, filled: nat)
    ensures
        bar(filled, bar_width(content_width(columns) as int)).len() <= content_width(columns),
{
    bar_has_its_width(filled, bar_width(content_width(columns) as int));
}

/// No two positions are shown by the same timestamp.
pub proof fn timestamps_are_distinct(a: nat, b: nat)
    requires
        timestamp(a) == timestamp(b),
    ensures
        a == b,
{
    reveal_strlit(":");
    lemma_timestamp_parts(a);
    lemma_timestamp_parts(b);
    let shown = timestamp(a);
    let seconds = shown.skip(shown.len() - 2);
    let minutes = shown.subrange(shown.len() - 5, shown.len() - 3);
    assert(text::decimal_value(seconds) == a % 60 && text::decimal_value(seconds) == b % 60);
    assert(text::decimal_value(minutes) == (a % 3600) / 60 && text::decimal_value(minutes) == (b
        % 3600) / 60);
    if shown.len() > 5 {
        let hours = shown.take(shown.len() - 6);
        assert(text::decimal_value(hours) == a / 3600 && text::decimal_value(hours) == b / 3600);
    }
}

/// Where the parts of a timestamp stand.
proof fn lemma_timestamp_parts(total: nat)
    ensures
        ({
            let shown = timestamp(total);
            &&& shown.len() == 5 || shown.len() >= 8
            &&& shown.len() == 5 <==> total / 3600 == 0
            &&& text::decimal_value(shown.skip(shown.len() - 2)) == total % 60
            &&& text::decimal_value(shown.subrange(shown.len() - 5, shown.len() - 3)) == (total
                % 3600) / 60
            &&& shown.len() > 5 ==> text::decimal_value(shown.take(shown.len() - 6)) == total
                / 3600
        }),
{
    reveal_strlit(":");
    let hours = total / 3600;
    let minutes = (total % 3600) / 60;
    let seconds = total % 60;
    text::two_digits_read_back(hours);
    text::two_digits_read_back(minutes);
    text::two_digits_read_back(seconds);
    let shown = timestamp(total);
    assert(shown.skip(shown.len() - 2) =~= text::two_digits(seconds));
    assert(shown.subrange(shown.len() - 5, shown.len() - 3) =~= text::two_digits(minutes));
    if hours > 0 {
        assert(shown.take(shown.len() - 6) =~= text::two_digits(hours));
    }
}

/// On a screen of thirty-six columns or more every line of the picture lies on the screen,
/// and its rows do if there are enough of them.
pub proof fn picture_lies_on_the_screen(
    lines: Seq<LineView>,
    columns: int,
    rows: int,
    at: int,
)
    requires
        36 <= columns,
        0 <= at < lines.len(),
    ensures
        ({
            let line = picture(lines, columns, rows)[at];
            &&& 0 <= line.column
            &&& line.column + line.text.len() <= columns
            &&& 0 <= line.row
            &&& lines.len() <= rows ==> line.row < rows
        }),
{
    fitted_text_fits(lines[at].text, content_width(columns));
}

/// Every key that is hinted at does something, and so does its small letter: the same.
pub proof fn hinted_keys_work(at: int)
    requires
        0 <= at < control_hints().len(),
    ensures
        control_hints()[at].1.len() == 1,
        control_of(Key::Char(control_hints()[at].1[0])) is Some,
        control_of(Key::Char((control_hints()[at].1[0] as int + 32) as char)) == control_of(
            Key::Char(control_hints()[at].1[0]),
        ),
{
    reveal_strlit("P");
    reveal_strlit("J");
    reveal_strlit("L");
    reveal_strlit("U");
    reveal_strlit("I");
    reveal_strlit("M");
    reveal_strlit("N");
    reveal_strlit("Q");
}

/// The number that the overlay gives to one of the first five candidates is the key that
/// chooses it.
pub proof fn numbers_choose_what_they_stand_for(index: nat)
    requires
        index < 5,
    ensures
        text::decimal(index + 1).len() == 1,
        control_of(Key::Char(text::decimal(index + 1)[0])) == Some(
            Control::SelectUpNext(index as usize),
        ),
{
}

/// The minutes of an hour, counted in two ways.
proof fn lemma_minutes(total: nat)
    ensures
        total / 60 % 60 == (total % 3600) / 60,
        total < 3600 <==> total / 3600 == 0,
{
}

/// Where the colons of a timestamp stand.
proof fn lemma_timestamp_colons(total: nat)
    ensures
        ({
            let shown = timestamp(total);
            &&& shown[shown.len() - 3] == ':'
            &&& total / 3600 > 0 ==> shown[shown.len() - 6] == ':'
        }),
{
    reveal_strlit(":");
    let hours = text::two_digits(total / 3600);
    let minutes = text::two_digits((total % 3600) / 60);
    let seconds = text::two_digits(total % 60);
    text::two_digits_read_back((total % 3600) / 60);
    text::two_digits_read_back(total % 60);
    assert(minutes.len() == 2);
    assert(seconds.len() == 2);
    if total / 3600 > 0 {
        assert(timestamp(total) =~= hours + ":"@ + (minutes + ":"@ + seconds));
    }
}

/// A timestamp gives the seconds as its last two characters, before them a colon and the
/// minutes in two characters; hours stand before another colon, exactly if there are any.
pub proof fn timestamps_give_hours_minutes_and_seconds(total: nat)
    ensures
        ({
            let shown = timestamp(total);
            let end = shown.len() as int;
            &&& total < 3600 ==> end == 5
            &&& total >= 3600 ==> end >= 8
            &&& text::decimal_value(shown.subrange(end - 2, end)) == total % 60
            &&& shown[end - 3] == ':'
            &&& text::decimal_value(shown.subrange(end - 5, end - 3)) == total / 60 % 60
            &&& total >= 3600 ==> shown[end - 6] == ':'
            &&& total >= 3600 ==> text::decimal_value(shown.subrange(0, end - 6)) == total / 3600
        }),
{
    lemma_minutes(total);
    lemma_timestamp_parts(total);
    lemma_timestamp_colons(total);
    let shown = timestamp(total);
    let end = shown.len() as int;
    assert(shown.subrange(end - 2, end) =~= shown.skip(end - 2));
    if total >= 3600 {
        assert(shown.subrange(0, end - 6) =~= shown.take(end - 6));
    }
}

/// The status says whether the playback is paused, whether it is muted or not.
pub proof fn status_says_whether_it_is_paused(
    state: StateView,
    readout: Readout,
    queue_status: Option<Seq<char>>,
    overlay: Option<OverlayModel>,
)
    ensures
        state.paused ==> frame(state, readout, queue_status, overlay).status == "Paused"@,
        !state.paused ==> frame(state, readout, queue_status, overlay).status == "Playing"@,
{
}

/// The volume is shown in percent, and marked as muted exactly if it is, whether the
/// playback is paused or not.
pub proof fn volume_says_whether_it_is_muted(
    state: StateView,
    readout: Readout,
    queue_status: Option<Seq<char>>,
    overlay: Option<OverlayModel>,
)
    ensures
        state.muted ==> frame(state, readout, queue_status, overlay).volume
            == readout.volume_percent@ + "% (muted)"@,
        !state.muted ==> frame(state, readout, queue_status, overlay).volume
            == readout.volume_percent@ + "%"@,
{
}

/// The title, the line about the next video and the overlay are shown as they are, and the
/// position is written as a timestamp, as is the duration where it is known.
pub proof fn frames_show_what_they_are_given(
    state: StateView,
    readout: Readout,
    queue_status: Option<Seq<char>>,
    overlay: Option<OverlayModel>,
)
    ensures
        ({
            let shown = frame(state, readout, queue_status, overlay);
            &&& shown.title == state.title
            &&& shown.queue_status == queue_status
            &&& shown.overlay == overlay
            &&& shown.elapsed == timestamp(readout.elapsed_seconds as nat)
            &&& state.duration is Some ==> shown.total == timestamp(readout.total_seconds as nat)
            &&& state.duration is None ==> shown.total == "--:--"@
        }),
{
}

/// The progress that is shown is what has been played, within its limits, wherever the
/// duration is known and positive; else it is none.
pub proof fn progress_is_what_has_been_played(
    state: StateView,
    readout: Readout,
    queue_status: Option<Seq<char>>,
    overlay: Option<OverlayModel>,
    duration: Double,
)
    ensures
        ({
            let shown = frame(state, readout, queue_status, overlay).progress_ratio;
            let positive = 0 < duration.bits <= 0x7ff0_0000_0000_0000;
            &&& state.duration == Some(duration) && positive && readout.played.bits
                <= 0x3ff0_0000_0000_0000 ==> shown == readout.played
            &&& state.duration == Some(duration) && positive && 0x3ff0_0000_0000_0000
                <= readout.played.bits <= 0x7ff0_0000_0000_0000 ==> shown.bits
                == 0x3ff0_0000_0000_0000
            &&& state.duration == Some(duration) && positive && 0x8000_0000_0000_0000
                < readout.played.bits <= 0xfff0_0000_0000_0000 ==> shown.bits == 0
            &&& state.duration == Some(duration) && !positive ==> shown.bits == 0
            &&& state.duration is None ==> shown.bits == 0
        }),
{
}

/// A text that is too long for its width ends with an ellipsis where four characters fit,
/// and is simply cut where they do not.
pub proof fn long_texts_end_with_an_ellipsis(text: Seq<char>, max_width: nat)
    requires
        max_width < text.len(),
    ensures
        max_width > 3 ==> fitted(text, max_width) == text.subrange(0, max_width - 3) + seq![
            '.',
            '.',
            '.',
        ],
        max_width <= 3 ==> fitted(text, max_width) == text.subrange(0, max_width as int),
{
    reveal_strlit("...");
    if max_width > 3 {
        assert(fitted(text, max_width) =~= text.subrange(0, max_width - 3) + seq!['.', '.', '.']);
    } else {
        assert(fitted(text, max_width) =~= text.subrange(0, max_width as int));
    }
}

/// What stands in the middle has as much room before it as behind it, or one place less; what
/// is too wide starts at the front.
pub proof fn centering_leaves_equal_room(width: nat, text_width: nat)
    ensures
        text_width <= width ==> {
            let before = centering(width, text_width);
            let behind = width - text_width - before;
            behind == before || behind == before + 1
        },
        text_width >= width ==> centering(width, text_width) == 0,
{
}

/// A cell holds its text, cut to its width, in the middle, and spaces around it.
pub proof fn cells_hold_their_text_in_the_middle(text: Seq<char>, width: nat, at: int)
    requires
        0 <= at < width,
    ensures
        ({
            let content = fitted(text, width);
            let left = centering(width, content.len());
            &&& left <= at < left + content.len() ==> cell(text, width)[at] == content[at - left]
            &&& !(left <= at < left + content.len()) ==> cell(text, width)[at] == ' '
        }),
{
    fitted_text_fits(text, width);
}

/// Controls side by side stand each in its own cell: its label in a row of labels, its key
/// in a row of keys.
pub proof fn controls_stand_in_their_cells(
    items: Seq<(Seq<char>, Seq<char>)>,
    cell_width: nat,
    label_row: bool,
    at: int,
)
    requires
        0 <= at < items.len(),
    ensures
        at * cell_width + cell_width <= cells(items, cell_width, label_row).len(),
        label_row ==> cells(items, cell_width, label_row).subrange(
            at * cell_width,
            at * cell_width + cell_width,
        ) == cell(items[at].0, cell_width),
        !label_row ==> cells(items, cell_width, label_row).subrange(
            at * cell_width,
            at * cell_width + cell_width,
        ) == cell(items[at].1, cell_width),
    decreases items.len(),
{
    let rest = items.drop_last();
    let row = cells(items, cell_width, label_row);
    let before = cells(rest, cell_width, label_row);
    let text = if label_row {
        items.last().0
    } else {
        items.last().1
    };
    cells_have_their_width(rest, cell_width, label_row);
    cells_have_their_width(items, cell_width, label_row);
    cell_has_its_width(text, cell_width);
    assert(0 <= at * cell_width) by (nonlinear_arith)
        requires
            0 <= at,
    ;
    if at < rest.len() {
        controls_stand_in_their_cells(rest, cell_width, label_row, at);
        assert(row.subrange(at * cell_width, at * cell_width + cell_width) =~= before.subrange(
            at * cell_width,
            at * cell_width + cell_width,
        ));
    } else {
        assert(at == rest.len());
        assert(row.subrange(at * cell_width, at * cell_width + cell_width) =~= cell(
            text,
            cell_width,
        ));
    }
}

/// A row of controls is its cells but for the white space at the end.
pub proof fn rows_lose_only_white_space(
    items: Seq<(Seq<char>, Seq<char>)>,
    cell_width: nat,
    label_row: bool,
)
    ensures
        ({
            let row = control_row(items, cell_width, label_row);
            let all = cells(items, cell_width, label_row);
            &&& row.is_prefix_of(all)
            &&& row.len() > 0 ==> !text::is_white_space(row.last())
            &&& forall|i: int|
                row.len() <= i < all.len() ==> text::is_white_space(#[trigger] all[i])
        }),
{
    text::lemma_trimmed_end(cells(items, cell_width, label_row));
}

/// The wider the screen, the more controls stand side by side: one, and from 44, 64 and 88
/// columns on two, three and four.
pub proof fn wider_rows_take_more_controls(width: int)
    ensures
        width < 44 ==> controls_per_row(width) == 1,
        44 <= width < 64 ==> controls_per_row(width) == 2,
        64 <= width < 88 ==> controls_per_row(width) == 3,
        88 <= width ==> controls_per_row(width) == 4,
{
}

/// The cells of a row share its width equally, and none is narrower than twelve.
pub proof fn cells_share_the_width(width: int, count: int)
    requires
        0 <= width,
        0 < count,
    ensures
        cell_width(width, count) >= 12,
        cell_width(width, count) > 12 ==> cell_width(width, count) * count <= width,
        width < (cell_width(width, count) + 1) * count,
{
    let even = width / count;
    assert(even * count <= width < (even + 1) * count) by (nonlinear_arith)
        requires
            0 <= width,
            0 < count,
            even == width / count,
    ;
    if even < 12 {
        assert((even + 1) * count <= 13 * count) by (nonlinear_arith)
            requires
                even < 12,
                0 < count,
        ;
    }
}

/// The rows of controls take the controls in their order, a group at a time: each group has a
/// row of labels and below it a row of its keys, in cells that share the width.
pub proof fn groups_of_controls_follow_each_other(
    width: int,
    per_row: nat,
    controls: Seq<(Seq<char>, Seq<char>)>,
    group: int,
)
    requires
        per_row > 0,
        0 <= group,
        group * per_row < controls.len(),
    ensures
        ({
            let from = group * per_row;
            let to = if from + per_row < controls.len() {
                from + per_row
            } else {
                controls.len() as int
            };
            let members = controls.subrange(from, to);
            let rows = rows_of(width, per_row, controls);
            &&& 2 * group + 1 < rows.len()
            &&& rows[2 * group] == control_row(members, cell_width(width, to - from), true)
            &&& rows[2 * group + 1] == control_row(members, cell_width(width, to - from), false)
        }),
    decreases group,
{
    let size = row_size(per_row, controls.len());
    let from = group * per_row;
    let to = if from + per_row < controls.len() {
        from + per_row
    } else {
        controls.len() as int
    };
    if group == 0 {
        assert(from == 0) by (nonlinear_arith)
            requires
                from == group * per_row,
                group == 0,
        ;
        assert(controls.take(size) =~= controls.subrange(from, to));
    } else {
        assert((group - 1) * per_row == from - per_row) by (nonlinear_arith)
            requires
                from == group * per_row,
        ;
        assert(per_row <= from) by (nonlinear_arith)
            requires
                from == group * per_row,
                1 <= group,
        ;
        let rest = controls.skip(size);
        groups_of_controls_follow_each_other(width, per_row, rest, group - 1);
        assert(rest.subrange(from - per_row, to - per_row) =~= controls.subrange(from, to));
    }
}

/// The bar is done from the left for as many places as are filled, and not done behind them.
pub proof fn bar_is_filled_from_the_left(filled: nat, width: nat, at: int)
    requires
        0 <= at < width,
    ensures
        bar(filled, width)[0] == '[',
        bar(filled, width)[at + 1] == if at < filled {
            '#'
        } else {
            '-'
        },
        bar(filled, width)[width as int + 1] == ']',
{
    reveal_strlit("[");
    reveal_strlit("]");
}

/// The bar is eight places narrower than what is shown, but not below 12 places nor above 72;
/// what is shown is four columns narrower than the screen, but not below 36 nor above 96.
pub proof fn widths_follow_the_screen(width: int)
    ensures
        width - 8 <= 12 ==> bar_width(width) == 12,
        12 <= width - 8 <= 72 ==> bar_width(width) == width - 8,
        72 <= width - 8 ==> bar_width(width) == 72,
        width - 4 <= 36 ==> content_width(width) == 36,
        36 <= width - 4 <= 96 ==> content_width(width) == width - 4,
        96 <= width - 4 ==> content_width(width) == 96,
{
}

/// The playback comes first: its title, the bar, the position and the whole, the status and
/// the volume, with empty lines between them; then the line about the next video, where
/// there is one, and an empty line.
pub proof fn playback_is_shown_first(view: FrameModel, content_width: int, filled: nat)
    ensures
        ({
            let lines = composed(view, content_width, filled);
            let next: int = if view.queue_status is Some {
                7
            } else {
                6
            };
            &&& lines.len() > next
            &&& lines[0] == LineView { text: view.title, style: LineStyle::Normal }
            &&& lines[1].text.len() == 0
            &&& lines[2].text == bar(filled, bar_width(content_width))
            &&& lines[3].text == view.elapsed + " / "@ + view.total
            &&& lines[4].text.len() == 0
            &&& lines[5].text == "Status: "@ + view.status + "  Volume: "@ + view.volume
            &&& view.queue_status is Some ==> lines[6].text == view.queue_status->0
            &&& lines[next].text.len() == 0
            &&& forall|i: int|
                0 <= i <= next ==> (#[trigger] lines[i]).style == LineStyle::Normal
        }),
{
}

/// Below the playback, an overlay shows its heading and its message and then, each after an
/// empty line, all its items and all its help lines; nothing follows. Only the item that is
/// selected stands out.
pub proof fn overlay_is_shown_below(
    view: FrameModel,
    overlay: OverlayModel,
    content_width: int,
    filled: nat,
    at: int,
)
    requires
        view.overlay == Some(overlay),
    ensures
        ({
            let lines = composed(view, content_width, filled);
            let start: int = if view.queue_status is Some {
                8
            } else {
                7
            };
            let items = overlay.items.len() as int;
            let help = overlay.help_lines.len() as int;
            let first_item = start + 3;
            let first_help: int = start + 3 + if items > 0 {
                items + 1
            } else {
                0
            };
            &&& lines[start] == LineView { text: overlay.heading, style: LineStyle::Normal }
            &&& lines[start + 1] == LineView { text: overlay.message, style: LineStyle::Normal }
            &&& items > 0 ==> lines[first_item - 1].text.len() == 0
            &&& 0 <= at < items ==> lines[first_item + at].text == overlay.items[at].text
            &&& 0 <= at < items ==> (lines[first_item + at].style == LineStyle::Selected
                <==> overlay.items[at].selected)
            &&& help > 0 ==> lines[first_help - 1].text.len() == 0
            &&& 0 <= at < help ==> lines[first_help + at] == LineView {
                text: overlay.help_lines[at],
                style: LineStyle::Normal,
            }
            &&& help > 0 ==> lines.len() == first_help + help
            &&& help == 0 ==> lines.len() == first_help - 1
        }),
{
    let items = Seq::new(overlay.items.len(), |i: int| item_line(overlay.items[i]));
    let help = Seq::new(overlay.help_lines.len(), |i: int| normal_line(overlay.help_lines[i]));
    assert(items.len() == overlay.items.len());
    assert(help.len() == overlay.help_lines.len());
}

/// Below the playback, where there is no overlay, the controls are shown, in rows for the
/// width; nothing follows.
pub proof fn controls_are_shown_below(
    view: FrameModel,
    content_width: int,
    filled: nat,
    at: int,
)
    requires
        view.overlay is None,
    ensures
        ({
            let lines = composed(view, content_width, filled);
            let rows = rows_of(content_width, controls_per_row(content_width), control_hints());
            let start: int = if view.queue_status is Some {
                8
            } else {
                7
            };
            &&& lines.len() == start + rows.len()
            &&& 0 <= at < rows.len() ==> lines[start + at] == LineView {
                text: rows[at],
                style: LineStyle::Normal,
            }
        }),
{
}

/// The lines of a picture stand one below the other, in the middle of the screen: as many
/// rows are free above as below, or one less, and each line has as much room before as
/// behind it. They keep their texts, cut to the width, and their styles.
pub proof fn lines_stand_in_the_middle(lines: Seq<LineView>, columns: int, rows: int, at: int)
    requires
        36 <= columns,
        0 <= at < lines.len(),
    ensures
        ({
            let shown = picture(lines, columns, rows);
            let width = content_width(columns);
            let above = shown[0].row;
            let below = rows - above - lines.len();
            let strip = (columns - width) / 2;
            &&& shown.len() == lines.len()
            &&& shown[at].row == above + at
            &&& lines.len() <= rows ==> below == above || below == above + 1
            &&& lines.len() >= rows ==> above == 0
            &&& shown[at].text == fitted(lines[at].text, width)
            &&& shown[at].style == lines[at].style
            &&& shown[at].column == strip + centering(width, shown[at].text.len())
        }),
{
}

/// On a screen narrower than the picture, the lines start at its left edge.
pub proof fn narrow_screens_show_the_left_edge(
    lines: Seq<LineView>,
    columns: int,
    rows: int,
    at: int,
)
    requires
        0 <= columns <= 36,
        0 <= at < lines.len(),
    ensures
        ({
            let shown = picture(lines, columns, rows)[at];
            &&& shown.column == centering(36, shown.text.len())
            &&& shown.text == fitted(lines[at].text, 36)
            &&& shown.style == lines[at].style
            &&& rows <= lines.len() ==> shown.row == at
        }),
{
}

/// Each letter asks for its control, be it small or capital; the digits from 1 to 5 pick a
/// candidate by its number, and no other character asks for anything.
pub proof fn characters_ask_for_their_controls(c: char)
    ensures
        c == 'p' || c == 'P' ==> control_of(Key::Char(c)) == Some(Control::TogglePause),
        c == 'j' || c == 'J' ==> control_of(Key::Char(c)) == Some(Control::SeekBackward),
        c == 'l' || c == 'L' ==> control_of(Key::Char(c)) == Some(Control::SeekForward),
        c == 'u' || c == 'U' ==> control_of(Key::Char(c)) == Some(Control::VolumeDown),
        c == 'i' || c == 'I' ==> control_of(Key::Char(c)) == Some(Control::VolumeUp),
        c == 'm' || c == 'M' ==> control_of(Key::Char(c)) == Some(Control::ToggleMute),
        c == 'n' || c == 'N' ==> control_of(Key::Char(c)) == Some(Control::ToggleUpNext),
        c == 'q' || c == 'Q' ==> control_of(Key::Char(c)) == Some(Control::Quit),
        '1' <= c <= '5' ==> control_of(Key::Char(c)) == Some(
            Control::SelectUpNext((c as int - '1' as int) as usize),
        ),
        control_of(Key::Char(c)) is Some ==> c == 'p' || c == 'P' || c == 'j' || c == 'J' || c
            == 'l' || c == 'L' || c == 'u' || c == 'U' || c == 'i' || c == 'I' || c == 'm' || c
            == 'M' || c == 'n' || c == 'N' || c == 'q' || c == 'Q' || '1' <= c <= '5',
{
}

/// The other keys ask for their controls.
pub proof fn other_keys_ask_for_their_controls(key: Key)
    requires
        !(key is Char),
    ensures
        key is Enter ==> control_of(key) == Some(Control::ConfirmUpNext),
        key is Esc ==> control_of(key) == Some(Control::CloseOverlay),
        key is Up || key is Left ==> control_of(key) == Some(Control::MoveUpNext(-1i32)),
        key is Down || key is Right ==> control_of(key) == Some(Control::MoveUpNext(1i32)),
        key is Other ==> control_of(key) is None,
{
}

/// The controls that are hinted at are named after what their keys do.
pub proof fn hints_name_what_their_keys_do()
    ensures
        control_hints().len() == 8,
        control_hints()[0] == ("Play/Pause"@, seq!['P']),
        control_of(Key::Char('P')) == Some(Control::TogglePause),
        control_hints()[1] == ("Back 30"@, seq!['J']),
        control_of(Key::Char('J')) == Some(Control::SeekBackward),
        control_hints()[2] == ("Fwd 30"@, seq!['L']),
        control_of(Key::Char('L')) == Some(Control::SeekForward),
        control_hints()[3] == ("Volume -"@, seq!['U']),
        control_of(Key::Char('U')) == Some(Control::VolumeDown),
        control_hints()[4] == ("Volume +"@, seq!['I']),
        control_of(Key::Char('I')) == Some(Control::VolumeUp),
        control_hints()[5] == ("Mute"@, seq!['M']),
        control_of(Key::Char('M')) == Some(Control::ToggleMute),
        control_hints()[6] == ("Up Next"@, seq!['N']),
        control_of(Key::Char('N')) == Some(Control::ToggleUpNext),
        control_hints()[7] == ("Quit"@, seq!['Q']),
        control_of(Key::Char('Q')) == Some(Control::Quit),
{
    reveal_strlit("P");
    reveal_strlit("J");
    reveal_strlit("L");
    reveal_strlit("U");
    reveal_strlit("I");
    reveal_strlit("M");
    reveal_strlit("N");
    reveal_strlit("Q");
    assert("P"@ =~= seq!['P'] && "J"@ =~= seq!['J'] && "L"@ =~= seq!['L'] && "U"@ =~= seq!['U']);
    assert("I"@ =~= seq!['I'] && "M"@ =~= seq!['M'] && "N"@ =~= seq!['N'] && "Q"@ =~= seq!['Q']);
}

} // verus!
