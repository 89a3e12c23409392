//! What each step shows: lines of styled text, as plain data for the
//! program to draw.

use vstd::prelude::*;
use crate::catalog::{code_of, label_of, lang_code, lang_label, LANG_COUNT};
use crate::command::command_line;
use crate::layout::{list_areas, list_areas_of, screen_areas, Area, ListAreas, ScreenAreas};
use crate::session::{Session, SessionView};
use crate::wizard::{App, BurnFormat, BurnUse, SourceMode, Step, WizardState};

verus! {

/// The colour of a piece of text.
#[derive(Clone, Copy, Debug, PartialEq, Eq, Structural)]
pub enum Tone {
    Plain,
    Cyan,
    Yellow,
    Green,
    Gray,
    DarkGray,
    Red,
}

/// A piece of text in one style.
#[derive(Clone, Debug, PartialEq, Eq)]
pub struct Span {
    pub text: String,
    pub tone: Tone,
    pub bold: bool,
}

/// What a `Span` stands for.
pub struct SpanView {
    pub text: Seq<char>,
    pub tone: Tone,
    pub bold: bool,
}

impl View for Span {
    type V = SpanView;

    open spec fn view(&self) -> SpanView {
        SpanView { text: self.text@, tone: self.tone, bold: self.bold }
    }
}

impl DeepView for Span {
    type V = SpanView;

    open spec fn deep_view(&self) -> SpanView {
        self@
    }
}

/// One line on the screen: its spans from left to right.
pub type Line = Vec<Span>;

/// What a `Line` stands for.
pub type LineView = Seq<SpanView>;

/// How lines longer than the area are broken.
#[derive(Clone, Copy, Debug, PartialEq, Eq, Structural)]
pub enum Wrap {
    /// Not at all.
    Off,
    /// At the edge, keeping leading white space.
    Keep,
    /// At the edge, dropping leading white space.
    Trim,
}

/// Text in the default style.
pub open spec fn plain(text: Seq<char>) -> SpanView {
    SpanView { text, tone: Tone::Plain, bold: false }
}

/// Coloured text.
pub open spec fn toned(text: Seq<char>, tone: Tone) -> SpanView {
    SpanView { text, tone, bold: false }
}

/// Bold text.
pub open spec fn strong(text: Seq<char>, tone: Tone) -> SpanView {
    SpanView { text, tone, bold: true }
}

/// An empty line.
pub open spec fn blank() -> LineView {
    seq![plain(""@)]
}

/// A question: a green mark, then the text, both bold.
pub open spec fn question(text: Seq<char>) -> LineView {
    seq![strong("? "@, Tone::Green), strong(text, Tone::Plain)]
}

/// The keys that a step takes, in words.
pub open spec fn hint_text(step: Step, live: bool) -> Seq<char> {
    match step {
        Step::Mode => "Use Up/Down to choose. Enter to continue. Ctrl+C to quit."@,
        Step::SrcPath => "Type to edit. Enter to continue. Esc to go back. Ctrl+C to quit."@,
        Step::YtUrl => "Enter to continue. Esc to go back. Ctrl+C to quit."@,
        Step::Lang => "Use Up/Down to select. Enter to continue. Esc to go back. Ctrl+C to quit."@,
        Step::Overwrite => "Space to toggle. Enter to continue. Esc to go back. Ctrl+C to quit."@,
        Step::BurnIn => "Space to toggle. Enter to continue. Esc to go back. Ctrl+C to quit."@,
        Step::BurnUse => "Left/Right to choose. Enter to continue. Esc to go back. Ctrl+C to quit."@,
        Step::BurnFormat => "Left/Right to choose. Enter to continue. Esc to go back. Ctrl+C to quit."@,
        Step::Summary => if live {
            "Press Enter to run. Esc to go back. Ctrl+C to quit."@
        } else {
            "Press Enter to generate and exit. Esc to go back. Ctrl+C to quit."@
        },
        Step::Running => "Press x to cancel. Esc to go back once finished. Ctrl+C to quit."@,
    }
}

/// The hint at the foot of a step, in dark gray.
pub open spec fn hint(step: Step, live: bool) -> LineView {
    seq![toned(hint_text(step, live), Tone::DarkGray)]
}

/// One option of a choice: the chosen one carries a yellow mark, the
/// others are indented by its width.
pub open spec fn option_row(label: Seq<char>, chosen: bool) -> LineView {
    if chosen {
        seq![toned("› "@, Tone::Yellow), plain(label)]
    } else {
        seq![plain("  "@ + label)]
    }
}

/// A yes/no answer: `Yes` in green, `No` in gray.
pub open spec fn yes_no(answer: bool) -> LineView {
    if answer {
        seq![toned("Yes"@, Tone::Green)]
    } else {
        seq![toned("No"@, Tone::Gray)]
    }
}

/// A caption followed by an edited text in green.
pub open spec fn field(caption: Seq<char>, text: Seq<char>) -> LineView {
    seq![plain(caption), toned(text, Tone::Green)]
}

fn make_plain(text: &str) -> (span: Span)
    ensures
        span@ == plain(text@),
{
    Span { text: String::from_str(text), tone: Tone::Plain, bold: false }
}

fn make_toned(text: &str, tone: Tone) -> (span: Span)
    ensures
        span@ == toned(text@, tone),
{
    Span { text: String::from_str(text), tone, bold: false }
}

fn make_strong(text: &str, tone: Tone) -> (span: Span)
    ensures
        span@ == strong(text@, tone),
{
    Span { text: String::from_str(text), tone, bold: true }
}

fn line_of_one(span: Span) -> (line: Line)
    ensures
        line.deep_view() == seq![span@],
{
    let mut line: Line = Vec::new();
    line.push(span);
    assert(line.deep_view() =~= seq![span@]);
    line
}

fn line_of_two(first: Span, second: Span) -> (line: Line)
    ensures
        line.deep_view() == seq![first@, second@],
{
    let mut line: Line = Vec::new();
    line.push(first);
    line.push(second);
    assert(line.deep_view() =~= seq![first@, second@]);
    line
}

fn push_line(lines: &mut Vec<Line>, line: Line)
    ensures
        final(lines).deep_view() == old(lines).deep_view().push(line.deep_view()),
{
    lines.push(line);
    assert(lines.deep_view() =~= old(lines).deep_view().push(line.deep_view()));
}

fn no_lines() -> (lines: Vec<Line>)
    ensures
        lines.deep_view() == Seq::<LineView>::empty(),
{
    let lines: Vec<Line> = Vec::new();
    assert(lines.deep_view() =~= Seq::<LineView>::empty());
    lines
}

/// An empty line.
pub fn blank_line() -> (line: Line)
    ensures
        line.deep_view() == blank(),
{
    line_of_one(make_plain(""))
}

/// The line that asks a step's question.
pub fn q_line(text: &str) -> (line: Line)
    ensures
        line.deep_view() == question(text@),
{
    line_of_two(make_strong("? ", Tone::Green), make_strong(text, Tone::Plain))
}

/// The words of the hint for a step. `live` says whether confirming the
/// summary runs the command rather than printing it.
pub fn hint_words(step: Step, live: bool) -> (text: &'static str)
    ensures
        text@ == hint_text(step, live),
{
    match step {
        Step::Mode => "Use Up/Down to choose. Enter to continue. Ctrl+C to quit.",
        Step::SrcPath => "Type to edit. Enter to continue. Esc to go back. Ctrl+C to quit.",
        Step::YtUrl => "Enter to continue. Esc to go back. Ctrl+C to quit.",
        Step::Lang => "Use Up/Down to select. Enter to continue. Esc to go back. Ctrl+C to quit.",
        Step::Overwrite => "Space to toggle. Enter to continue. Esc to go back. Ctrl+C to quit.",
        Step::BurnIn => "Space to toggle. Enter to continue. Esc to go back. Ctrl+C to quit.",
        Step::BurnUse => "Left/Right to choose. Enter to continue. Esc to go back. Ctrl+C to quit.",
        Step::BurnFormat => {
            "Left/Right to choose. Enter to continue. Esc to go back. Ctrl+C to quit."
        },
        Step::Summary => {
            if live {
                "Press Enter to run. Esc to go back. Ctrl+C to quit."
            } else {
                "Press Enter to generate and exit. Esc to go back. Ctrl+C to quit."
            }
        },
        Step::Running => "Press x to cancel. Esc to go back once finished. Ctrl+C to quit.",
    }
}

/// The hint line for the step the wizard stands on.
pub fn hint_line(app: &App, live: bool) -> (line: Line)
    ensures
        line.deep_view() == hint(app@.step, live),
{
    line_of_one(make_toned(hint_words(app.step, live), Tone::DarkGray))
}

fn option_line(label: &str, chosen: bool) -> (line: Line)
    ensures
        line.deep_view() == option_row(label@, chosen),
{
    if chosen {
        line_of_two(make_toned("› ", Tone::Yellow), make_plain(label))
    } else {
        let mut text = String::from_str("  ");
        text.append(label);
        line_of_one(make_plain(text.as_str()))
    }
}

fn yes_no_line(answer: bool) -> (line: Line)
    ensures
        line.deep_view() == yes_no(answer),
{
    if answer {
        line_of_one(make_toned("Yes", Tone::Green))
    } else {
        line_of_one(make_toned("No", Tone::Gray))
    }
}

/// Lines of text shown as one block.
#[derive(Clone, Debug, PartialEq, Eq)]
pub struct Paragraph {
    pub lines: Vec<Line>,
    pub wrap: Wrap,
}

/// What a `Paragraph` stands for.
pub struct ParagraphView {
    pub lines: Seq<LineView>,
    pub wrap: Wrap,
}

impl View for Paragraph {
    type V = ParagraphView;

    open spec fn view(&self) -> ParagraphView {
        ParagraphView { lines: self.lines.deep_view(), wrap: self.wrap }
    }
}

/// A list between a heading and a footer, each in its own area.
#[derive(Clone, Debug, PartialEq, Eq)]
pub struct ListScreen {
    pub heading: Vec<Line>,
    pub items: Vec<Line>,
    pub footer: Vec<Line>,
    pub areas: ListAreas,
}

/// What a `ListScreen` stands for.
pub struct ListScreenView {
    pub heading: Seq<LineView>,
    pub items: Seq<LineView>,
    pub footer: Seq<LineView>,
    pub areas: ListAreas,
}

impl View for ListScreen {
    type V = ListScreenView;

    open spec fn view(&self) -> ListScreenView {
        ListScreenView {
            heading: self.heading.deep_view(),
            items: self.items.deep_view(),
            footer: self.footer.deep_view(),
            areas: self.areas,
        }
    }
}

/// What fills the body of the screen.
#[derive(Clone, Debug, PartialEq, Eq)]
pub enum Body {
    Text(Paragraph),
    List(ListScreen),
}

/// What a `Body` stands for.
pub enum BodyView {
    Text(ParagraphView),
    List(ListScreenView),
}

impl View for Body {
    type V = BodyView;

    open spec fn view(&self) -> BodyView {
        match self {
            Body::Text(p) => BodyView::Text(p@),
            Body::List(l) => BodyView::List(l@),
        }
    }
}

/// The whole screen: the title line and the body, each with its area.
#[derive(Clone, Debug, PartialEq, Eq)]
pub struct Screen {
    pub title: Line,
    pub areas: ScreenAreas,
    pub body: Body,
}

/// What a `Screen` stands for.
pub struct ScreenView {
    pub title: LineView,
    pub areas: ScreenAreas,
    pub body: BodyView,
}

impl View for Screen {
    type V = ScreenView;

    open spec fn view(&self) -> ScreenView {
        ScreenView { title: self.title.deep_view(), areas: self.areas, body: self.body@ }
    }
}

/// The title line: the program's name in bold cyan, then what it is.
pub open spec fn title() -> LineView {
    seq![
        strong("subtitle-tui "@, Tone::Cyan),
        plain("— an interactive wizard for subtitle generator"@),
    ]
}

/// A two-way choice under its question: the question, the two options with
/// the chosen one marked, and the hint.
pub open spec fn choice_lines(
    asks: Seq<char>,
    first: Seq<char>,
    second: Seq<char>,
    second_chosen: bool,
    foot: LineView,
) -> Seq<LineView> {
    seq![
        question(asks),
        blank(),
        option_row(first, !second_chosen),
        option_row(second, second_chosen),
        blank(),
        foot,
    ]
}

/// A single answer under its question, and the hint.
pub open spec fn answer_lines(asks: Seq<char>, answer: LineView, foot: LineView) -> Seq<LineView> {
    seq![question(asks), blank(), answer, blank(), foot]
}

/// The first step: local folder or YouTube.
pub open spec fn mode_screen(w: WizardState) -> ParagraphView {
    ParagraphView {
        lines: choice_lines(
            "How do you want to get videos?"@,
            "Use a local folder"@,
            "Download from YouTube"@,
            w.mode == SourceMode::YouTube,
            hint(w.step, false),
        ),
        wrap: Wrap::Trim,
    }
}

/// The question of the path step, which depends on the mode.
pub open spec fn path_question(mode: SourceMode) -> Seq<char> {
    match mode {
        SourceMode::Local => "Where are the videos located?"@,
        SourceMode::YouTube => "Where should downloaded videos be saved?"@,
    }
}

/// The path step.
pub open spec fn src_path_screen(w: WizardState) -> ParagraphView {
    ParagraphView {
        lines: answer_lines(
            path_question(w.mode),
            field("Path: "@, w.src_path),
            hint(w.step, false),
        ),
        wrap: Wrap::Keep,
    }
}

/// The URL step.
pub open spec fn yt_url_screen(w: WizardState) -> ParagraphView {
    ParagraphView {
        lines: answer_lines("Paste a YouTube URL"@, field("URL: "@, w.yt_url), hint(w.step, false)),
        wrap: Wrap::Keep,
    }
}

/// The overwrite step.
pub open spec fn overwrite_screen(w: WizardState) -> ParagraphView {
    ParagraphView {
        lines: answer_lines(
            "Overwrite existing results if found?"@,
            yes_no(w.overwrite),
            hint(w.step, false),
        ),
        wrap: Wrap::Off,
    }
}

/// The burn-in step.
pub open spec fn burn_in_screen(w: WizardState) -> ParagraphView {
    ParagraphView {
        lines: answer_lines(
            "Do you want to burn subtitles into the video?"@,
            yes_no(w.burn_in),
            hint(w.step, false),
        ),
        wrap: Wrap::Off,
    }
}

/// The burn source step.
pub open spec fn burn_use_screen(w: WizardState) -> ParagraphView {
    ParagraphView {
        lines: choice_lines(
            "Which subtitles should be burned?"@,
            "Translated"@,
            "Original"@,
            w.burn_use == BurnUse::Original,
            hint(w.step, false),
        ),
        wrap: Wrap::Off,
    }
}

/// The burn format step.
pub open spec fn burn_format_screen(w: WizardState) -> ParagraphView {
    ParagraphView {
        lines: choice_lines(
            "What output format for burned video?"@,
            "MP4"@,
            "WebM"@,
            w.burn_format == BurnFormat::Webm,
            hint(w.step, false),
        ),
        wrap: Wrap::Off,
    }
}

/// What confirming the summary does, in words.
pub open spec fn summary_prompt(live: bool) -> Seq<char> {
    if live {
        "Press Enter to run the command"@
    } else {
        "Press Enter to generate command and exit"@
    }
}

/// The lines that report a failed launch: none where there is no message.
pub open spec fn error_lines(message: Option<Seq<char>>) -> Seq<LineView> {
    match message {
        Some(text) => seq![blank(), seq![toned(text, Tone::Red)]],
        None => Seq::empty(),
    }
}

/// The summary: the command in cyan under its caption, what confirming
/// does, the message of a failed launch if there is one, and the hint.
pub open spec fn summary_screen(w: WizardState, in_project: bool, live: bool) -> ParagraphView {
    ParagraphView {
        lines: seq![
            seq![strong("Summary"@, Tone::Plain)],
            blank(),
            seq![plain("Generated command:"@)],
            blank(),
            seq![toned(command_line(w, in_project), Tone::Cyan)],
            blank(),
            seq![plain(summary_prompt(live))],
        ] + error_lines(w.last_error) + seq![blank(), hint(w.step, live)],
        wrap: Wrap::Keep,
    }
}

/// The text of a language entry: its label, then its code in brackets.
pub open spec fn lang_text(index: int) -> Seq<char> {
    label_of(index) + " ("@ + code_of(index) + ")"@
}

/// A language entry; the chosen one is yellow.
pub open spec fn lang_row(index: int, chosen: int) -> LineView {
    seq![
        toned(
            lang_text(index),
            if index == chosen {
                Tone::Yellow
            } else {
                Tone::Plain
            },
        ),
    ]
}

/// The language step, laid out in `area`.
pub open spec fn lang_screen(w: WizardState, area: Area) -> ListScreenView {
    ListScreenView {
        heading: seq![question("What's the target language?"@), blank()],
        items: Seq::new(LANG_COUNT as nat, |i: int| lang_row(i, w.lang_index)),
        footer: seq![blank(), hint(w.step, false)],
        areas: list_areas_of(area),
    }
}

/// The last `rows` lines of `log`, or all of it where it has no more.
pub open spec fn log_tail(log: Seq<Seq<char>>, rows: int) -> Seq<Seq<char>> {
    if rows <= 0 {
        Seq::empty()
    } else if log.len() <= rows {
        log
    } else {
        log.skip(log.len() - rows)
    }
}

/// The heading of the running step, which says whether the run is over.
pub open spec fn running_question(finished: bool) -> Seq<char> {
    if finished {
        "The command has finished"@
    } else {
        "Running the command"@
    }
}

/// The running step, laid out in `area`: the newest lines of the log, as
/// many as the list area has rows.
pub open spec fn running_screen(session: Option<SessionView>, area: Area) -> ListScreenView {
    let areas = list_areas_of(area);
    let log = match session {
        Some(s) => s.log,
        None => Seq::empty(),
    };
    let finished = match session {
        Some(s) => s.finished,
        None => true,
    };
    ListScreenView {
        heading: seq![question(running_question(finished)), blank()],
        items: log_tail(log, areas.list.height as int).map_values(|l: Seq<char>| seq![plain(l)]),
        footer: seq![blank(), hint(Step::Running, true)],
        areas,
    }
}

/// The body for the step the wizard stands on.
pub open spec fn body_of(
    w: WizardState,
    session: Option<SessionView>,
    area: Area,
    in_project: bool,
    live: bool,
) -> BodyView {
    match w.step {
        Step::Mode => BodyView::Text(mode_screen(w)),
        Step::SrcPath => BodyView::Text(src_path_screen(w)),
        Step::YtUrl => BodyView::Text(yt_url_screen(w)),
        Step::Lang => BodyView::List(lang_screen(w, area)),
        Step::Overwrite => BodyView::Text(overwrite_screen(w)),
        Step::BurnIn => BodyView::Text(burn_in_screen(w)),
        Step::BurnUse => BodyView::Text(burn_use_screen(w)),
        Step::BurnFormat => BodyView::Text(burn_format_screen(w)),
        Step::Summary => BodyView::Text(summary_screen(w, in_project, live)),
        Step::Running => BodyView::List(running_screen(session, area)),
    }
}

/// The whole screen, given how it is divided.
pub open spec fn screen_of(
    w: WizardState,
    session: Option<SessionView>,
    areas: ScreenAreas,
    in_project: bool,
    live: bool,
) -> ScreenView {
    ScreenView { title: title(), areas, body: body_of(w, session, areas.body, in_project, live) }
}

fn choice(
    asks: &str,
    first: &str,
    second: &str,
    second_chosen: bool,
    foot: Line,
) -> (lines: Vec<Line>)
    ensures
        lines.deep_view() == choice_lines(
            asks@,
            first@,
            second@,
            second_chosen,
            foot.deep_view(),
        ),
{
    let mut lines = no_lines();
    push_line(&mut lines, q_line(asks));
    push_line(&mut lines, blank_line());
    push_line(&mut lines, option_line(first, !second_chosen));
    push_line(&mut lines, option_line(second, second_chosen));
    push_line(&mut lines, blank_line());
    push_line(&mut lines, foot);
    assert(lines.deep_view() =~= choice_lines(
        asks@,
        first@,
        second@,
        second_chosen,
        foot.deep_view(),
    ));
    lines
}

fn answer(asks: &str, reply: Line, foot: Line) -> (lines: Vec<Line>)
    ensures
        lines.deep_view() == answer_lines(asks@, reply.deep_view(), foot.deep_view()),
{
    let mut lines = no_lines();
    push_line(&mut lines, q_line(asks));
    push_line(&mut lines, blank_line());
    push_line(&mut lines, reply);
    push_line(&mut lines, blank_line());
    push_line(&mut lines, foot);
    assert(lines.deep_view() =~= answer_lines(asks@, reply.deep_view(), foot.deep_view()));
    lines
}

/// Draws the first step.
pub fn render_mode(app: &App) -> (screen: Paragraph)
    ensures
        screen@ == mode_screen(app@),
{
    let second = match app.mode {
        SourceMode::Local => false,
        SourceMode::YouTube => true,
    };
    Paragraph {
        lines: choice(
            "How do you want to get videos?",
            "Use a local folder",
            "Download from YouTube",
            second,
            hint_line(app, false),
        ),
        wrap: Wrap::Trim,
    }
}

/// Draws the path step.
pub fn render_src_path(app: &App) -> (screen: Paragraph)
    ensures
        screen@ == src_path_screen(app@),
{
    let asks = match app.mode {
        SourceMode::Local => "Where are the videos located?",
        SourceMode::YouTube => "Where should downloaded videos be saved?",
    };
    let reply = line_of_two(make_plain("Path: "), make_toned(app.src_path.as_str(), Tone::Green));
    Paragraph { lines: answer(asks, reply, hint_line(app, false)), wrap: Wrap::Keep }
}

/// Draws the URL step.
pub fn render_yt_url(app: &App) -> (screen: Paragraph)
    ensures
        screen@ == yt_url_screen(app@),
{
    let reply = line_of_two(make_plain("URL: "), make_toned(app.yt_url.as_str(), Tone::Green));
    Paragraph {
        lines: answer("Paste a YouTube URL", reply, hint_line(app, false)),
        wrap: Wrap::Keep,
    }
}

/// Draws the overwrite step.
pub fn render_overwrite(app: &App) -> (screen: Paragraph)
    ensures
        screen@ == overwrite_screen(app@),
{
    Paragraph {
        lines: answer(
            "Overwrite existing results if found?",
            yes_no_line(app.overwrite),
            hint_line(app, false),
        ),
        wrap: Wrap::Off,
    }
}

/// Draws the burn-in step.
pub fn render_burnin(app: &App) -> (screen: Paragraph)
    ensures
        screen@ == burn_in_screen(app@),
{
    Paragraph {
        lines: answer(
            "Do you want to burn subtitles into the video?",
            yes_no_line(app.burn_in),
            hint_line(app, false),
        ),
        wrap: Wrap::Off,
    }
}

/// Draws the burn source step.
pub fn render_burn_use(app: &App) -> (screen: Paragraph)
    ensures
        screen@ == burn_use_screen(app@),
{
    let second = match app.burn_use {
        BurnUse::Translated => false,
        BurnUse::Original => true,
    };
    Paragraph {
        lines: choice(
            "Which subtitles should be burned?",
            "Translated",
            "Original",
            second,
            hint_line(app, false),
        ),
        wrap: Wrap::Off,
    }
}

/// Draws the burn format step.
pub fn render_burn_format(app: &App) -> (screen: Paragraph)
    ensures
        screen@ == burn_format_screen(app@),
{
    let second = match app.burn_format {
        BurnFormat::Mp4 => false,
        BurnFormat::Webm => true,
    };
    Paragraph {
        lines: choice(
            "What output format for burned video?",
            "MP4",
            "WebM",
            second,
            hint_line(app, false),
        ),
        wrap: Wrap::Off,
    }
}

/// Draws the summary. `in_project` says whether the project marker was
/// found.
pub fn render_summary(app: &App, in_project: bool, live: bool) -> (screen: Paragraph)
    requires
        app@.wf(),
    ensures
        screen@ == summary_screen(app@, in_project, live),
{
    let command = app.build_command(in_project);
    let prompt = if live {
        "Press Enter to run the command"
    } else {
        "Press Enter to generate command and exit"
    };
    let mut lines = no_lines();
    push_line(&mut lines, line_of_one(make_strong("Summary", Tone::Plain)));
    push_line(&mut lines, blank_line());
    push_line(&mut lines, line_of_one(make_plain("Generated command:")));
    push_line(&mut lines, blank_line());
    push_line(&mut lines, line_of_one(make_toned(command.as_str(), Tone::Cyan)));
    push_line(&mut lines, blank_line());
    push_line(&mut lines, line_of_one(make_plain(prompt)));
    let ghost base = lines.deep_view();
    match &app.last_error {
        Some(message) => {
            push_line(&mut lines, blank_line());
            push_line(&mut lines, line_of_one(make_toned(message.as_str(), Tone::Red)));
        },
        None => {},
    }
    assert(lines.deep_view() =~= base + error_lines(app@.last_error));
    push_line(&mut lines, blank_line());
    push_line(&mut lines, hint_line(app, live));
    assert(lines.deep_view() =~= summary_screen(app@, in_project, live).lines);
    Paragraph { lines, wrap: Wrap::Keep }
}

fn lang_line(index: usize, chosen: usize) -> (line: Line)
    requires
        index < LANG_COUNT,
    ensures
        line.deep_view() == lang_row(index as int, chosen as int),
{
    let mut text = String::from_str(lang_label(index));
    text.append(" (");
    text.append(lang_code(index));
    text.append(")");
    let tone = if index == chosen {
        Tone::Yellow
    } else {
        Tone::Plain
    };
    line_of_one(make_toned(text.as_str(), tone))
}

/// Draws the language step into `area`.
pub fn render_lang(app: &App, area: Area) -> (screen: ListScreen)
    ensures
        screen@ == lang_screen(app@, area),
{
    let mut heading = no_lines();
    push_line(&mut heading, q_line("What's the target language?"));
    push_line(&mut heading, blank_line());
    let mut items = no_lines();
    let mut i: usize = 0;
    while i < LANG_COUNT
        invariant
            i <= LANG_COUNT,
            items.deep_view() == Seq::new(i as nat, |k: int| lang_row(k, app@.lang_index)),
        decreases LANG_COUNT - i,
    {
        let ghost before = items.deep_view();
        let line = lang_line(i, app.lang_index);
        push_line(&mut items, line);
        assert(items.deep_view() =~= Seq::new((i + 1) as nat, |k: int| lang_row(k, app@.lang_index)));
        i = i + 1;
    }
    let mut footer = no_lines();
    push_line(&mut footer, blank_line());
    push_line(&mut footer, hint_line(app, false));
    let screen = ListScreen { heading, items, footer, areas: list_areas(area) };
    assert(screen@.heading =~= lang_screen(app@, area).heading);
    assert(screen@.footer =~= lang_screen(app@, area).footer);
    screen
}

/// Draws the running step into `area`.
pub fn render_running(session: &Option<Session>, area: Area) -> (screen: ListScreen)
    ensures
        screen@ == running_screen(
            match session {
                Some(s) => Some(s@),
                None => None,
            },
            area,
        ),
{
    let areas = list_areas(area);
    let finished = match session {
        Some(s) => s.finished,
        None => true,
    };
    let asks = if finished {
        "The command has finished"
    } else {
        "Running the command"
    };
    let mut heading = no_lines();
    push_line(&mut heading, q_line(asks));
    push_line(&mut heading, blank_line());
    let mut items = no_lines();
    match session {
        Some(s) => {
            let rows: usize = areas.list.height as usize;
            let total = s.log.len();
            let start: usize = if total <= rows {
                0
            } else {
                total - rows
            };
            let ghost tail = log_tail(s@.log, rows as int);
            assert(tail =~= s@.log.skip(start as int));
            let mut i: usize = start;
            while i < total
                invariant
                    start <= i <= total,
                    total == s@.log.len(),
                    tail == s@.log.skip(start as int),
                    items.deep_view() == tail.take(i - start).map_values(
                        |l: Seq<char>| seq![plain(l)],
                    ),
                decreases total - i,
            {
                let line = line_of_one(make_plain(s.log.line(i)));
                push_line(&mut items, line);
                assert(items.deep_view() =~= tail.take(i + 1 - start).map_values(
                    |l: Seq<char>| seq![plain(l)],
                ));
                i = i + 1;
            }
            assert(tail.take(total - start) =~= tail);
        },
        None => {
            assert(items.deep_view() =~= Seq::<Seq<char>>::empty().map_values(
                |l: Seq<char>| seq![plain(l)],
            ));
        },
    }
    let mut footer = no_lines();
    push_line(&mut footer, blank_line());
    push_line(&mut footer, line_of_one(make_toned(hint_words(Step::Running, true), Tone::DarkGray)));
    let screen = ListScreen { heading, items, footer, areas };
    assert(screen@.heading =~= seq![question(asks@), blank()]);
    assert(screen@.footer =~= seq![blank(), hint(Step::Running, true)]);
    screen
}

/// The title line.
pub fn title_line() -> (line: Line)
    ensures
        line.deep_view() == title(),
{
    line_of_two(
        make_strong("subtitle-tui ", Tone::Cyan),
        make_plain("— an interactive wizard for subtitle generator"),
    )
}

/// Composes the screen for areas already decided.
pub fn compose(
    app: &App,
    session: &Option<Session>,
    areas: ScreenAreas,
    in_project: bool,
    live: bool,
) -> (screen: Screen)
    requires
        app@.wf(),
    ensures
        screen@ == screen_of(
            app@,
            match session {
                Some(s) => Some(s@),
                None => None,
            },
            areas,
            in_project,
            live,
        ),
{
    let body = match app.step {
        Step::Mode => Body::Text(render_mode(app)),
        Step::SrcPath => Body::Text(render_src_path(app)),
        Step::YtUrl => Body::Text(render_yt_url(app)),
        Step::Lang => Body::List(render_lang(app, areas.body)),
        Step::Overwrite => Body::Text(render_overwrite(app)),
        Step::BurnIn => Body::Text(render_burnin(app)),
        Step::BurnUse => Body::Text(render_burn_use(app)),
        Step::BurnFormat => Body::Text(render_burn_format(app)),
        Step::Summary => Body::Text(render_summary(app, in_project, live)),
        Step::Running => Body::List(render_running(session, areas.body)),
    };
    Screen { title: title_line(), areas, body }
}

/// Lays out and composes the screen for a terminal of size `screen`. The
/// parts span the width of the terminal and lie within it, the title
/// above the body; their rows are the layout's choice, and the content is
/// composed for them.
pub fn ui(
    app: &App,
    session: &Option<Session>,
    screen: Area,
    in_project: bool,
    live: bool,
) -> (shown: Screen)
    requires
        app@.wf(),
    ensures
        shown@ == screen_of(
            app@,
            match session {
                Some(s) => Some(s@),
                None => None,
            },
            shown.areas,
            in_project,
            live,
        ),
        shown.areas.divides(screen),
{
    let areas = screen_areas(screen);
    compose(app, session, areas, in_project, live)
}

} // verus!
