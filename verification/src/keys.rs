//! Key presses: what each key means on each step, and what that does to
//! the wizard.

use vstd::prelude::*;
use crate::catalog::LANG_COUNT;
use crate::command::command_line;
use crate::text::{pop_char, push_char};
use crate::wizard::{App, BurnFormat, BurnUse, SourceMode, Step, WizardState};

verus! {

/// The keys the wizard tells apart; every other key is `Other`.
#[derive(Clone, Copy, Debug, PartialEq, Eq, Structural)]
pub enum KeyCode {
    Up,
    Down,
    Left,
    Right,
    Enter,
    Tab,
    Backspace,
    Esc,
    Char(char),
    Other,
}

/// The modifier keys held while a key was pressed; `other` stands for any
/// modifier besides the three named ones.
#[derive(Clone, Copy, Debug, PartialEq, Eq, Structural)]
pub struct KeyMods {
    pub control: bool,
    pub shift: bool,
    pub alt: bool,
    pub other: bool,
}

impl KeyMods {
    /// No modifier is held.
    pub open spec fn none_held(self) -> bool {
        !self.control && !self.shift && !self.alt && !self.other
    }

    /// The empty set of modifiers.
    pub fn none() -> (mods: KeyMods)
        ensures
            mods.none_held(),
    {
        KeyMods { control: false, shift: false, alt: false, other: false }
    }

    /// Whether no modifier is held.
    pub fn is_empty(&self) -> (empty: bool)
        ensures
            empty == self.none_held(),
    {
        !self.control && !self.shift && !self.alt && !self.other
    }
}

/// One key press.
#[derive(Clone, Copy, Debug, PartialEq, Eq, Structural)]
pub struct KeyInput {
    pub code: KeyCode,
    pub modifiers: KeyMods,
}

impl KeyInput {
    /// The key ends the program wherever the wizard stands: a bare `q`, or
    /// `c` with control held.
    pub open spec fn is_quit(self) -> bool {
        match self.code {
            KeyCode::Char(c) => (c == 'q' && self.modifiers.none_held()) || (c == 'c'
                && self.modifiers.control),
            _ => false,
        }
    }

    /// A key pressed with no modifier held.
    pub fn plain(code: KeyCode) -> (key: KeyInput)
        ensures
            key.code == code,
            key.modifiers.none_held(),
    {
        KeyInput { code, modifiers: KeyMods::none() }
    }
}

/// What a key press asks for.
#[derive(Clone, Copy, Debug, PartialEq, Eq, Structural)]
pub enum Intent {
    /// End the program.
    Quit,
    /// Go to the next step.
    Confirm,
    /// Go to the previous step.
    Back,
    /// Take the first of two options.
    PickFirst,
    /// Take the second of two options.
    PickSecond,
    /// Move up in the list.
    Previous,
    /// Move down in the list.
    Following,
    /// Flip a yes/no answer.
    Toggle,
    /// Add a character to the text being edited.
    Insert(char),
    /// Delete the last character of the text being edited.
    Erase,
    /// Produce the command.
    Run,
    /// Stop the running command.
    Cancel,
    /// Nothing.
    Ignore,
}

/// The punctuation that the path step takes even with control held.
pub open spec fn is_path_punctuation(c: char) -> bool {
    c == '/' || c == '.' || c == '-' || c == '_'
}

/// The meaning of a key on the first step of a two-way choice made with the
/// vertical keys.
pub open spec fn vertical_choice(code: KeyCode) -> Intent {
    match code {
        KeyCode::Up => Intent::PickFirst,
        KeyCode::Down => Intent::PickSecond,
        KeyCode::Char(c) => if c == 'k' {
            Intent::PickFirst
        } else if c == 'j' {
            Intent::PickSecond
        } else {
            Intent::Ignore
        },
        _ => Intent::Ignore,
    }
}

/// The meaning of a key on a two-way choice made with the horizontal keys.
pub open spec fn horizontal_choice(code: KeyCode) -> Intent {
    match code {
        KeyCode::Left => Intent::PickFirst,
        KeyCode::Right => Intent::PickSecond,
        KeyCode::Char(c) => if c == 'h' {
            Intent::PickFirst
        } else if c == 'l' {
            Intent::PickSecond
        } else {
            Intent::Ignore
        },
        _ => Intent::Ignore,
    }
}

/// `Enter` and `Tab` confirm, `Esc` goes back.
pub open spec fn navigation(code: KeyCode) -> Intent {
    match code {
        KeyCode::Enter => Intent::Confirm,
        KeyCode::Tab => Intent::Confirm,
        KeyCode::Esc => Intent::Back,
        _ => Intent::Ignore,
    }
}

/// What `key` means on `step`.
///
/// Quitting comes first on every step. `Enter` and `Tab` confirm and `Esc`
/// goes back on every step of the wizard, but that `Enter` on `Summary`
/// asks for the command. Text steps take characters unless control is
/// held (the path step takes its punctuation regardless); on `Running`
/// only cancelling and going back mean anything.
pub open spec fn binding(step: Step, key: KeyInput) -> Intent {
    if key.is_quit() {
        Intent::Quit
    } else {
        match step {
            Step::Mode => match key.code {
                KeyCode::Enter => Intent::Confirm,
                KeyCode::Tab => Intent::Confirm,
                KeyCode::Esc => Intent::Back,
                _ => vertical_choice(key.code),
            },
            Step::SrcPath => match key.code {
                KeyCode::Backspace => Intent::Erase,
                KeyCode::Char(c) => if is_path_punctuation(c) || !key.modifiers.control {
                    Intent::Insert(c)
                } else {
                    Intent::Ignore
                },
                _ => navigation(key.code),
            },
            Step::YtUrl => match key.code {
                KeyCode::Backspace => Intent::Erase,
                KeyCode::Char(c) => if !key.modifiers.control {
                    Intent::Insert(c)
                } else {
                    Intent::Ignore
                },
                _ => navigation(key.code),
            },
            Step::Lang => match key.code {
                KeyCode::Up => Intent::Previous,
                KeyCode::Down => Intent::Following,
                KeyCode::Char(c) => if c == 'k' {
                    Intent::Previous
                } else if c == 'j' {
                    Intent::Following
                } else {
                    Intent::Ignore
                },
                _ => navigation(key.code),
            },
            Step::Overwrite => match key.code {
                KeyCode::Char(c) => if c == ' ' {
                    Intent::Toggle
                } else {
                    Intent::Ignore
                },
                _ => navigation(key.code),
            },
            Step::BurnIn => match key.code {
                KeyCode::Char(c) => if c == ' ' {
                    Intent::Toggle
                } else {
                    Intent::Ignore
                },
                _ => navigation(key.code),
            },
            Step::BurnUse => match key.code {
                KeyCode::Enter => Intent::Confirm,
                KeyCode::Tab => Intent::Confirm,
                KeyCode::Esc => Intent::Back,
                _ => horizontal_choice(key.code),
            },
            Step::BurnFormat => match key.code {
                KeyCode::Enter => Intent::Confirm,
                KeyCode::Tab => Intent::Confirm,
                KeyCode::Esc => Intent::Back,
                _ => horizontal_choice(key.code),
            },
            Step::Summary => match key.code {
                KeyCode::Enter => Intent::Run,
                KeyCode::Tab => Intent::Confirm,
                KeyCode::Esc => Intent::Back,
                KeyCode::Char(c) => if c == 'r' {
                    Intent::Run
                } else {
                    Intent::Ignore
                },
                _ => Intent::Ignore,
            },
            Step::Running => match key.code {
                KeyCode::Esc => Intent::Back,
                KeyCode::Char(c) => if c == 'x' || c == 'c' {
                    Intent::Cancel
                } else {
                    Intent::Ignore
                },
                _ => Intent::Ignore,
            },
        }
    }
}

/// `text` without its last character; the empty text stays empty.
pub open spec fn erased(text: Seq<char>) -> Seq<char> {
    if text.len() > 0 {
        text.drop_last()
    } else {
        text
    }
}

/// The wizard after `intent` was carried out.
///
/// An intent that has no meaning on the current step changes nothing.
/// `Run` counts on `Summary` only: it records the command line and asks the
/// program to end. `Cancel` concerns a running command, not the wizard.
pub open spec fn effect(w: WizardState, intent: Intent, in_project: bool) -> WizardState {
    match intent {
        Intent::Quit => WizardState { should_exit: true, ..w },
        Intent::Confirm => w.advanced(),
        Intent::Back => w.retreated(),
        Intent::PickFirst => match w.step {
            Step::Mode => WizardState { mode: SourceMode::Local, ..w },
            Step::BurnUse => WizardState { burn_use: BurnUse::Translated, ..w },
            Step::BurnFormat => WizardState { burn_format: BurnFormat::Mp4, ..w },
            _ => w,
        },
        Intent::PickSecond => match w.step {
            Step::Mode => WizardState { mode: SourceMode::YouTube, ..w },
            Step::BurnUse => WizardState { burn_use: BurnUse::Original, ..w },
            Step::BurnFormat => WizardState { burn_format: BurnFormat::Webm, ..w },
            _ => w,
        },
        Intent::Previous => if w.step == Step::Lang && w.lang_index > 0 {
            WizardState { lang_index: w.lang_index - 1, ..w }
        } else {
            w
        },
        Intent::Following => if w.step == Step::Lang && w.lang_index + 1 < LANG_COUNT {
            WizardState { lang_index: w.lang_index + 1, ..w }
        } else {
            w
        },
        Intent::Toggle => match w.step {
            Step::Overwrite => WizardState { overwrite: !w.overwrite, ..w },
            Step::BurnIn => WizardState { burn_in: !w.burn_in, ..w },
            _ => w,
        },
        Intent::Insert(c) => match w.step {
            Step::SrcPath => WizardState { src_path: w.src_path.push(c), ..w },
            Step::YtUrl => WizardState { yt_url: w.yt_url.push(c), ..w },
            _ => w,
        },
        Intent::Erase => match w.step {
            Step::SrcPath => WizardState { src_path: erased(w.src_path), ..w },
            Step::YtUrl => WizardState { yt_url: erased(w.yt_url), ..w },
            _ => w,
        },
        Intent::Run => if w.step == Step::Summary {
            WizardState {
                generated_command: Some(command_line(w, in_project)),
                should_exit: true,
                ..w
            }
        } else {
            w
        },
        Intent::Cancel => w,
        Intent::Ignore => w,
    }
}

/// Whatever is asked of a wizard whose language index is in range and whose
/// step is on the path for its flags (or is `Running`), the same holds
/// afterwards.
pub proof fn lemma_effect_keeps_invariant(w: WizardState, intent: Intent, in_project: bool)
    ensures
        w.wf() ==> effect(w, intent, in_project).wf(),
        w.consistent() ==> effect(w, intent, in_project).consistent(),
{
}

/// On every step of the wizard `Tab` moves on to the step that follows
/// and `Esc` back to the one before, and so does `Enter` on every step but
/// `Summary`, where it asks for the command; nothing else changes.
pub proof fn lemma_navigation_keys(w: WizardState, key: KeyInput, in_project: bool)
    requires
        w.step != Step::Running,
        !key.is_quit(),
    ensures
        key.code == KeyCode::Tab ==> effect(w, binding(w.step, key), in_project) == w.advanced(),
        key.code == KeyCode::Enter && w.step != Step::Summary ==> effect(
            w,
            binding(w.step, key),
            in_project,
        ) == w.advanced(),
        key.code == KeyCode::Esc ==> effect(w, binding(w.step, key), in_project) == w.retreated(),
{
}

fn vertical_choice_of(code: KeyCode) -> (intent: Intent)
    ensures
        intent == vertical_choice(code),
{
    match code {
        KeyCode::Up => Intent::PickFirst,
        KeyCode::Down => Intent::PickSecond,
        KeyCode::Char(c) => {
            if c == 'k' {
                Intent::PickFirst
            } else if c == 'j' {
                Intent::PickSecond
            } else {
                Intent::Ignore
            }
        },
        _ => Intent::Ignore,
    }
}

fn horizontal_choice_of(code: KeyCode) -> (intent: Intent)
    ensures
        intent == horizontal_choice(code),
{
    match code {
        KeyCode::Left => Intent::PickFirst,
        KeyCode::Right => Intent::PickSecond,
        KeyCode::Char(c) => {
            if c == 'h' {
                Intent::PickFirst
            } else if c == 'l' {
                Intent::PickSecond
            } else {
                Intent::Ignore
            }
        },
        _ => Intent::Ignore,
    }
}

fn navigation_of(code: KeyCode) -> (intent: Intent)
    ensures
        intent == navigation(code),
{
    match code {
        KeyCode::Enter | KeyCode::Tab => Intent::Confirm,
        KeyCode::Esc => Intent::Back,
        _ => Intent::Ignore,
    }
}

fn quits(key: &KeyInput) -> (quit: bool)
    ensures
        quit == key.is_quit(),
{
    match key.code {
        KeyCode::Char(c) => (c == 'q' && key.modifiers.is_empty()) || (c == 'c'
            && key.modifiers.control),
        _ => false,
    }
}

/// Reads a key press on a step.
pub fn intent_of(step: Step, key: &KeyInput) -> (intent: Intent)
    ensures
        intent == binding(step, *key),
{
    if quits(key) {
        return Intent::Quit;
    }
    match step {
        Step::Mode => match key.code {
            KeyCode::Enter | KeyCode::Tab => Intent::Confirm,
            KeyCode::Esc => Intent::Back,
            _ => vertical_choice_of(key.code),
        },
        Step::SrcPath => match key.code {
            KeyCode::Backspace => Intent::Erase,
            KeyCode::Char(c) => {
                if c == '/' || c == '.' || c == '-' || c == '_' {
                    Intent::Insert(c)
                } else if !key.modifiers.control {
                    Intent::Insert(c)
                } else {
                    Intent::Ignore
                }
            },
            _ => navigation_of(key.code),
        },
        Step::YtUrl => match key.code {
            KeyCode::Backspace => Intent::Erase,
            KeyCode::Char(c) => {
                if !key.modifiers.control {
                    Intent::Insert(c)
                } else {
                    Intent::Ignore
                }
            },
            _ => navigation_of(key.code),
        },
        Step::Lang => match key.code {
            KeyCode::Up => Intent::Previous,
            KeyCode::Down => Intent::Following,
            KeyCode::Char(c) => {
                if c == 'k' {
                    Intent::Previous
                } else if c == 'j' {
                    Intent::Following
                } else {
                    Intent::Ignore
                }
            },
            _ => navigation_of(key.code),
        },
        Step::Overwrite | Step::BurnIn => match key.code {
            KeyCode::Char(c) => {
                if c == ' ' {
                    Intent::Toggle
                } else {
                    Intent::Ignore
                }
            },
            _ => navigation_of(key.code),
        },
        Step::BurnUse | Step::BurnFormat => match key.code {
            KeyCode::Enter | KeyCode::Tab => Intent::Confirm,
            KeyCode::Esc => Intent::Back,
            _ => horizontal_choice_of(key.code),
        },
        Step::Summary => match key.code {
            KeyCode::Enter => Intent::Run,
            KeyCode::Tab => Intent::Confirm,
            KeyCode::Esc => Intent::Back,
            KeyCode::Char(c) => {
                if c == 'r' {
                    Intent::Run
                } else {
                    Intent::Ignore
                }
            },
            _ => Intent::Ignore,
        },
        Step::Running => match key.code {
            KeyCode::Esc => Intent::Back,
            KeyCode::Char(c) => {
                if c == 'x' || c == 'c' {
                    Intent::Cancel
                } else {
                    Intent::Ignore
                }
            },
            _ => Intent::Ignore,
        },
    }
}

impl App {
    /// Carries out what a key press asked for. `in_project` says whether
    /// the project marker was found; it matters to `Run` alone.
    pub fn apply(&mut self, intent: Intent, in_project: bool)
        requires
            old(self)@.wf(),
        ensures
            final(self)@ == effect(old(self)@, intent, in_project),
            final(self)@.wf(),
            old(self)@.consistent() ==> final(self)@.consistent(),
    {
        match intent {
            Intent::Quit => {
                self.should_exit = true;
            },
            Intent::Confirm => {
                self.next_step();
            },
            Intent::Back => {
                self.prev_step();
            },
            Intent::PickFirst => match self.step {
                Step::Mode => {
                    self.mode = SourceMode::Local;
                },
                Step::BurnUse => {
                    self.burn_use = BurnUse::Translated;
                },
                Step::BurnFormat => {
                    self.burn_format = BurnFormat::Mp4;
                },
                _ => {},
            },
            Intent::PickSecond => match self.step {
                Step::Mode => {
                    self.mode = SourceMode::YouTube;
                },
                Step::BurnUse => {
                    self.burn_use = BurnUse::Original;
                },
                Step::BurnFormat => {
                    self.burn_format = BurnFormat::Webm;
                },
                _ => {},
            },
            Intent::Previous => match self.step {
                Step::Lang => {
                    if self.lang_index > 0 {
                        self.lang_index = self.lang_index - 1;
                    }
                },
                _ => {},
            },
            Intent::Following => match self.step {
                Step::Lang => {
                    if self.lang_index + 1 < LANG_COUNT {
                        self.lang_index = self.lang_index + 1;
                    }
                },
                _ => {},
            },
            Intent::Toggle => match self.step {
                Step::Overwrite => {
                    self.overwrite = !self.overwrite;
                },
                Step::BurnIn => {
                    self.burn_in = !self.burn_in;
                },
                _ => {},
            },
            Intent::Insert(c) => match self.step {
                Step::SrcPath => {
                    push_char(&mut self.src_path, c);
                },
                Step::YtUrl => {
                    push_char(&mut self.yt_url, c);
                },
                _ => {},
            },
            Intent::Erase => match self.step {
                Step::SrcPath => {
                    pop_char(&mut self.src_path);
                },
                Step::YtUrl => {
                    pop_char(&mut self.yt_url);
                },
                _ => {},
            },
            Intent::Run => match self.step {
                Step::Summary => {
                    self.execute(in_project);
                },
                _ => {},
            },
            Intent::Cancel => {},
            Intent::Ignore => {},
        }
    }
}

/// Handles one key press: reads it on the current step and carries it out.
pub fn handle_key(app: &mut App, key: KeyInput, in_project: bool)
    requires
        old(app)@.wf(),
    ensures
        final(app)@ == effect(old(app)@, binding(old(app)@.step, key), in_project),
        final(app)@.wf(),
        old(app)@.consistent() ==> final(app)@.consistent(),
{
    let intent = intent_of(app.step, &key);
    app.apply(intent, in_project);
}

} // verus!
