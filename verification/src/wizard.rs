//! The wizard's answers and its step state machine.

use vstd::prelude::*;
use crate::catalog::LANG_COUNT;

verus! {

/// Where the videos come from.
#[derive(Clone, Copy, Debug, PartialEq, Eq, Structural)]
pub enum SourceMode {
    Local,
    YouTube,
}

/// Which subtitle track is burned into the video.
#[derive(Clone, Copy, Debug, PartialEq, Eq, Structural)]
pub enum BurnUse {
    Translated,
    Original,
}

/// Container format of the burned video.
#[derive(Clone, Copy, Debug, PartialEq, Eq, Structural)]
pub enum BurnFormat {
    Mp4,
    Webm,
}

/// One screen of the wizard.
#[derive(Clone, Copy, Debug, PartialEq, Eq, Structural)]
pub enum Step {
    Mode,
    SrcPath,
    YtUrl,
    Lang,
    Overwrite,
    BurnIn,
    BurnUse,
    BurnFormat,
    Summary,
    Running,
}

/// The step that follows `step` when the user confirms it.
///
/// `Summary` and `Running` are fixed points: leaving `Summary` forwards takes
/// a confirmed run, not a transition.
pub open spec fn advance(step: Step, mode: SourceMode, burn_in: bool) -> Step {
    match step {
        Step::Mode => Step::SrcPath,
        Step::SrcPath => match mode {
            SourceMode::Local => Step::Lang,
            SourceMode::YouTube => Step::YtUrl,
        },
        Step::YtUrl => Step::Lang,
        Step::Lang => Step::Overwrite,
        Step::Overwrite => Step::BurnIn,
        Step::BurnIn => if burn_in {
            Step::BurnUse
        } else {
            Step::Summary
        },
        Step::BurnUse => Step::BurnFormat,
        Step::BurnFormat => Step::Summary,
        Step::Summary => Step::Summary,
        Step::Running => Step::Running,
    }
}

/// The step the user returns to from `step`.
pub open spec fn retreat(step: Step, mode: SourceMode, burn_in: bool) -> Step {
    match step {
        Step::Mode => Step::Mode,
        Step::SrcPath => Step::Mode,
        Step::YtUrl => Step::SrcPath,
        Step::Lang => match mode {
            SourceMode::Local => Step::SrcPath,
            SourceMode::YouTube => Step::YtUrl,
        },
        Step::Overwrite => Step::Lang,
        Step::BurnIn => Step::Overwrite,
        Step::BurnUse => Step::BurnIn,
        Step::BurnFormat => Step::BurnUse,
        Step::Summary => if burn_in {
            Step::BurnFormat
        } else {
            Step::BurnIn
        },
        Step::Running => Step::Summary,
    }
}

/// `step` lies on the way from `Mode` to `Summary` under the given flags:
/// the URL step needs YouTube mode, the two burn steps need burn-in.
pub open spec fn on_path(step: Step, mode: SourceMode, burn_in: bool) -> bool {
    match step {
        Step::YtUrl => mode == SourceMode::YouTube,
        Step::BurnUse => burn_in,
        Step::BurnFormat => burn_in,
        Step::Running => false,
        _ => true,
    }
}

/// The step reached from `Mode` by `n` confirmations.
pub open spec fn advance_from_start(n: nat, mode: SourceMode, burn_in: bool) -> Step
    decreases n,
{
    if n == 0 {
        Step::Mode
    } else {
        advance(advance_from_start((n - 1) as nat, mode, burn_in), mode, burn_in)
    }
}

/// One navigation request.
#[derive(Clone, Copy, Debug, PartialEq, Eq, Structural)]
pub enum Move {
    Advance,
    Retreat,
}

/// The step a single move leads to.
pub open spec fn step_by(step: Step, m: Move, mode: SourceMode, burn_in: bool) -> Step {
    match m {
        Move::Advance => advance(step, mode, burn_in),
        Move::Retreat => retreat(step, mode, burn_in),
    }
}

/// The step reached from `Mode` by a sequence of moves under constant flags.
pub open spec fn step_after(moves: Seq<Move>, mode: SourceMode, burn_in: bool) -> Step
    decreases moves.len(),
{
    if moves.len() == 0 {
        Step::Mode
    } else {
        step_by(step_after(moves.drop_last(), mode, burn_in), moves.last(), mode, burn_in)
    }
}

/// What an `App` stands for: its answers as plain values and text.
pub struct WizardState {
    pub step: Step,
    pub mode: SourceMode,
    pub src_path: Seq<char>,
    pub yt_url: Seq<char>,
    pub lang_index: int,
    pub overwrite: bool,
    pub burn_in: bool,
    pub burn_use: BurnUse,
    pub burn_format: BurnFormat,
    pub should_exit: bool,
    pub generated_command: Option<Seq<char>>,
    pub last_error: Option<Seq<char>>,
}

impl WizardState {
    /// The language index points into the table.
    pub open spec fn wf(self) -> bool {
        0 <= self.lang_index < LANG_COUNT
    }

    /// The current step is `Running`, or lies on the forward path for the
    /// flags as they stand.
    pub open spec fn consistent(self) -> bool {
        self.step == Step::Running || on_path(self.step, self.mode, self.burn_in)
    }

    /// Same answers as `other`; the step, the exit flag, the generated
    /// command and the error message may differ.
    pub open spec fn same_answers(self, other: WizardState) -> bool {
        &&& self.mode == other.mode
        &&& self.src_path == other.src_path
        &&& self.yt_url == other.yt_url
        &&& self.lang_index == other.lang_index
        &&& self.overwrite == other.overwrite
        &&& self.burn_in == other.burn_in
        &&& self.burn_use == other.burn_use
        &&& self.burn_format == other.burn_format
    }

    /// The state after a confirmation.
    pub open spec fn advanced(self) -> WizardState {
        WizardState { step: advance(self.step, self.mode, self.burn_in), ..self }
    }

    /// The state after going back.
    pub open spec fn retreated(self) -> WizardState {
        WizardState { step: retreat(self.step, self.mode, self.burn_in), ..self }
    }
}

/// Everything the wizard has collected, and where it stands.
#[derive(Clone, Debug, PartialEq, Eq)]
pub struct App {
    pub step: Step,
    pub mode: SourceMode,
    pub src_path: String,
    pub yt_url: String,
    pub lang_index: usize,
    pub overwrite: bool,
    pub burn_in: bool,
    pub burn_use: BurnUse,
    pub burn_format: BurnFormat,
    pub should_exit: bool,
    pub generated_command: Option<String>,
    pub last_error: Option<String>,
}

impl View for App {
    type V = WizardState;

    open spec fn view(&self) -> WizardState {
        WizardState {
            step: self.step,
            mode: self.mode,
            src_path: self.src_path@,
            yt_url: self.yt_url@,
            lang_index: self.lang_index as int,
            overwrite: self.overwrite,
            burn_in: self.burn_in,
            burn_use: self.burn_use,
            burn_format: self.burn_format,
            should_exit: self.should_exit,
            generated_command: self.generated_command.deep_view(),
            last_error: self.last_error.deep_view(),
        }
    }
}

impl App {
    /// The state a fresh wizard starts in: first step, local folder
    /// `videos`, first language, nothing overwritten or burned.
    pub open spec fn new_state() -> WizardState {
        WizardState {
            step: Step::Mode,
            mode: SourceMode::Local,
            src_path: "videos"@,
            yt_url: Seq::<char>::empty(),
            lang_index: 0,
            overwrite: false,
            burn_in: false,
            burn_use: BurnUse::Translated,
            burn_format: BurnFormat::Mp4,
            should_exit: false,
            generated_command: None,
            last_error: None,
        }
    }

    /// A fresh wizard.
    pub fn new() -> (app: App)
        ensures
            app@ == App::new_state(),
            app@.wf(),
            app@.consistent(),
    {
        App {
            step: Step::Mode,
            mode: SourceMode::Local,
            src_path: String::from_str("videos"),
            yt_url: String::new(),
            lang_index: 0,
            overwrite: false,
            burn_in: false,
            burn_use: BurnUse::Translated,
            burn_format: BurnFormat::Mp4,
            should_exit: false,
            generated_command: None,
            last_error: None,
        }
    }

    /// Moves to the step that follows the current one; nothing else changes.
    pub fn next_step(&mut self)
        ensures
            final(self)@ == old(self)@.advanced(),
    {
        self.step = match self.step {
            Step::Mode => Step::SrcPath,
            Step::SrcPath => match self.mode {
                SourceMode::Local => Step::Lang,
                SourceMode::YouTube => Step::YtUrl,
            },
            Step::YtUrl => Step::Lang,
            Step::Lang => Step::Overwrite,
            Step::Overwrite => Step::BurnIn,
            Step::BurnIn => {
                if self.burn_in {
                    Step::BurnUse
                } else {
                    Step::Summary
                }
            },
            Step::BurnUse => Step::BurnFormat,
            Step::BurnFormat => Step::Summary,
            Step::Summary => Step::Summary,
            Step::Running => Step::Running,
        };
    }

    /// Moves back to the step that precedes the current one; nothing else
    /// changes.
    pub fn prev_step(&mut self)
        ensures
            final(self)@ == old(self)@.retreated(),
    {
        self.step = match self.step {
            Step::Mode => Step::Mode,
            Step::SrcPath => Step::Mode,
            Step::YtUrl => Step::SrcPath,
            Step::Lang => match self.mode {
                SourceMode::Local => Step::SrcPath,
                SourceMode::YouTube => Step::YtUrl,
            },
            Step::Overwrite => Step::Lang,
            Step::BurnIn => Step::Overwrite,
            Step::BurnUse => Step::BurnIn,
            Step::BurnFormat => Step::BurnUse,
            Step::Summary => {
                if self.burn_in {
                    Step::BurnFormat
                } else {
                    Step::BurnIn
                }
            },
            Step::Running => Step::Summary,
        };
    }
}

/// Going forward and then back returns to the step one started from,
/// except from `Summary` and `Running`, which have no step after them, and
/// from a conditional step that the flags rule out on the way back.
pub proof fn lemma_advance_then_retreat(step: Step, mode: SourceMode, burn_in: bool)
    ensures
        retreat(advance(step, mode, burn_in), mode, burn_in) == step <==> match step {
            Step::YtUrl => mode == SourceMode::YouTube,
            Step::BurnFormat => burn_in,
            Step::Summary => false,
            Step::Running => false,
            _ => true,
        },
        on_path(step, mode, burn_in) && step != Step::Summary ==> retreat(
            advance(step, mode, burn_in),
            mode,
            burn_in,
        ) == step,
{
}

/// Going back and then forward returns to the step one started from,
/// except from `Mode`, which has no step before it, from `Running`, and
/// from a conditional step that the flags rule out on the way forward.
pub proof fn lemma_retreat_then_advance(step: Step, mode: SourceMode, burn_in: bool)
    ensures
        advance(retreat(step, mode, burn_in), mode, burn_in) == step <==> match step {
            Step::Mode => false,
            Step::YtUrl => mode == SourceMode::YouTube,
            Step::BurnUse => burn_in,
            Step::Running => false,
            _ => true,
        },
        on_path(step, mode, burn_in) && step != Step::Mode ==> advance(
            retreat(step, mode, burn_in),
            mode,
            burn_in,
        ) == step,
{
}

/// Neither move leads off the path, and `Running` is left only backwards, to
/// `Summary`.
pub proof fn lemma_moves_stay_on_path(step: Step, m: Move, mode: SourceMode, burn_in: bool)
    ensures
        on_path(step, mode, burn_in) ==> on_path(step_by(step, m, mode, burn_in), mode, burn_in),
        step == Step::Running ==> step_by(step, m, mode, burn_in) == Step::Running || step_by(
            step,
            m,
            mode,
            burn_in,
        ) == Step::Summary,
{
}

/// Whatever sequence of moves is made from `Mode` under constant flags, the
/// wizard stands on a step of the forward path.
pub proof fn lemma_every_sequence_stays_on_path(moves: Seq<Move>, mode: SourceMode, burn_in: bool)
    ensures
        on_path(step_after(moves, mode, burn_in), mode, burn_in),
    decreases moves.len(),
{
    if moves.len() > 0 {
        lemma_every_sequence_stays_on_path(moves.drop_last(), mode, burn_in);
        lemma_moves_stay_on_path(
            step_after(moves.drop_last(), mode, burn_in),
            moves.last(),
            mode,
            burn_in,
        );
    }
}

/// A step lies on the forward path exactly if confirmations alone reach it
/// from `Mode`; at most eight are needed.
pub proof fn lemma_on_path_iff_reachable(step: Step, mode: SourceMode, burn_in: bool)
    ensures
        on_path(step, mode, burn_in) <==> exists|n: nat|
            n <= 8 && #[trigger] advance_from_start(n, mode, burn_in) == step,
{
    reveal_with_fuel(advance_from_start, 10);
    if on_path(step, mode, burn_in) {
        let n: nat = match step {
            Step::Mode => 0,
            Step::SrcPath => 1,
            Step::YtUrl => 2,
            Step::Lang => if mode == SourceMode::YouTube {
                3
            } else {
                2
            },
            Step::Overwrite => if mode == SourceMode::YouTube {
                4
            } else {
                3
            },
            Step::BurnIn => if mode == SourceMode::YouTube {
                5
            } else {
                4
            },
            Step::BurnUse => if mode == SourceMode::YouTube {
                6
            } else {
                5
            },
            Step::BurnFormat => if mode == SourceMode::YouTube {
                7
            } else {
                6
            },
            _ => if burn_in {
                if mode == SourceMode::YouTube {
                    8
                } else {
                    7
                }
            } else {
                if mode == SourceMode::YouTube {
                    6
                } else {
                    5
                }
            },
        };
        assert(advance_from_start(n, mode, burn_in) == step);
    } else {
        assert forall|n: nat| n <= 8 implies #[trigger] advance_from_start(n, mode, burn_in)
            != step by {
            lemma_confirmations_stay_on_path(n, mode, burn_in);
        }
    }
}

proof fn lemma_confirmations_stay_on_path(n: nat, mode: SourceMode, burn_in: bool)
    ensures
        on_path(advance_from_start(n, mode, burn_in), mode, burn_in),
    decreases n,
{
    if n > 0 {
        lemma_confirmations_stay_on_path((n - 1) as nat, mode, burn_in);
    }
}

/// After any sequence of moves made from `Mode` under constant flags, a
/// confirmation directly followed by going back leaves the wizard where it
/// was, on every step but `Summary`.
pub proof fn lemma_forward_back_is_identity(before: Seq<Move>, mode: SourceMode, burn_in: bool)
    ensures
        step_after(before + seq![Move::Advance, Move::Retreat], mode, burn_in) == step_after(
            before,
            mode,
            burn_in,
        ) <==> step_after(before, mode, burn_in) != Step::Summary,
{
    let one = before.push(Move::Advance);
    let two = before + seq![Move::Advance, Move::Retreat];
    assert(two =~= one.push(Move::Retreat));
    assert(two.drop_last() =~= one);
    assert(one.drop_last() =~= before);
    assert(step_after(one, mode, burn_in) == advance(
        step_after(before, mode, burn_in),
        mode,
        burn_in,
    ));
    assert(step_after(two, mode, burn_in) == retreat(
        step_after(one, mode, burn_in),
        mode,
        burn_in,
    ));
    lemma_every_sequence_stays_on_path(before, mode, burn_in);
    lemma_advance_then_retreat(step_after(before, mode, burn_in), mode, burn_in);
}

/// In any sequence of moves made from `Mode` under constant flags, a
/// confirmation directly followed by going back can be left out without
/// changing where the wizard ends up, unless the pair is made on `Summary`.
pub proof fn lemma_forward_back_pair_cancels(
    before: Seq<Move>,
    after: Seq<Move>,
    mode: SourceMode,
    burn_in: bool,
)
    requires
        step_after(before, mode, burn_in) != Step::Summary,
    ensures
        step_after(before + seq![Move::Advance, Move::Retreat] + after, mode, burn_in)
            == step_after(before + after, mode, burn_in),
    decreases after.len(),
{
    let pair = seq![Move::Advance, Move::Retreat];
    let long = before + pair + after;
    let short = before + after;
    if after.len() == 0 {
        assert(long =~= before + pair);
        assert(short =~= before);
        lemma_forward_back_is_identity(before, mode, burn_in);
    } else {
        lemma_forward_back_pair_cancels(before, after.drop_last(), mode, burn_in);
        assert(long.drop_last() =~= before + pair + after.drop_last());
        assert(short.drop_last() =~= before + after.drop_last());
        assert(long.last() == after.last());
        assert(short.last() == after.last());
    }
}

} // verus!
