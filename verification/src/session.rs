//! A run of the generated command under supervision: the session that
//! stands for the child process, and the decisions of the loop that shows
//! its output.
//!
//! The process itself, its output readers and the terminal live outside;
//! every function here takes what they reported and says what to do next.

use vstd::prelude::*;
use crate::command::{
    invocation, lemma_command_depends_on_answers_only, Invocation, InvocationView,
};
use crate::keys::{binding, effect, intent_of, Intent, KeyCode, KeyInput};
use crate::layout::{list_areas, list_areas_of, screen_areas, Area};
use crate::log::{applied_all, LogBuffer, LogEvent, LogEventView};
use crate::text::{decimal, decimal_text};
use crate::wizard::{App, Step, WizardState};

verus! {

/// How the child process is attached.
#[derive(Clone, Copy, Debug, PartialEq, Eq, Structural)]
pub enum Strategy {
    /// Through a pseudo-terminal, whose size can be set.
    Pty,
    /// Through pipes.
    Piped,
}

impl Strategy {
    /// The strategy that follows `self` in the order of attempts: the
    /// pseudo-terminal is tried first, pipes after it, nothing after those.
    pub open spec fn next_attempt(self) -> Option<Strategy> {
        match self {
            Strategy::Pty => Some(Strategy::Piped),
            Strategy::Piped => None,
        }
    }

    /// The strategy to try first.
    pub fn first() -> (strategy: Strategy)
        ensures
            strategy == Strategy::Pty,
    {
        Strategy::Pty
    }

    /// The strategy to try when `self` has failed, if one is left.
    pub fn fallback(self) -> (next: Option<Strategy>)
        ensures
            next == self.next_attempt(),
    {
        match self {
            Strategy::Pty => Some(Strategy::Piped),
            Strategy::Piped => None,
        }
    }
}

/// Milliseconds the loop waits for input before it ticks again.
pub const TICK_MILLIS: u64 = 100;

/// The environment overrides for the child, as name and value: output is
/// not to be buffered, and colours are to be kept though no terminal is
/// attached.
pub open spec fn child_overrides() -> Seq<(Seq<char>, Seq<char>)> {
    seq![("PYTHONUNBUFFERED"@, "1"@), ("FORCE_COLOR"@, "1"@)]
}

/// The environment overrides for the child.
pub fn child_environment() -> (vars: Vec<(String, String)>)
    ensures
        vars.deep_view() == child_overrides(),
{
    let mut vars: Vec<(String, String)> = Vec::new();
    vars.push((String::from_str("PYTHONUNBUFFERED"), String::from_str("1")));
    vars.push((String::from_str("FORCE_COLOR"), String::from_str("1")));
    assert(vars.deep_view() =~= child_overrides());
    vars
}

/// What a liveness poll of the child found.
#[derive(Clone, Copy, Debug, PartialEq, Eq, Structural)]
pub enum ChildStatus {
    /// Still running.
    Alive,
    /// Exited with a code.
    Exited(i32),
    /// Gone without a code, as after a signal.
    Ended,
}

/// One execution attempt.
#[derive(Clone, Debug, PartialEq, Eq)]
pub struct Session {
    pub strategy: Strategy,
    pub finished: bool,
    pub log: LogBuffer,
}

/// What a `Session` stands for.
pub struct SessionView {
    pub strategy: Strategy,
    pub finished: bool,
    pub log: Seq<Seq<char>>,
}

impl View for Session {
    type V = SessionView;

    open spec fn view(&self) -> SessionView {
        SessionView { strategy: self.strategy, finished: self.finished, log: self.log@ }
    }
}

/// What the surrounding loop is asked to do after an event.
#[derive(Clone, Debug, PartialEq, Eq)]
pub enum Action {
    /// Nothing.
    Nothing,
    /// End the program.
    Quit,
    /// Start this process and report how that went.
    Launch(Invocation),
    /// Send the child a kill signal.
    Kill,
    /// Tell the pseudo-terminal its new size.
    Resize { rows: u16, cols: u16 },
}

/// What an `Action` stands for.
pub enum ActionView {
    Nothing,
    Quit,
    Launch(InvocationView),
    Kill,
    Resize { rows: u16, cols: u16 },
}

impl View for Action {
    type V = ActionView;

    open spec fn view(&self) -> ActionView {
        match self {
            Action::Nothing => ActionView::Nothing,
            Action::Quit => ActionView::Quit,
            Action::Launch(inv) => ActionView::Launch(inv@),
            Action::Kill => ActionView::Kill,
            Action::Resize { rows, cols } => ActionView::Resize { rows: *rows, cols: *cols },
        }
    }
}

/// The wizard together with the session of its current run, if any.
#[derive(Clone, Debug, PartialEq, Eq)]
pub struct Runner {
    pub app: App,
    pub session: Option<Session>,
}

/// What a `Runner` stands for.
pub struct RunnerView {
    pub app: WizardState,
    pub session: Option<SessionView>,
}

impl View for Runner {
    type V = RunnerView;

    open spec fn view(&self) -> RunnerView {
        RunnerView {
            app: self.app@,
            session: match self.session {
                Some(s) => Some(s@),
                None => None,
            },
        }
    }
}

/// The line that marks a cancelled run in the log.
pub open spec fn canceled_line() -> Seq<char> {
    "[canceled]"@
}

/// The line that reports how the child ended.
pub open spec fn exit_line(status: ChildStatus) -> Seq<char> {
    match status {
        ChildStatus::Exited(code) => "[exit code "@ + decimal_text(code as int) + "]"@,
        _ => "[process ended]"@,
    }
}

/// The part of the body in which the log is shown.
pub open spec fn log_area(body: Area) -> Area {
    list_areas_of(body).list
}

impl RunnerView {
    /// The wizard's language index is in range.
    pub open spec fn wf(self) -> bool {
        self.app.wf()
    }

    /// A session exists exactly while the wizard stands on `Running`.
    pub open spec fn linked(self) -> bool {
        self.app.step == Step::Running <==> self.session is Some
    }

    /// No error message is pending while the wizard stands on `Running`:
    /// a message belongs to the step from which a launch was asked for.
    pub open spec fn undisturbed(self) -> bool {
        self.app.step == Step::Running ==> self.app.last_error is None
    }

    /// A child process is attached and has not been seen to exit.
    pub open spec fn active(self) -> bool {
        self.session matches Some(s) && !s.finished
    }

    /// An active session is attached through a pseudo-terminal.
    pub open spec fn pty_active(self) -> bool {
        self.session matches Some(s) && !s.finished && s.strategy == Strategy::Pty
    }

    /// A new run may start: no session exists, or the last one has
    /// finished.
    pub open spec fn may_launch(self) -> bool {
        !self.active()
    }

    /// The state with the error message dismissed.
    pub open spec fn dismissed(self) -> RunnerView {
        RunnerView { app: WizardState { last_error: None, ..self.app }, ..self }
    }

    /// The state after a request to cancel: the log of an active session
    /// gets the marker line; otherwise nothing changes.
    pub open spec fn canceled(self) -> RunnerView {
        match self.session {
            Some(s) => if s.finished {
                self
            } else {
                RunnerView {
                    session: Some(SessionView { log: s.log.push(canceled_line()), ..s }),
                    ..self
                }
            },
            None => self,
        }
    }

    /// The state after a request to go back: `Running` is left only once
    /// no session is active, for `Summary`, and the session is released;
    /// from any other step the wizard retreats.
    pub open spec fn left(self) -> RunnerView {
        if self.app.step == Step::Running {
            if self.active() {
                self
            } else {
                RunnerView { app: self.app.retreated(), session: None }
            }
        } else {
            RunnerView { app: self.app.retreated(), ..self }
        }
    }

    /// The state after a key press. Any key dismisses the error message;
    /// then the key is read on the current step.
    ///
    /// `Run` changes nothing more: the launch is the loop's to make and to
    /// report. `Cancel` and `Back` are described above. Everything else is
    /// the wizard's own business.
    pub open spec fn after_key(self, key: KeyInput) -> RunnerView {
        match binding(self.app.step, key) {
            Intent::Run => self.dismissed(),
            Intent::Cancel => self.dismissed().canceled(),
            Intent::Back => self.dismissed().left(),
            intent => RunnerView {
                app: effect(self.dismissed().app, intent, false),
                ..self
            },
        }
    }

    /// What the loop is asked to do after a key press.
    pub open spec fn action_for_key(self, key: KeyInput, project_dir: Option<Seq<char>>)
        -> ActionView {
        match binding(self.app.step, key) {
            Intent::Quit => ActionView::Quit,
            Intent::Run => if self.may_launch() {
                ActionView::Launch(invocation(self.app, project_dir))
            } else {
                ActionView::Nothing
            },
            Intent::Cancel => if self.active() {
                ActionView::Kill
            } else {
                ActionView::Nothing
            },
            _ => ActionView::Nothing,
        }
    }

    /// The state after a launch was reported: a started process gets a
    /// fresh session and the wizard moves to `Running`; a failure leaves
    /// its message on the step the wizard stands on. A failure reported
    /// while the wizard stands on `Running` answers no request of that
    /// step, and is dropped.
    pub open spec fn after_launch(self, outcome: Result<Strategy, Seq<char>>) -> RunnerView {
        match outcome {
            Ok(strategy) => RunnerView {
                app: WizardState { step: Step::Running, last_error: None, ..self.app },
                session: Some(SessionView { strategy, finished: false, log: Seq::empty() }),
            },
            Err(message) => if self.app.step == Step::Running {
                self
            } else {
                RunnerView { app: WizardState { last_error: Some(message), ..self.app }, ..self }
            },
        }
    }

    /// The state after a tick: the waiting events are applied to the log
    /// in order; a child first seen gone marks the session finished and
    /// adds the line that says how it ended. Without a session a tick
    /// changes nothing.
    pub open spec fn after_tick(self, events: Seq<LogEventView>, status: ChildStatus)
        -> RunnerView {
        match self.session {
            Some(s) => {
                let log = applied_all(s.log, events);
                if !s.finished && status != ChildStatus::Alive {
                    RunnerView {
                        session: Some(
                            SessionView { finished: true, log: log.push(exit_line(status)), ..s },
                        ),
                        ..self
                    }
                } else {
                    RunnerView { session: Some(SessionView { log, ..s }), ..self }
                }
            },
            None => self,
        }
    }

    /// What a resize asks for, given the body of the new screen: an active
    /// pseudo-terminal session is told the rows and columns of the log
    /// area; otherwise nothing.
    pub open spec fn resize_action(self, body: Area) -> ActionView {
        if self.pty_active() {
            ActionView::Resize { rows: log_area(body).height, cols: log_area(body).width }
        } else {
            ActionView::Nothing
        }
    }
}

impl Session {
    /// A session for a process that has just started.
    pub fn start(strategy: Strategy) -> (session: Session)
        ensures
            session@ == (SessionView { strategy, finished: false, log: Seq::empty() }),
    {
        Session { strategy, finished: false, log: LogBuffer::new() }
    }
}

/// The line that reports how the child ended.
pub fn exit_report(status: ChildStatus) -> (line: String)
    ensures
        line@ == exit_line(status),
{
    match status {
        ChildStatus::Exited(code) => {
            let mut line = String::from_str("[exit code ");
            let number = decimal(code);
            line.append(number.as_str());
            line.append("]");
            line
        },
        _ => String::from_str("[process ended]"),
    }
}

impl Runner {
    /// A fresh wizard without a session.
    pub fn new() -> (runner: Runner)
        ensures
            runner@.app == App::new_state(),
            runner@.session is None,
            runner@.wf(),
            runner@.linked(),
            runner@.undisturbed(),
    {
        Runner { app: App::new(), session: None }
    }

    /// Whether a child process is attached and has not been seen to exit.
    pub fn is_active(&self) -> (active: bool)
        ensures
            active == self@.active(),
    {
        match &self.session {
            Some(s) => !s.finished,
            None => false,
        }
    }

    fn cancel(&mut self) -> (action: Action)
        ensures
            final(self)@ == old(self)@.canceled(),
            action@ == if old(self)@.active() {
                ActionView::Kill
            } else {
                ActionView::Nothing
            },
    {
        if self.is_active() {
            let mut session = self.session.take().unwrap();
            session.log.push_line(String::from_str("[canceled]"));
            self.session = Some(session);
            Action::Kill
        } else {
            Action::Nothing
        }
    }

    fn leave(&mut self)
        ensures
            final(self)@ == old(self)@.left(),
    {
        match self.app.step {
            Step::Running => {
                if !self.is_active() {
                    self.app.prev_step();
                    self.session = None;
                }
            },
            _ => {
                self.app.prev_step();
            },
        }
    }

    fn launch(&self, project_dir: Option<String>) -> (action: Action)
        requires
            self@.wf(),
        ensures
            action@ == if self@.may_launch() {
                ActionView::Launch(invocation(self@.app, project_dir.deep_view()))
            } else {
                ActionView::Nothing
            },
    {
        if self.is_active() {
            Action::Nothing
        } else {
            Action::Launch(self.app.build(project_dir))
        }
    }

    /// Handles a key press. `project_dir` is the directory in which the
    /// project marker was found, if it was; it matters to a launch alone.
    pub fn on_key(&mut self, key: KeyInput, project_dir: Option<String>) -> (action: Action)
        requires
            old(self)@.wf(),
        ensures
            final(self)@ == old(self)@.after_key(key),
            action@ == old(self)@.action_for_key(key, project_dir.deep_view()),
            final(self)@.wf(),
            old(self)@.linked() ==> final(self)@.linked(),
            old(self)@.app.consistent() ==> final(self)@.app.consistent(),
            final(self)@.undisturbed(),
    {
        let intent = intent_of(self.app.step, &key);
        let ghost before = self@;
        self.app.last_error = None;
        assert(self@ == before.dismissed());
        assert(invocation(self@.app, project_dir.deep_view()) == invocation(
            before.app,
            project_dir.deep_view(),
        )) by {
            lemma_command_depends_on_answers_only(
                self@.app,
                before.app,
                project_dir.deep_view(),
                false,
            );
        }
        match intent {
            Intent::Run => self.launch(project_dir),
            Intent::Cancel => self.cancel(),
            Intent::Back => {
                self.leave();
                Action::Nothing
            },
            Intent::Quit => {
                self.app.apply(intent, false);
                Action::Quit
            },
            _ => {
                self.app.apply(intent, false);
                proof {
                    lemma_effect_keeps_session_link(before.dismissed().app, intent);
                }
                Action::Nothing
            },
        }
    }

    /// Takes the report of a launch: the strategy that worked, or the
    /// message of the failure.
    pub fn on_launch(&mut self, outcome: Result<Strategy, String>)
        ensures
            final(self)@ == old(self)@.after_launch(
                match outcome {
                    Ok(strategy) => Ok(strategy),
                    Err(message) => Err(message@),
                },
            ),
            old(self)@.wf() ==> final(self)@.wf(),
            old(self)@.linked() ==> final(self)@.linked(),
            old(self)@.app.consistent() ==> final(self)@.app.consistent(),
            old(self)@.undisturbed() ==> final(self)@.undisturbed(),
    {
        match outcome {
            Ok(strategy) => {
                self.app.step = Step::Running;
                self.app.last_error = None;
                self.session = Some(Session::start(strategy));
            },
            Err(message) => {
                match self.app.step {
                    Step::Running => {},
                    _ => {
                        self.app.last_error = Some(message);
                    },
                }
            },
        }
    }

    /// One tick of the loop: applies the events that were waiting and
    /// takes note of the child's status.
    pub fn on_tick(&mut self, events: Vec<LogEvent>, status: ChildStatus)
        ensures
            final(self)@ == old(self)@.after_tick(events.deep_view(), status),
            old(self)@.wf() ==> final(self)@.wf(),
            old(self)@.linked() ==> final(self)@.linked(),
            old(self)@.app.consistent() ==> final(self)@.app.consistent(),
            old(self)@.undisturbed() ==> final(self)@.undisturbed(),
    {
        if self.session.is_some() {
            let mut session = self.session.take().unwrap();
            session.log.drain(events);
            let gone = match status {
                ChildStatus::Alive => false,
                _ => true,
            };
            if !session.finished && gone {
                session.finished = true;
                session.log.push_line(exit_report(status));
            }
            self.session = Some(session);
        }
    }

    /// What a resize asks for, given the body of the new screen.
    pub fn resize_for(&self, body: Area) -> (action: Action)
        ensures
            action@ == self@.resize_action(body),
    {
        match &self.session {
            Some(s) => {
                let pty = match s.strategy {
                    Strategy::Pty => true,
                    Strategy::Piped => false,
                };
                if !s.finished && pty {
                    let area = list_areas(body).list;
                    Action::Resize { rows: area.height, cols: area.width }
                } else {
                    Action::Nothing
                }
            },
            None => Action::Nothing,
        }
    }

    /// Handles a resize of the terminal to `screen`: divides the new screen
    /// and answers for its body. The columns asked for are those of the
    /// screen. The rows are those of the log area of a body that lies
    /// within the screen, so never more than the screen has rows beyond
    /// heading and footer; which body, the layout decides.
    pub fn on_resize(&self, screen: Area) -> (action: Action)
        ensures
            !self@.pty_active() ==> action@ == ActionView::Nothing,
            self@.pty_active() ==> exists|body: Area|
                body.spans_rows_of(screen) && action@ == #[trigger] self@.resize_action(body),
            self@.pty_active() ==> action@ is Resize && action@->cols == screen.width
                && action@->rows <= log_area(screen).height,
    {
        let parts = screen_areas(screen);
        self.resize_for(parts.body)
    }
}

proof fn lemma_effect_keeps_session_link(w: WizardState, intent: Intent)
    requires
        intent != Intent::Back,
    ensures
        effect(w, intent, false).step == Step::Running <==> w.step == Step::Running,
{
}

/// Cancelling an active session puts the marker at the end of its log and
/// asks for the kill; the tick that first sees the child gone marks the
/// session finished, whatever else it brings.
pub proof fn lemma_cancel_then_exit(
    r: RunnerView,
    key: KeyInput,
    dir: Option<Seq<char>>,
    events: Seq<LogEventView>,
    status: ChildStatus,
)
    requires
        r.active(),
        binding(r.app.step, key) == Intent::Cancel,
        status != ChildStatus::Alive,
    ensures
        r.action_for_key(key, dir) == ActionView::Kill,
        r.after_key(key).session->0.log == r.session->0.log.push(canceled_line()),
        r.after_key(key).active(),
        r.after_key(key).after_tick(events, status).session is Some,
        r.after_key(key).after_tick(events, status).session->0.finished,
{
}

/// Once the session has finished, the running step accepts the way back
/// and nothing else: every other key but quitting leaves the state as it
/// is and asks for nothing, and going back leads to `Summary`, releases
/// the session and asks for nothing either.
pub proof fn lemma_finished_accepts_only_back(r: RunnerView, key: KeyInput, dir: Option<Seq<char>>)
    requires
        r.undisturbed(),
        r.app.step == Step::Running,
        r.session matches Some(s) && s.finished,
        !key.is_quit(),
    ensures
        r.action_for_key(key, dir) == ActionView::Nothing,
        key.code != KeyCode::Esc ==> r.after_key(key) == r,
        key.code == KeyCode::Esc ==> r.after_key(key) == (RunnerView {
            app: WizardState { step: Step::Summary, ..r.app },
            session: None,
        }),
{
    assert(r.dismissed() == r);
}

/// The message of a failed launch is never pending while a run is on
/// screen: whatever key, launch report or tick comes, a runner that has no
/// message pending on `Running` has none afterwards.
pub proof fn lemma_no_message_while_running(
    r: RunnerView,
    key: KeyInput,
    outcome: Result<Strategy, Seq<char>>,
    events: Seq<LogEventView>,
    status: ChildStatus,
)
    requires
        r.undisturbed(),
    ensures
        r.after_key(key).undisturbed(),
        r.after_launch(outcome).undisturbed(),
        r.after_tick(events, status).undisturbed(),
{
}

/// A finished session stays finished and an absent one stays absent,
/// whatever a tick brings: only a launch starts a run.
pub proof fn lemma_tick_never_revives(r: RunnerView, events: Seq<LogEventView>, status: ChildStatus)
    ensures
        !r.active() ==> !r.after_tick(events, status).active(),
        r.session is None <==> r.after_tick(events, status).session is None,
{
}

/// While a run is active no second one is launched: the key that asks for
/// a run is answered with a launch only where no session is active.
pub proof fn lemma_one_run_at_a_time(r: RunnerView, key: KeyInput, dir: Option<Seq<char>>)
    ensures
        r.action_for_key(key, dir) is Launch ==> !r.active() && r.app.step == Step::Summary,
{
}

} // verus!
