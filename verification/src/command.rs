//! From the wizard's answers to the command that runs the generator.

use vstd::prelude::*;
use crate::catalog::{code_of, lang_code, lemma_only_last_code_is_empty, LANG_COUNT};
use crate::text::{join_with_space, joined, quote, quoted, trim, trimmed};
use crate::wizard::{App, BurnFormat, BurnUse, SourceMode, WizardState};

verus! {

/// A program, its argument vector and the directory to start it in.
#[derive(Clone, Debug, PartialEq, Eq)]
pub struct Invocation {
    pub program: String,
    pub args: Vec<String>,
    pub workdir: Option<String>,
}

/// What an `Invocation` stands for.
pub struct InvocationView {
    pub program: Seq<char>,
    pub args: Seq<Seq<char>>,
    pub workdir: Option<Seq<char>>,
}

impl View for Invocation {
    type V = InvocationView;

    open spec fn view(&self) -> InvocationView {
        InvocationView {
            program: self.program@,
            args: self.args.deep_view(),
            workdir: self.workdir.deep_view(),
        }
    }
}

/// The word the generator expects for a burn source.
pub open spec fn burn_use_word(choice: BurnUse) -> Seq<char> {
    match choice {
        BurnUse::Translated => "translated"@,
        BurnUse::Original => "original"@,
    }
}

/// The word the generator expects for a burn format.
pub open spec fn burn_format_word(choice: BurnFormat) -> Seq<char> {
    match choice {
        BurnFormat::Mp4 => "mp4"@,
        BurnFormat::Webm => "webm"@,
    }
}

/// `--src <path>`, preceded in YouTube mode by `--yt <url>` when the trimmed
/// URL is not empty. With `quote` the URL stands between double quotes.
pub open spec fn source_args(w: WizardState, quote: bool) -> Seq<Seq<char>> {
    let url = trimmed(w.yt_url);
    if w.mode == SourceMode::YouTube && url.len() > 0 {
        seq![
            "--yt"@,
            if quote {
                quoted(url)
            } else {
                url
            },
            "--src"@,
            w.src_path,
        ]
    } else {
        seq!["--src"@, w.src_path]
    }
}

/// `--lang <code>`, unless the chosen entry has no code.
pub open spec fn lang_args(w: WizardState) -> Seq<Seq<char>> {
    if code_of(w.lang_index).len() > 0 {
        seq!["--lang"@, code_of(w.lang_index)]
    } else {
        Seq::empty()
    }
}

/// `--overwrite`, if set.
pub open spec fn overwrite_args(w: WizardState) -> Seq<Seq<char>> {
    if w.overwrite {
        seq!["--overwrite"@]
    } else {
        Seq::empty()
    }
}

/// `--burn-in --burn-use <word> --burn-format <word>`, if burn-in is set.
pub open spec fn burn_args(w: WizardState) -> Seq<Seq<char>> {
    if w.burn_in {
        seq![
            "--burn-in"@,
            "--burn-use"@,
            burn_use_word(w.burn_use),
            "--burn-format"@,
            burn_format_word(w.burn_format),
        ]
    } else {
        Seq::empty()
    }
}

/// The generator's arguments, in the order it expects them.
pub open spec fn tool_args(w: WizardState, quote: bool) -> Seq<Seq<char>> {
    source_args(w, quote) + lang_args(w) + overwrite_args(w) + burn_args(w)
}

/// How the generator is started: through the runner `uv` inside a project,
/// directly otherwise.
pub open spec fn launcher(in_project: bool) -> Seq<Seq<char>> {
    if in_project {
        seq!["uv"@, "run"@, "subtitle-gen"@]
    } else {
        seq!["subtitle-gen"@]
    }
}

/// The command as one line of text, for showing and for a shell script.
pub open spec fn command_line(w: WizardState, in_project: bool) -> Seq<char> {
    joined(launcher(in_project) + tool_args(w, true))
}

/// The command as a process to spawn: no argument is quoted, and the
/// project directory, where there is one, is the working directory.
pub open spec fn invocation(w: WizardState, project_dir: Option<Seq<char>>) -> InvocationView {
    let words = launcher(project_dir is Some);
    InvocationView {
        program: words[0],
        args: words.skip(1) + tool_args(w, false),
        workdir: project_dir,
    }
}

/// The shell script that changes to `dir` and runs `command` there.
pub open spec fn script_of(dir: Seq<char>, command: Seq<char>) -> Seq<char> {
    "#!/bin/bash\ncd \""@ + dir + "\"\n"@ + command + "\n"@
}

fn push_word(parts: &mut Vec<String>, word: &str)
    ensures
        final(parts).deep_view() == old(parts).deep_view().push(word@),
{
    parts.push(String::from_str(word));
    assert(parts.deep_view() =~= old(parts).deep_view().push(word@));
}

impl App {
    fn push_source_args(&self, quote_url: bool, parts: &mut Vec<String>)
        ensures
            final(parts).deep_view() == old(parts).deep_view() + source_args(self@, quote_url),
    {
        let ghost start = parts.deep_view();
        match self.mode {
            SourceMode::Local => {},
            SourceMode::YouTube => {
                let url = trim(self.yt_url.as_str());
                if !url.is_empty() {
                    push_word(parts, "--yt");
                    if quote_url {
                        let q = quote(url);
                        push_word(parts, q.as_str());
                    } else {
                        push_word(parts, url);
                    }
                }
            },
        }
        push_word(parts, "--src");
        push_word(parts, self.src_path.as_str());
        assert(parts.deep_view() =~= start + source_args(self@, quote_url));
    }

    fn push_lang_args(&self, parts: &mut Vec<String>)
        requires
            self@.wf(),
        ensures
            final(parts).deep_view() == old(parts).deep_view() + lang_args(self@),
    {
        let ghost start = parts.deep_view();
        let code = lang_code(self.lang_index);
        if !code.is_empty() {
            push_word(parts, "--lang");
            push_word(parts, code);
        }
        assert(parts.deep_view() =~= start + lang_args(self@));
    }

    fn push_overwrite_args(&self, parts: &mut Vec<String>)
        ensures
            final(parts).deep_view() == old(parts).deep_view() + overwrite_args(self@),
    {
        let ghost start = parts.deep_view();
        if self.overwrite {
            push_word(parts, "--overwrite");
        }
        assert(parts.deep_view() =~= start + overwrite_args(self@));
    }

    fn push_burn_args(&self, parts: &mut Vec<String>)
        ensures
            final(parts).deep_view() == old(parts).deep_view() + burn_args(self@),
    {
        let ghost start = parts.deep_view();
        if self.burn_in {
            push_word(parts, "--burn-in");
            push_word(parts, "--burn-use");
            push_word(
                parts,
                match self.burn_use {
                    BurnUse::Translated => "translated",
                    BurnUse::Original => "original",
                },
            );
            push_word(parts, "--burn-format");
            push_word(
                parts,
                match self.burn_format {
                    BurnFormat::Mp4 => "mp4",
                    BurnFormat::Webm => "webm",
                },
            );
        }
        assert(parts.deep_view() =~= start + burn_args(self@));
    }

    fn push_tool_args(&self, quote_url: bool, parts: &mut Vec<String>)
        requires
            self@.wf(),
        ensures
            final(parts).deep_view() == old(parts).deep_view() + tool_args(self@, quote_url),
    {
        let ghost start = parts.deep_view();
        self.push_source_args(quote_url, parts);
        self.push_lang_args(parts);
        self.push_overwrite_args(parts);
        self.push_burn_args(parts);
        assert(parts.deep_view() =~= start + tool_args(self@, quote_url));
    }

    /// The argument vector for the generator itself, each argument a token
    /// of its own, unquoted.
    pub fn arguments(&self) -> (args: Vec<String>)
        requires
            self@.wf(),
        ensures
            args.deep_view() == tool_args(self@, false),
    {
        let mut args: Vec<String> = Vec::new();
        assert(args.deep_view() =~= Seq::<Seq<char>>::empty());
        self.push_tool_args(false, &mut args);
        assert(Seq::<Seq<char>>::empty() + tool_args(self@, false) =~= tool_args(self@, false));
        args
    }

    /// The process to spawn. `project_dir` is the directory in which the
    /// project marker was found, if it was.
    pub fn build(&self, project_dir: Option<String>) -> (inv: Invocation)
        requires
            self@.wf(),
        ensures
            inv@ == invocation(self@, project_dir.deep_view()),
    {
        let mut args: Vec<String> = Vec::new();
        assert(args.deep_view() =~= Seq::<Seq<char>>::empty());
        let program = if project_dir.is_some() {
            push_word(&mut args, "run");
            push_word(&mut args, "subtitle-gen");
            String::from_str("uv")
        } else {
            String::from_str("subtitle-gen")
        };
        assert(args.deep_view() =~= launcher(project_dir is Some).skip(1));
        self.push_tool_args(false, &mut args);
        Invocation { program, args, workdir: project_dir }
    }

    /// The command as one line, with the URL between double quotes.
    /// `in_project` says whether the project marker was found.
    pub fn build_command(&self, in_project: bool) -> (line: String)
        requires
            self@.wf(),
        ensures
            line@ == command_line(self@, in_project),
    {
        let mut parts: Vec<String> = Vec::new();
        assert(parts.deep_view() =~= Seq::<Seq<char>>::empty());
        if in_project {
            push_word(&mut parts, "uv");
            push_word(&mut parts, "run");
        }
        push_word(&mut parts, "subtitle-gen");
        assert(parts.deep_view() =~= launcher(in_project));
        self.push_tool_args(true, &mut parts);
        join_with_space(&parts)
    }

    /// Records the command line as generated and asks the program to end.
    pub fn execute(&mut self, in_project: bool)
        requires
            old(self)@.wf(),
        ensures
            final(self)@ == (WizardState {
                generated_command: Some(command_line(old(self)@, in_project)),
                should_exit: true,
                ..old(self)@
            }),
    {
        self.generated_command = Some(self.build_command(in_project));
        self.should_exit = true;
    }
}

/// The command is a function of the answers and of the probe's result
/// alone: two wizards with the same answers get the same process and the
/// same command line, wherever each stands and whatever else it holds.
pub proof fn lemma_command_depends_on_answers_only(
    a: WizardState,
    b: WizardState,
    project_dir: Option<Seq<char>>,
    in_project: bool,
)
    requires
        a.same_answers(b),
    ensures
        invocation(a, project_dir) == invocation(b, project_dir),
        command_line(a, in_project) == command_line(b, in_project),
{
    assert(tool_args(a, false) == tool_args(b, false));
    assert(tool_args(a, true) == tool_args(b, true));
}

/// With a local source, no translation, nothing overwritten and nothing
/// burned, the arguments are `--src` and the path, and nothing else.
pub proof fn lemma_bare_local_arguments(w: WizardState)
    requires
        w.mode == SourceMode::Local,
        w.lang_index == LANG_COUNT - 1,
        !w.overwrite,
        !w.burn_in,
    ensures
        tool_args(w, false) == seq!["--src"@, w.src_path],
{
    lemma_only_last_code_is_empty(w.lang_index);
    assert(tool_args(w, false) =~= seq!["--src"@, w.src_path]);
}

/// `--src` and the path are always among the arguments, and what follows
/// them does not depend on the source: language, overwrite and burn
/// options come after, in that order.
pub proof fn lemma_source_comes_first(w: WizardState, quote: bool)
    ensures
        ({
            let args = tool_args(w, quote);
            let n = source_args(w, quote).len() as int;
            &&& n == 2 || n == 4
            &&& args.len() >= n
            &&& args[n - 2] == "--src"@
            &&& args[n - 1] == w.src_path
            &&& args.skip(n) == lang_args(w) + overwrite_args(w) + burn_args(w)
            &&& n == 4 <==> w.mode == SourceMode::YouTube && trimmed(w.yt_url).len() > 0
        }),
{
    let args = tool_args(w, quote);
    let n = source_args(w, quote).len() as int;
    assert(args.skip(n) =~= lang_args(w) + overwrite_args(w) + burn_args(w));
}

/// The text of the convenience script for a generated command.
pub fn script_text(dir: &str, command: &str) -> (script: String)
    ensures
        script@ == script_of(dir@, command@),
{
    let mut script = String::from_str("#!/bin/bash\ncd \"");
    script.append(dir);
    script.append("\"\n");
    script.append(command);
    script.append("\n");
    script
}

} // verus!
