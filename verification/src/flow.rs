//! The vocabulary of the step machines: what a machine asks the caller to do,
//! and what the caller reports back.
use vstd::prelude::*;
use crate::command::CommandSpec;
use crate::log::{LogLevel, LogMessage};
use crate::generations::MarkedLine;
use crate::nix::{env_views, Generation};

verus! {

/// The local-time formats that the machines ask for.
#[derive(Debug, Clone, Copy, PartialEq, Eq, Structural)]
pub enum TimeFormat {
    /// `%Y.%m.%d.%I.%M.%p`, the configuration revision.
    Revision,
    /// `%Y-%m-%d %H:%M:%S`, the commit message.
    Commit,
}

/// One thing to do outside. Any failure to do it (a command that cannot be
/// started, a file that cannot be read or written) ends the run with that
/// failure.
pub enum Op {
    /// Find the flake directory; report `Resolved`.
    ResolveFlakeDir,
    /// Report with `Flag` whether the path exists.
    Exists(String),
    /// Report the host name with `Text`.
    Hostname,
    /// Report the local time in this format with `Text`.
    Clock(TimeFormat),
    /// Report with `Text` the local time this many seconds ago, written as
    /// generation dates are (`%Y-%m-%d %H:%M`); the empty text when that time
    /// cannot be represented.
    ClockBefore(u64),
    /// Report the content of the file (trimmed of nothing) with `Text`.
    ReadFile(String),
    /// Write the content to the file; report `Done`.
    WriteFile { path: String, content: String },
    /// Remove the file; report `Done`.
    RemoveFile(String),
    /// Run the command, its output going to the terminal; report its success with `Status`.
    Run(CommandSpec),
    /// Run the command with its output captured; report `Output`.
    Capture(CommandSpec),
    /// Start the progress spinner with this message; report `Done`.
    StartSpinner(String),
    /// Stop the spinner with this message; report `Done`.
    StopSpinner(String),
    /// Print this text on standard error; report `Done`.
    Print(String),
    /// Print this prompt (without ending the line), read one line of input,
    /// and report it with `Answer`.
    Ask(String),
    /// List the system generations, ordered by number; report `Generations`.
    ListGenerations,
    /// Print the `intro` lines, the marked lines, then the `outro` lines, on
    /// standard error; report `Done`.
    ShowSelection { intro: Vec<String>, lines: Vec<MarkedLine>, outro: Vec<String> },
    /// The run is over with this outcome.
    Finish(Result<(), String>),
}

/// The messages to show, then the thing to do.
pub struct Step {
    pub say: Vec<LogMessage>,
    pub op: Op,
}

/// What the caller reports after doing a step's thing.
pub enum Event {
    /// The flake directory found, if any.
    Resolved(Option<String>),
    /// A yes or no answer.
    Flag(bool),
    /// A text.
    Text(String),
    /// Whether a command succeeded.
    Status(bool),
    /// The outcome of a captured command.
    Output { success: bool, stdout: String, stderr: String },
    /// The line read, or the reason it could not be read.
    Answer(Result<String, String>),
    /// The system generations, ordered by number.
    Generations(Vec<Generation>),
    /// The thing was done.
    Done,
}

/// Op `o` runs `program` with `args` and nothing else set.
pub open spec fn runs_plain(o: Op, program: Seq<char>, args: Seq<Seq<char>>) -> bool {
    o matches Op::Run(c) && plain_command(c, program, args, None)
}

/// Op `o` asks whether `path` exists.
pub open spec fn checks(o: Op, path: Seq<char>) -> bool {
    o matches Op::Exists(p) && p@ == path
}

/// A command that runs `program` with `args` and nothing else set.
pub fn command_with(program: &str, args: &[&str]) -> (c: CommandSpec)
    ensures
        plain_command(c, program@, crate::elevation::str_views(args@), None),
{
    let mut c = CommandSpec::new(program);
    let mut i: usize = 0;
    while i < args.len()
        invariant
            i <= args.len(),
            c.program@ == program@,
            c.env@.len() == 0,
            c.current_dir is None,
            c.arg_views() == crate::elevation::str_views(args@.take(i as int)),
        decreases args.len() - i,
    {
        c.arg(args[i]);
        i += 1;
        assert(c.arg_views() =~= crate::elevation::str_views(args@.take(i as int)));
    }
    assert(args@.take(i as int) =~= args@);
    c
}

/// The levels and texts of a list of messages.
pub open spec fn messages(v: Seq<LogMessage>) -> Seq<(LogLevel, Seq<char>)> {
    v.map_values(|m: LogMessage| (m.level, m.text@))
}

/// Step `s` shows `msgs`.
pub open spec fn says(s: Step, msgs: Seq<(LogLevel, Seq<char>)>) -> bool {
    messages(s.say@) == msgs
}

/// Command `c` runs `program` with `args`, in `dir` when given, with no extra
/// environment.
pub open spec fn plain_command(c: CommandSpec, program: Seq<char>, args: Seq<Seq<char>>, dir: Option<Seq<char>>) -> bool {
    &&& c.program@ == program
    &&& c.arg_views() == args
    &&& c.env@.len() == 0
    &&& match dir {
        Some(d) => c.current_dir matches Some(x) && x@ == d,
        None => c.current_dir is None,
    }
}

/// Command `c` runs a nix tool: as [`plain_command`], with unfree packages allowed.
pub open spec fn nix_tool_command(c: CommandSpec, program: Seq<char>, args: Seq<Seq<char>>, dir: Option<Seq<char>>) -> bool {
    &&& c.program@ == program
    &&& c.arg_views() == args
    &&& env_views(c.env@) == seq![("NIXPKGS_ALLOW_UNFREE"@, "1"@)]
    &&& match dir {
        Some(d) => c.current_dir matches Some(x) && x@ == d,
        None => c.current_dir is None,
    }
}

/// Op `o` finishes the run successfully.
pub open spec fn finishes_ok(o: Op) -> bool {
    o matches Op::Finish(r) && r is Ok
}

/// Op `o` finishes the run with the failure message `msg`.
pub open spec fn finishes_err(o: Op, msg: Seq<char>) -> bool {
    o matches Op::Finish(r) && r matches Err(e) && e@ == msg
}

/// The message given when an event does not answer the step that was asked for.
pub open spec fn out_of_order() -> Seq<char> {
    "unexpected event"@
}

/// A step with nothing to show.
pub fn quiet(op: Op) -> (s: Step)
    ensures
        s.op == op,
        s.say@.len() == 0,
        messages(s.say@) == Seq::<(LogLevel, Seq<char>)>::empty(),
{
    let s = Step { say: Vec::new(), op };
    assert(messages(s.say@) =~= Seq::<(LogLevel, Seq<char>)>::empty());
    s
}

/// A step that shows one message first.
pub fn saying(m: LogMessage, op: Op) -> (s: Step)
    ensures
        s.op == op,
        messages(s.say@) == seq![(m.level, m.text@)],
{
    let ghost mv = (m.level, m.text@);
    let mut say: Vec<LogMessage> = Vec::new();
    say.push(m);
    let s = Step { say, op };
    assert(messages(s.say@) =~= seq![mv]);
    s
}

/// A step that shows two messages first.
pub fn saying2(m1: LogMessage, m2: LogMessage, op: Op) -> (s: Step)
    ensures
        s.op == op,
        messages(s.say@) == seq![(m1.level, m1.text@), (m2.level, m2.text@)],
{
    let ghost v1 = (m1.level, m1.text@);
    let ghost v2 = (m2.level, m2.text@);
    let mut say: Vec<LogMessage> = Vec::new();
    say.push(m1);
    say.push(m2);
    let s = Step { say, op };
    assert(messages(s.say@) =~= seq![v1, v2]);
    s
}

/// No message.
pub fn no_messages() -> (v: Vec<LogMessage>)
    ensures
        messages(v@) == Seq::<(LogLevel, Seq<char>)>::empty(),
{
    let v: Vec<LogMessage> = Vec::new();
    assert(messages(v@) =~= Seq::<(LogLevel, Seq<char>)>::empty());
    v
}

/// Adds a message at the end of `v`.
pub fn push_message(v: &mut Vec<LogMessage>, m: LogMessage)
    ensures
        messages(final(v)@) == messages(old(v)@).push((m.level, m.text@)),
{
    let ghost before = v@;
    let ghost mv = (m.level, m.text@);
    v.push(m);
    assert(messages(v@) =~= messages(before).push(mv));
}

/// The step that ends a run with a failure.
pub fn fail(msg: String) -> (s: Step)
    ensures
        finishes_err(s.op, msg@),
        s.say@.len() == 0,
        messages(s.say@) == Seq::<(LogLevel, Seq<char>)>::empty(),
{
    quiet(Op::Finish(Err(msg)))
}

/// The step that ends a run after an event that does not fit.
pub fn unexpected() -> (s: Step)
    ensures
        finishes_err(s.op, out_of_order()),
        messages(s.say@) == Seq::<(LogLevel, Seq<char>)>::empty(),
{
    fail("unexpected event".to_string())
}

} // verus!
