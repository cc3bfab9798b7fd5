//! Commands to run, described as plain data, and the rules applied to their output.
use vstd::prelude::*;
use crate::text::{string_views, trim, trim_spec};

verus! {

/// How the output of a command is handled while it runs.
pub struct RunOptions {
    pub show_output: bool,
    pub capture: bool,
}

impl Default for RunOptions {
    fn default() -> (r: Self)
        ensures
            r.show_output,
            !r.capture,
    {
        RunOptions { show_output: true, capture: false }
    }
}

impl RunOptions {
    /// Whether each output line is echoed while the command runs.
    pub fn echoes(&self) -> (b: bool)
        ensures
            b == (self.show_output && !self.capture),
    {
        self.show_output && !self.capture
    }
}

/// A command to run: program, arguments, extra environment and working directory.
pub struct CommandSpec {
    pub program: String,
    pub args: Vec<String>,
    pub env: Vec<(String, String)>,
    pub current_dir: Option<String>,
}

impl CommandSpec {
    /// The arguments, as character sequences.
    pub open spec fn arg_views(&self) -> Seq<Seq<char>> {
        string_views(self.args@)
    }

    /// A command that runs `program` with no arguments.
    pub fn new(program: &str) -> (r: CommandSpec)
        ensures
            r.program@ == program@,
            r.args@.len() == 0,
            r.env@.len() == 0,
            r.current_dir is None,
    {
        CommandSpec {
            program: program.to_string(),
            args: Vec::new(),
            env: Vec::new(),
            current_dir: None,
        }
    }

    /// Adds one argument at the end.
    pub fn arg(&mut self, a: &str)
        ensures
            final(self).arg_views() == old(self).arg_views().push(a@),
            final(self).program == old(self).program,
            final(self).env == old(self).env,
            final(self).current_dir == old(self).current_dir,
    {
        let ghost before = self.arg_views();
        self.args.push(a.to_string());
        assert(self.arg_views() =~= before.push(a@));
    }

    /// Sets an environment variable for the command.
    pub fn env(&mut self, key: &str, value: &str)
        ensures
            final(self).env@.len() == old(self).env@.len() + 1,
            final(self).env@.last().0@ == key@,
            final(self).env@.last().1@ == value@,
            final(self).env@.drop_last() == old(self).env@,
            final(self).program == old(self).program,
            final(self).args == old(self).args,
            final(self).current_dir == old(self).current_dir,
    {
        self.env.push((key.to_string(), value.to_string()));
    }

    /// Sets the working directory of the command.
    pub fn current_dir(&mut self, dir: &str)
        ensures
            final(self).current_dir matches Some(d) && d@ == dir@,
            final(self).program == old(self).program,
            final(self).args == old(self).args,
            final(self).env == old(self).env,
    {
        self.current_dir = Some(dir.to_string());
    }
}

/// `parts` joined with `sep` between consecutive parts, as `[String]::join` does.
pub open spec fn joined(parts: Seq<Seq<char>>, sep: Seq<char>) -> Seq<char>
    decreases parts.len(),
{
    if parts.len() == 0 {
        seq![]
    } else if parts.len() == 1 {
        parts[0]
    } else {
        joined(parts.drop_last(), sep) + sep + parts.last()
    }
}

/// The captured lines of a stream, joined with newlines.
pub fn join_lines(lines: &[String]) -> (r: String)
    ensures
        r@ == joined(string_views(lines@), seq!['\n']),
{
    let mut r = String::new();
    let mut i: usize = 0;
    while i < lines.len()
        invariant
            i <= lines.len(),
            r@ == joined(string_views(lines@.take(i as int)), seq!['\n']),
        decreases lines.len() - i,
    {
        let ghost v = string_views(lines@.take(i + 1));
        assert(v.drop_last() =~= string_views(lines@.take(i as int)));
        assert(v.last() == lines@[i as int]@);
        if i > 0 {
            crate::text::push_char(&mut r, '\n');
        } else {
            assert(r@ =~= Seq::<char>::empty());
        }
        let ghost before = r@;
        r = r.concat(lines[i].as_str());
        i += 1;
        proof {
            if i == 1 {
                assert(r@ =~= v[0]);
            }
        }
    }
    assert(lines@.take(lines.len() as int) =~= lines@);
    r
}

/// What a command run for its output yields: its trimmed standard output when
/// it succeeded, and otherwise the failure message with its trimmed standard error.
pub fn simple_outcome(success: bool, stdout: &str, stderr: &str) -> (r: Result<String, String>)
    ensures
        success <==> r is Ok,
        r matches Ok(o) ==> o@ == trim_spec(stdout@),
        r matches Err(e) ==> e@ == "Command failed: "@ + trim_spec(stderr@),
{
    if !success {
        let msg = "Command failed: ".to_string().concat(trim(stderr).as_str());
        return Err(msg);
    }
    Ok(trim(stdout))
}

/// The refusal given when an operation needs root and the process is not root.
pub fn require_root(is_root: bool) -> (r: Result<(), String>)
    ensures
        is_root <==> r is Ok,
        r matches Err(e) ==> e@ == "This command requires root. Re-run with sudo."@,
{
    if !is_root {
        Err("This command requires root. Re-run with sudo.".to_string())
    } else {
        Ok(())
    }
}

} // verus!
