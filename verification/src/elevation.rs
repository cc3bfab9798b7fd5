//! How commands are run with root rights.
use vstd::prelude::*;
use crate::command::CommandSpec;

verus! {

/// The tool used to gain root rights.
#[derive(Debug, Clone, Copy, PartialEq, Eq, Structural)]
pub enum Elevation {
    Sudo,
    Doas,
    Run0,
    Pkexec,
    Direct,
}

/// The tool chosen for a process: none when already root; otherwise the first
/// available of `doas`, `run0`, `sudo`, `pkexec`; none when none is available.
pub open spec fn detect_spec(is_root: bool, doas: bool, run0: bool, sudo: bool, pkexec: bool) -> Elevation {
    if is_root {
        Elevation::Direct
    } else if doas {
        Elevation::Doas
    } else if run0 {
        Elevation::Run0
    } else if sudo {
        Elevation::Sudo
    } else if pkexec {
        Elevation::Pkexec
    } else {
        Elevation::Direct
    }
}

/// The views of a sequence of string slices.
pub open spec fn str_views(v: Seq<&str>) -> Seq<Seq<char>> {
    v.map_values(|s: &str| s@)
}

/// The program that grants root rights with this tool, if any.
pub open spec fn elevator_program(e: Elevation) -> Option<Seq<char>> {
    match e {
        Elevation::Sudo => Some("sudo"@),
        Elevation::Doas => Some("doas"@),
        Elevation::Run0 => Some("run0"@),
        Elevation::Pkexec => Some("pkexec"@),
        Elevation::Direct => None,
    }
}

impl Elevation {
    /// Chooses the tool from what was found: whether the process is root, and
    /// whether each of `doas`, `run0`, `sudo`, `pkexec` is on the search path.
    pub fn from_probe(is_root: bool, doas: bool, run0: bool, sudo: bool, pkexec: bool) -> (r: Self)
        ensures
            r == detect_spec(is_root, doas, run0, sudo, pkexec),
    {
        if is_root {
            return Elevation::Direct;
        }
        if doas {
            return Elevation::Doas;
        }
        if run0 {
            return Elevation::Run0;
        }
        if sudo {
            return Elevation::Sudo;
        }
        if pkexec {
            return Elevation::Pkexec;
        }
        Elevation::Direct
    }

    /// Whether a tool is available.
    pub fn is_available(&self) -> (b: bool)
        ensures
            b == (*self != Elevation::Direct),
    {
        *self != Elevation::Direct
    }

    /// Adjusts `cmd` for this tool: with `sudo`, the whole command is wrapped,
    /// so that `sudo` runs with the former program and then its arguments;
    /// otherwise nothing changes.
    pub fn elevate(&self, cmd: &mut CommandSpec)
        ensures
            final(cmd).env == old(cmd).env,
            final(cmd).current_dir == old(cmd).current_dir,
            *self == Elevation::Sudo ==> final(cmd).program@ == "sudo"@ && final(cmd).arg_views()
                == seq![old(cmd).program@] + old(cmd).arg_views(),
            *self != Elevation::Sudo ==> final(cmd).program == old(cmd).program,
            *self != Elevation::Sudo ==> final(cmd).arg_views() == old(cmd).arg_views(),
    {
        match self {
            Elevation::Sudo => {
                let ghost a0 = cmd.arg_views();
                let args = copy_strings(&cmd.args);
                let mut wrapped = CommandSpec::new("sudo");
                wrapped.arg(cmd.program.as_str());
                let mut i: usize = 0;
                while i < args.len()
                    invariant
                        i <= args.len(),
                        crate::text::string_views(args@) == a0,
                        wrapped.program@ == "sudo"@,
                        wrapped.arg_views() == seq![old(cmd).program@] + a0.take(i as int),
                    decreases args.len() - i,
                {
                    wrapped.arg(args[i].as_str());
                    i += 1;
                    assert(wrapped.arg_views() =~= seq![old(cmd).program@] + a0.take(i as int));
                }
                assert(a0.take(i as int) =~= a0);
                cmd.program = wrapped.program;
                cmd.args = wrapped.args;
            },
            _ => {},
        }
    }
}

/// A copy of a list of strings.
pub fn copy_strings(v: &Vec<String>) -> (r: Vec<String>)
    ensures
        crate::text::string_views(r@) == crate::text::string_views(v@),
{
    let mut r: Vec<String> = Vec::new();
    let mut i: usize = 0;
    while i < v.len()
        invariant
            i <= v.len(),
            crate::text::string_views(r@) == crate::text::string_views(v@.take(i as int)),
        decreases v.len() - i,
    {
        let ghost before = r@;
        let x = v[i].clone();
        r.push(x);
        assert(r@ == before.push(v@[i as int]));
        assert(v@.take(i + 1) =~= v@.take(i as int).push(v@[i as int]));
        proof {
            crate::text::lemma_string_views_push(before, v@[i as int]);
            crate::text::lemma_string_views_push(v@.take(i as int), v@[i as int]);
        }
        i += 1;
        assert(crate::text::string_views(r@) =~= crate::text::string_views(v@.take(i as int)));
    }
    assert(v@.take(i as int) =~= v@);
    r
}

/// The command that runs `program` with `args` through the tool `elev`: the
/// tool's program with `program` and `args` as its arguments, or `program`
/// itself when there is no tool.
pub fn root_invocation(elev: Elevation, program: &str, args: &[&str]) -> (r: CommandSpec)
    ensures
        r.env@.len() == 0,
        r.current_dir is None,
        match elevator_program(elev) {
            Some(p) => r.program@ == p && r.arg_views() == seq![program@] + str_views(args@),
            None => r.program@ == program@ && r.arg_views() == str_views(args@),
        },
{
    let mut c = match elev {
        Elevation::Sudo => CommandSpec::new("sudo"),
        Elevation::Doas => CommandSpec::new("doas"),
        Elevation::Run0 => CommandSpec::new("run0"),
        Elevation::Pkexec => CommandSpec::new("pkexec"),
        Elevation::Direct => CommandSpec::new(program),
    };
    let ghost a0 = c.arg_views();
    assert(a0 =~= Seq::<Seq<char>>::empty());
    if elev != Elevation::Direct {
        c.arg(program);
    }
    let ghost a1 = c.arg_views();
    let mut i: usize = 0;
    while i < args.len()
        invariant
            i <= args.len(),
            c.arg_views() == a1 + str_views(args@.take(i as int)),
            c.env@.len() == 0,
            c.current_dir is None,
            c.program@ == (match elevator_program(elev) {
                Some(p) => p,
                None => program@,
            }),
        decreases args.len() - i,
    {
        c.arg(args[i]);
        i += 1;
        assert(c.arg_views() =~= a1 + str_views(args@.take(i as int)));
    }
    assert(args@.take(i as int) =~= args@);
    assert(c.arg_views() =~= a1 + str_views(args@));
    c
}

} // verus!
