//! The rebuild of the system configuration, as a step machine: it says what to
//! do next, and the caller does it and reports back.
use vstd::prelude::*;
use crate::args::RebuildArgs;
use crate::command::CommandSpec;
use crate::flow::{
    fail, finishes_err, finishes_ok, messages, no_messages, push_message, nix_tool_command, plain_command, quiet, saying,
    saying2, says, unexpected, out_of_order, Event, Op, Step, TimeFormat,
};
use crate::log::{done, error, info, warn, LogLevel, LogMessage};
use crate::nix::nix_flake_update_command;
use crate::nixos::{apply_revision, stamp_spec};
use crate::paths::{expand_home, expand_home_spec, join_spec, join_str};
use crate::nix::str_option_view;
use crate::text::{string_views, trim, trim_spec};

verus! {

/// Where a rebuild stands: what it waits to hear about.
#[derive(Debug, Clone, Copy, PartialEq, Eq, Structural)]
pub enum RebuildStage {
    Resolving,
    CheckingFlake,
    GettingHost,
    UpdatingInput(usize),
    UpdatingAll,
    Dating,
    CheckingRevisionFile,
    ReadingRevisionFile,
    WritingRevisionFile,
    StartingSpinner,
    Building,
    StoppingSpinnerAfterFailure,
    PrintingBlank,
    PrintingBuildOutput,
    StoppingSpinner,
    CheckingActivation,
    Activating,
    SettingProfile,
    Staging,
    Diffing,
    DatingCommit,
    Committing,
    Finished,
}

/// A rebuild in progress: its options, its stage, and what it has learned.
pub struct Rebuild {
    pub update: bool,
    pub update_input: Option<Vec<String>>,
    pub no_commit: bool,
    pub dry: bool,
    pub stage: RebuildStage,
    pub flake_dir: String,
    pub hostname: String,
    pub date: String,
    pub store_path: String,
    pub build_errors: String,
    pub commit_date: String,
}

/// `flake.nix` in `dir`.
pub open spec fn flake_file(dir: Seq<char>) -> Seq<char> {
    join_spec(dir, "flake.nix"@)
}

/// The file that holds the configuration revision, in `dir`.
pub open spec fn revision_file(dir: Seq<char>) -> Seq<char> {
    join_spec(dir, "modules/core/nix.nix"@)
}

/// The attribute of the system build for `host`.
pub open spec fn toplevel_spec(host: Seq<char>) -> Seq<char> {
    "nixosConfigurations."@ + host + ".config.system.build.toplevel"@
}

/// The activation program of a built system.
pub open spec fn switch_program(store: Seq<char>) -> Seq<char> {
    join_spec(store, "bin/switch-to-configuration"@)
}

/// The inputs to update one by one, when given.
pub open spec fn input_views(r: Rebuild) -> Seq<Seq<char>> {
    match r.update_input {
        Some(v) => string_views(v@),
        None => Seq::<Seq<char>>::empty(),
    }
}

/// Op `o` runs `nix flake lock --update-input <input>` in `dir`.
pub open spec fn locks_input(o: Op, input: Seq<char>, dir: Seq<char>) -> bool {
    o matches Op::Run(c) && plain_command(
        c,
        "nix"@,
        seq!["flake"@, "lock"@, "--update-input"@, input],
        Some(dir),
    )
}

/// Op `o` runs `git <args>` in `dir`.
pub open spec fn runs_git(o: Op, args: Seq<Seq<char>>, dir: Seq<char>) -> bool {
    o matches Op::Run(c) && plain_command(c, "git"@, args, Some(dir))
}

/// Op `o` sets the system profile to the build of `host`, from `dir`.
pub open spec fn sets_profile(o: Op, host: Seq<char>, dir: Seq<char>) -> bool {
    o matches Op::Run(c) && plain_command(
        c,
        "nix"@,
        seq!["build"@, "--profile"@, "/nix/var/nix/profiles/system"@, toplevel_spec(host)],
        Some(dir),
    )
}

/// The step after the revision stamp: announce the build (after `before`),
/// then stop if dry, else start the spinner.
pub open spec fn build_start_spec(
    old: Rebuild,
    before: Seq<(LogLevel, Seq<char>)>,
    new: Rebuild,
    s: Step,
) -> bool {
    let top = toplevel_spec(old.hostname@);
    if old.dry {
        &&& says(
            s,
            before + seq![
                (LogLevel::Info, "Building system..."@),
                (LogLevel::Info, "Would build: "@ + top),
            ],
        )
        &&& finishes_ok(s.op)
        &&& new.stage == RebuildStage::Finished
    } else {
        &&& says(s, before + seq![(LogLevel::Info, "Building system..."@)])
        &&& s.op matches Op::StartSpinner(m) && m@ == "Building system configuration..."@
        &&& new.stage == RebuildStage::StartingSpinner
    }
}

/// The step after the flake inputs are handled (after `before`): read the clock.
pub open spec fn dating_spec(before: Seq<(LogLevel, Seq<char>)>, new: Rebuild, s: Step) -> bool {
    &&& says(s, before)
    &&& s.op matches Op::Clock(f) && f == TimeFormat::Revision
    &&& new.stage == RebuildStage::Dating
}

/// The step after activation is settled (after `before`): set the profile.
pub open spec fn profile_spec(old: Rebuild, before: Seq<(LogLevel, Seq<char>)>, new: Rebuild, s: Step) -> bool {
    &&& says(s, before)
    &&& sets_profile(s.op, old.hostname@, old.flake_dir@)
    &&& new.stage == RebuildStage::SettingProfile
}

/// The rebuild's data that a step leaves alone, besides what it says it sets.
pub open spec fn keeps_options(old: Rebuild, new: Rebuild) -> bool {
    &&& new.update == old.update
    &&& new.update_input == old.update_input
    &&& new.no_commit == old.no_commit
    &&& new.dry == old.dry
}

/// The data that a step leaves alone.
pub open spec fn keeps_data(old: Rebuild, new: Rebuild) -> bool {
    &&& new.flake_dir == old.flake_dir
    &&& new.hostname == old.hostname
    &&& new.date == old.date
    &&& new.store_path == old.store_path
    &&& new.build_errors == old.build_errors
    &&& new.commit_date == old.commit_date
}

/// The first step of a rebuild with options `a`, in a session whose home
/// directory is `home`: check the given flake directory (a leading `~` read as
/// the home directory), or find one.
pub open spec fn rebuild_start_spec(a: RebuildArgs, home: Option<Seq<char>>, r: Rebuild, s: Step) -> bool {
    &&& r.update == a.update
    &&& r.update_input == a.update_input
    &&& r.no_commit == a.no_commit
    &&& r.dry == a.dry
    &&& says(s, seq![])
    &&& match a.flake {
        Some(f) => r.flake_dir@ == expand_home_spec(f@, home) && r.stage == RebuildStage::CheckingFlake
            && (s.op matches Op::Exists(p) && p@ == flake_file(r.flake_dir@)),
        None => r.stage == RebuildStage::Resolving && s.op is ResolveFlakeDir,
    }
}

/// One step of a rebuild: how the stage and data change, and what is asked
/// next, for each stage and the event that answers it.
///
/// The flake directory (given, found, or `.`) must hold `flake.nix`. With
/// `update`, the given inputs are updated one by one (a failure is only
/// warned about) or else all of them (a failure ends the run). The revision
/// file, if present, is stamped with the time (see
/// [`crate::nixos::apply_revision`]) and written back if that changed it. A dry
/// run stops after naming the build. The build runs under a spinner; when it
/// fails its error output is shown and the run fails. The built system is
/// activated if it has an activation program (its failure ends the run),
/// the profile is set, and unless `no_commit` the flake directory is
/// committed with the time as message when staging left a difference.
pub open spec fn rebuild_step_spec(old: Rebuild, ev: Event, new: Rebuild, s: Step) -> bool {
    &&& keeps_options(old, new)
    &&& match (old.stage, ev) {
        (RebuildStage::Resolving, Event::Resolved(found)) => {
            &&& new.flake_dir@ == (match found {
                Some(d) => d@,
                None => "."@,
            })
            &&& new.hostname == old.hostname && new.date == old.date
            &&& new.stage == RebuildStage::CheckingFlake
            &&& says(s, seq![])
            &&& s.op matches Op::Exists(p) && p@ == flake_file(new.flake_dir@)
        },
        (RebuildStage::CheckingFlake, Event::Flag(present)) => {
            &&& keeps_data(old, new)
            &&& says(s, seq![])
            &&& if present {
                new.stage == RebuildStage::GettingHost && s.op is Hostname
            } else {
                new.stage == RebuildStage::Finished && finishes_err(
                    s.op,
                    "No flake.nix found in "@ + old.flake_dir@,
                )
            }
        },
        (RebuildStage::GettingHost, Event::Text(host)) => {
            &&& new.hostname@ == host@
            &&& new.flake_dir == old.flake_dir && new.date == old.date
            &&& if !old.update {
                dating_spec(seq![], new, s)
            } else {
                let start = seq![(LogLevel::Info, "Updating flake inputs..."@)];
                match old.update_input {
                    Some(v) => if v@.len() == 0 {
                        dating_spec(start + seq![(LogLevel::Done, "Flake inputs updated"@)], new, s)
                    } else {
                        &&& says(s, start)
                        &&& locks_input(s.op, v@[0]@, old.flake_dir@)
                        &&& new.stage == RebuildStage::UpdatingInput(0)
                    },
                    None => {
                        &&& says(s, start)
                        &&& s.op matches Op::Run(c) && nix_tool_command(
                            c,
                            "nix"@,
                            seq!["flake"@, "update"@],
                            Some(old.flake_dir@),
                        )
                        &&& new.stage == RebuildStage::UpdatingAll
                    },
                }
            }
        },
        (RebuildStage::UpdatingInput(i), Event::Status(ok)) => {
            let inputs = input_views(old);
            let warned = if ok {
                Seq::<(LogLevel, Seq<char>)>::empty()
            } else {
                seq![(LogLevel::Warn, "Failed to update input: "@ + inputs[i as int])]
            };
            &&& keeps_data(old, new)
            &&& if i >= inputs.len() {
                new.stage == RebuildStage::Finished && says(s, seq![]) && finishes_err(
                    s.op,
                    out_of_order(),
                )
            } else if i + 1 < inputs.len() {
                &&& says(s, warned)
                &&& locks_input(s.op, inputs[i + 1], old.flake_dir@)
                &&& new.stage == RebuildStage::UpdatingInput((i + 1) as usize)
            } else {
                dating_spec(warned + seq![(LogLevel::Done, "Flake inputs updated"@)], new, s)
            }
        },
        (RebuildStage::UpdatingAll, Event::Status(ok)) => {
            &&& keeps_data(old, new)
            &&& if ok {
                dating_spec(seq![(LogLevel::Done, "Flake inputs updated"@)], new, s)
            } else {
                new.stage == RebuildStage::Finished && says(s, seq![]) && finishes_err(
                    s.op,
                    "nix flake update failed"@,
                )
            }
        },
        (RebuildStage::Dating, Event::Text(d)) => {
            &&& new.date@ == d@
            &&& new.flake_dir == old.flake_dir && new.hostname == old.hostname
            &&& new.stage == RebuildStage::CheckingRevisionFile
            &&& says(s, seq![])
            &&& s.op matches Op::Exists(p) && p@ == revision_file(old.flake_dir@)
        },
        (RebuildStage::CheckingRevisionFile, Event::Flag(present)) => {
            &&& keeps_data(old, new)
            &&& if present {
                &&& new.stage == RebuildStage::ReadingRevisionFile
                &&& says(s, seq![])
                &&& s.op matches Op::ReadFile(p) && p@ == revision_file(old.flake_dir@)
            } else {
                build_start_spec(old, seq![], new, s)
            }
        },
        (RebuildStage::ReadingRevisionFile, Event::Text(content)) => {
            let updated = match stamp_spec(content@, old.date@) {
                Some(t) => t,
                None => content@,
            };
            &&& keeps_data(old, new)
            &&& if updated != content@ {
                &&& new.stage == RebuildStage::WritingRevisionFile
                &&& says(s, seq![])
                &&& s.op matches Op::WriteFile { path, content: c } && path@ == revision_file(
                    old.flake_dir@,
                ) && c@ == updated
            } else {
                build_start_spec(old, seq![], new, s)
            }
        },
        (RebuildStage::WritingRevisionFile, Event::Done) => {
            &&& keeps_data(old, new)
            &&& build_start_spec(
                old,
                seq![(LogLevel::Info, "Updated configuration revision to "@ + old.date@)],
                new,
                s,
            )
        },
        (RebuildStage::StartingSpinner, Event::Done) => {
            &&& keeps_data(old, new)
            &&& new.stage == RebuildStage::Building
            &&& says(s, seq![])
            &&& s.op matches Op::Capture(c) && plain_command(
                c,
                "nix"@,
                seq![
                    "build"@,
                    "--no-link"@,
                    "--print-out-paths"@,
                    toplevel_spec(old.hostname@),
                ],
                Some(old.flake_dir@),
            )
        },
        (RebuildStage::Building, Event::Output { success, stdout, stderr }) => {
            &&& new.flake_dir == old.flake_dir && new.hostname == old.hostname && new.date
                == old.date
            &&& says(s, seq![])
            &&& if success {
                &&& new.store_path@ == trim_spec(stdout@)
                &&& new.stage == RebuildStage::StoppingSpinner
                &&& s.op matches Op::StopSpinner(m) && m@ == "Built: "@ + trim_spec(stdout@)
            } else {
                &&& new.build_errors@ == stderr@
                &&& new.stage == RebuildStage::StoppingSpinnerAfterFailure
                &&& s.op matches Op::StopSpinner(m) && m@ == "Build failed"@
            }
        },
        (RebuildStage::StoppingSpinnerAfterFailure, Event::Done) => {
            &&& keeps_data(old, new)
            &&& new.stage == RebuildStage::PrintingBlank
            &&& says(s, seq![])
            &&& s.op matches Op::Print(t) && t@.len() == 0
        },
        (RebuildStage::PrintingBlank, Event::Done) => {
            &&& keeps_data(old, new)
            &&& new.stage == RebuildStage::PrintingBuildOutput
            &&& says(s, seq![(LogLevel::Error, "Build output:"@)])
            &&& s.op matches Op::Print(t) && t@ == old.build_errors@
        },
        (RebuildStage::PrintingBuildOutput, Event::Done) => {
            &&& keeps_data(old, new)
            &&& new.stage == RebuildStage::Finished
            &&& says(s, seq![])
            &&& finishes_err(s.op, "nix build failed"@)
        },
        (RebuildStage::StoppingSpinner, Event::Done) => {
            &&& keeps_data(old, new)
            &&& new.stage == RebuildStage::CheckingActivation
            &&& says(s, seq![(LogLevel::Info, "Activating system..."@)])
            &&& s.op matches Op::Exists(p) && p@ == switch_program(old.store_path@)
        },
        (RebuildStage::CheckingActivation, Event::Flag(present)) => {
            &&& keeps_data(old, new)
            &&& if present {
                &&& new.stage == RebuildStage::Activating
                &&& says(s, seq![])
                &&& s.op matches Op::Run(c) && plain_command(
                    c,
                    switch_program(old.store_path@),
                    seq!["switch"@],
                    None,
                )
            } else {
                profile_spec(
                    old,
                    seq![(LogLevel::Warn, "switch-to-configuration not found, skipping activation"@)],
                    new,
                    s,
                )
            }
        },
        (RebuildStage::Activating, Event::Status(ok)) => {
            &&& keeps_data(old, new)
            &&& if ok {
                profile_spec(old, seq![], new, s)
            } else {
                new.stage == RebuildStage::Finished && says(s, seq![]) && finishes_err(
                    s.op,
                    "switch-to-configuration failed"@,
                )
            }
        },
        (RebuildStage::SettingProfile, Event::Status(_)) => {
            let complete = (LogLevel::Done, "Rebuild complete \u{2014} revision "@ + old.date@);
            &&& keeps_data(old, new)
            &&& if old.no_commit {
                new.stage == RebuildStage::Finished && says(s, seq![complete]) && finishes_ok(s.op)
            } else {
                &&& new.stage == RebuildStage::Staging
                &&& says(s, seq![complete, (LogLevel::Info, "Committing dotfiles..."@)])
                &&& runs_git(s.op, seq!["add"@, "-A"@], old.flake_dir@)
            }
        },
        (RebuildStage::Staging, Event::Status(_)) => {
            &&& keeps_data(old, new)
            &&& new.stage == RebuildStage::Diffing
            &&& says(s, seq![])
            &&& runs_git(s.op, seq!["diff"@, "--cached"@, "--quiet"@], old.flake_dir@)
        },
        (RebuildStage::Diffing, Event::Status(unchanged)) => {
            &&& keeps_data(old, new)
            &&& if unchanged {
                new.stage == RebuildStage::Finished && says(
                    s,
                    seq![(LogLevel::Info, "No changes to commit"@)],
                ) && finishes_ok(s.op)
            } else {
                new.stage == RebuildStage::DatingCommit && says(s, seq![]) && (s.op matches Op::Clock(
                    f,
                ) && f == TimeFormat::Commit)
            }
        },
        (RebuildStage::DatingCommit, Event::Text(d)) => {
            &&& new.commit_date@ == d@
            &&& new.flake_dir == old.flake_dir
            &&& new.stage == RebuildStage::Committing
            &&& says(s, seq![])
            &&& runs_git(s.op, seq!["commit"@, "-m"@, d@], old.flake_dir@)
        },
        (RebuildStage::Committing, Event::Status(_)) => {
            &&& keeps_data(old, new)
            &&& new.stage == RebuildStage::Finished
            &&& says(s, seq![(LogLevel::Done, "Committed: "@ + old.commit_date@)])
            &&& finishes_ok(s.op)
        },
        _ => {
            &&& keeps_data(old, new)
            &&& new.stage == RebuildStage::Finished
            &&& says(s, seq![])
            &&& finishes_err(s.op, out_of_order())
        },
    }
}

fn command_in(program: &str, args: &[&str], dir: &str) -> (c: CommandSpec)
    ensures
        plain_command(c, program@, crate::elevation::str_views(args@), Some(dir@)),
{
    let mut c = CommandSpec::new(program);
    let mut i: usize = 0;
    while i < args.len()
        invariant
            i <= args.len(),
            c.program@ == program@,
            c.env@.len() == 0,
            c.current_dir is None,
            c.arg_views() == crate::elevation::str_views(args@.take(i as int)),
        decreases args.len() - i,
    {
        c.arg(args[i]);
        i += 1;
        assert(c.arg_views() =~= crate::elevation::str_views(args@.take(i as int)));
    }
    assert(args@.take(i as int) =~= args@);
    c.current_dir(dir);
    c
}

/// The attribute of the system build for `host`.
pub fn toplevel_attr(host: &str) -> (r: String)
    ensures
        r@ == toplevel_spec(host@),
{
    "nixosConfigurations.".to_string().concat(host).concat(".config.system.build.toplevel")
}

impl Rebuild {
    /// Starts a rebuild with options `a`; `home` is the home directory, if known.
    pub fn new(a: RebuildArgs, home: Option<&str>) -> (r: (Rebuild, Step))
        ensures
            rebuild_start_spec(a, str_option_view(home), r.0, r.1),
    {
        let ghost a0 = a;
        let (stage, flake_dir, op) = match a.flake {
            Some(f) => {
                let d = expand_home(f.as_str(), home);
                let p = join_str(d.as_str(), "flake.nix");
                (RebuildStage::CheckingFlake, d, Op::Exists(p))
            },
            None => (RebuildStage::Resolving, String::new(), Op::ResolveFlakeDir),
        };
        let r = Rebuild {
            update: a.update,
            update_input: a.update_input,
            no_commit: a.no_commit,
            dry: a.dry,
            stage,
            flake_dir,
            hostname: String::new(),
            date: String::new(),
            store_path: String::new(),
            build_errors: String::new(),
            commit_date: String::new(),
        };
        (r, quiet(op))
    }

    fn dating(self, step_say: Vec<LogMessage>) -> (r: (Rebuild, Step))
        ensures
            dating_spec(messages(step_say@), r.0, r.1),
            keeps_options(self, r.0),
            keeps_data(self, r.0),
    {
        (Rebuild { stage: RebuildStage::Dating, ..self }, Step { say: step_say, op: Op::Clock(TimeFormat::Revision) })
    }

    fn build_start(self, before: Vec<LogMessage>) -> (r: (Rebuild, Step))
        ensures
            build_start_spec(self, messages(before@), r.0, r.1),
            keeps_options(self, r.0),
            keeps_data(self, r.0),
    {
        let ghost b = messages(before@);
        let mut say = before;
        let top = toplevel_attr(self.hostname.as_str());
        let m1 = info("Building system...");
        let ghost v1 = (m1.level, m1.text@);
        say.push(m1);
        if self.dry {
            let m2 = info("Would build: ".to_string().concat(top.as_str()).as_str());
            let ghost v2 = (m2.level, m2.text@);
            say.push(m2);
            assert(messages(say@) =~= b + seq![v1, v2]);
            (Rebuild { stage: RebuildStage::Finished, ..self }, Step { say, op: Op::Finish(Ok(())) })
        } else {
            assert(messages(say@) =~= b + seq![v1]);
            (
                Rebuild { stage: RebuildStage::StartingSpinner, ..self },
                Step { say, op: Op::StartSpinner("Building system configuration...".to_string()) },
            )
        }
    }

    fn set_profile(self, before: Vec<LogMessage>) -> (r: (Rebuild, Step))
        ensures
            profile_spec(self, messages(before@), r.0, r.1),
            keeps_options(self, r.0),
            keeps_data(self, r.0),
    {
        let top = toplevel_attr(self.hostname.as_str());
        let args = ["build", "--profile", "/nix/var/nix/profiles/system", top.as_str()];
        let c = command_in("nix", &args, self.flake_dir.as_str());
        assert(crate::elevation::str_views(args@) =~= seq!["build"@, "--profile"@, "/nix/var/nix/profiles/system"@, top@]);
        (Rebuild { stage: RebuildStage::SettingProfile, ..self }, Step { say: before, op: Op::Run(c) })
    }

    fn finished(self, s: Step) -> (r: (Rebuild, Step))
        ensures
            r.0.stage == RebuildStage::Finished,
            r.1 == s,
            keeps_options(self, r.0),
            keeps_data(self, r.0),
    {
        (Rebuild { stage: RebuildStage::Finished, ..self }, s)
    }

    /// One step of the rebuild: `ev` answers the step asked for last.
    pub fn step(self, ev: Event) -> (r: (Rebuild, Step))
        ensures
            rebuild_step_spec(self, ev, r.0, r.1),
    {
        let ghost old = self;
        match (self.stage, ev) {
            (RebuildStage::Resolving, Event::Resolved(found)) => {
                let dir = match found {
                    Some(d) => d,
                    None => ".".to_string(),
                };
                let p = join_str(dir.as_str(), "flake.nix");
                (Rebuild { stage: RebuildStage::CheckingFlake, flake_dir: dir, ..self }, quiet(Op::Exists(p)))
            },
            (RebuildStage::CheckingFlake, Event::Flag(present)) => {
                if present {
                    (Rebuild { stage: RebuildStage::GettingHost, ..self }, quiet(Op::Hostname))
                } else {
                    let msg = "No flake.nix found in ".to_string().concat(self.flake_dir.as_str());
                    self.finished(fail(msg))
                }
            },
            (RebuildStage::GettingHost, Event::Text(host)) => {
                let next = Rebuild { hostname: host, ..self };
                if !next.update {
                    next.dating(no_messages())
                } else {
                    let start = info("Updating flake inputs...");
                    match &next.update_input {
                        Some(v) => {
                            if v.len() == 0 {
                                let mut say = no_messages();
                                push_message(&mut say, start);
                                push_message(&mut say, done("Flake inputs updated"));
                                assert(messages(say@) =~= seq![(LogLevel::Info, "Updating flake inputs..."@)]
                                    + seq![(LogLevel::Done, "Flake inputs updated"@)]);
                                next.dating(say)
                            } else {
                                let args = ["flake", "lock", "--update-input", v[0].as_str()];
        let c = command_in("nix", &args, next.flake_dir.as_str());
        assert(crate::elevation::str_views(args@) =~= seq!["flake"@, "lock"@, "--update-input"@, v@[0]@]);
                                (Rebuild { stage: RebuildStage::UpdatingInput(0), ..next }, saying(start, Op::Run(c)))
                            }
                        },
                        None => {
                            let c = nix_flake_update_command(next.flake_dir.as_str());
                            (Rebuild { stage: RebuildStage::UpdatingAll, ..next }, saying(start, Op::Run(c)))
                        },
                    }
                }
            },
            (RebuildStage::UpdatingInput(i), Event::Status(ok)) => {
                let n = match &self.update_input {
                    Some(v) => v.len(),
                    None => 0,
                };
                if i >= n {
                    return self.finished(unexpected());
                }
                match &self.update_input {
                    Some(v) => {
                        let mut say = no_messages();
                        if !ok {
                            push_message(&mut say, warn("Failed to update input: ".to_string().concat(v[i].as_str()).as_str()));
                        }
                        let ghost warned = messages(say@);
                        if i + 1 < n {
                            let args = ["flake", "lock", "--update-input", v[i + 1].as_str()];
                            let c = command_in("nix", &args, self.flake_dir.as_str());
                            assert(crate::elevation::str_views(args@) =~= seq!["flake"@, "lock"@, "--update-input"@, v@[i + 1]@]);
                            (Rebuild { stage: RebuildStage::UpdatingInput(i + 1), ..self }, Step { say, op: Op::Run(c) })
                        } else {
                            push_message(&mut say, done("Flake inputs updated"));
                            assert(messages(say@) =~= warned + seq![(LogLevel::Done, "Flake inputs updated"@)]);
                            self.dating(say)
                        }
                    },
                    None => self.finished(unexpected()),
                }
            },
            (RebuildStage::UpdatingAll, Event::Status(ok)) => {
                if ok {
                    let mut say = no_messages();
                    push_message(&mut say, done("Flake inputs updated"));
                    self.dating(say)
                } else {
                    self.finished(fail("nix flake update failed".to_string()))
                }
            },
            (RebuildStage::Dating, Event::Text(d)) => {
                let p = join_str(self.flake_dir.as_str(), "modules/core/nix.nix");
                (Rebuild { stage: RebuildStage::CheckingRevisionFile, date: d, ..self }, quiet(Op::Exists(p)))
            },
            (RebuildStage::CheckingRevisionFile, Event::Flag(present)) => {
                if present {
                    let p = join_str(self.flake_dir.as_str(), "modules/core/nix.nix");
                    (Rebuild { stage: RebuildStage::ReadingRevisionFile, ..self }, quiet(Op::ReadFile(p)))
                } else {
                    self.build_start(no_messages())
                }
            },
            (RebuildStage::ReadingRevisionFile, Event::Text(content)) => {
                let u = apply_revision(content.as_str(), self.date.as_str());
                if u.changed {
                    let p = join_str(self.flake_dir.as_str(), "modules/core/nix.nix");
                    (
                        Rebuild { stage: RebuildStage::WritingRevisionFile, ..self },
                        quiet(Op::WriteFile { path: p, content: u.content }),
                    )
                } else {
                    self.build_start(no_messages())
                }
            },
            (RebuildStage::WritingRevisionFile, Event::Done) => {
                let m = info("Updated configuration revision to ".to_string().concat(self.date.as_str()).as_str());
                let ghost mv = (m.level, m.text@);
                let mut say: Vec<LogMessage> = Vec::new();
                say.push(m);
                assert(messages(say@) =~= seq![mv]);
                self.build_start(say)
            },
            (RebuildStage::StartingSpinner, Event::Done) => {
                let top = toplevel_attr(self.hostname.as_str());
                let args = ["build", "--no-link", "--print-out-paths", top.as_str()];
        let c = command_in("nix", &args, self.flake_dir.as_str());
        assert(crate::elevation::str_views(args@) =~= seq!["build"@, "--no-link"@, "--print-out-paths"@, top@]);
                (Rebuild { stage: RebuildStage::Building, ..self }, quiet(Op::Capture(c)))
            },
            (RebuildStage::Building, Event::Output { success, stdout, stderr }) => {
                if success {
                    let store = trim(stdout.as_str());
                    let msg = "Built: ".to_string().concat(store.as_str());
                    (
                        Rebuild { stage: RebuildStage::StoppingSpinner, store_path: store, ..self },
                        quiet(Op::StopSpinner(msg)),
                    )
                } else {
                    (
                        Rebuild {
                            stage: RebuildStage::StoppingSpinnerAfterFailure,
                            build_errors: stderr,
                            ..self
                        },
                        quiet(Op::StopSpinner("Build failed".to_string())),
                    )
                }
            },
            (RebuildStage::StoppingSpinnerAfterFailure, Event::Done) => {
                (Rebuild { stage: RebuildStage::PrintingBlank, ..self }, quiet(Op::Print(String::new())))
            },
            (RebuildStage::PrintingBlank, Event::Done) => {
                let text = self.build_errors.clone();
                (
                    Rebuild { stage: RebuildStage::PrintingBuildOutput, ..self },
                    saying(error("Build output:"), Op::Print(text)),
                )
            },
            (RebuildStage::PrintingBuildOutput, Event::Done) => {
                self.finished(fail("nix build failed".to_string()))
            },
            (RebuildStage::StoppingSpinner, Event::Done) => {
                let p = join_str(self.store_path.as_str(), "bin/switch-to-configuration");
                (
                    Rebuild { stage: RebuildStage::CheckingActivation, ..self },
                    saying(info("Activating system..."), Op::Exists(p)),
                )
            },
            (RebuildStage::CheckingActivation, Event::Flag(present)) => {
                if present {
                    let p = join_str(self.store_path.as_str(), "bin/switch-to-configuration");
                    let mut c = CommandSpec::new(p.as_str());
                    c.arg("switch");
                    assert(c.arg_views() =~= seq!["switch"@]);
                    (Rebuild { stage: RebuildStage::Activating, ..self }, quiet(Op::Run(c)))
                } else {
                    let m = warn("switch-to-configuration not found, skipping activation");
                    let ghost mv = (m.level, m.text@);
                    let mut say: Vec<LogMessage> = Vec::new();
                    say.push(m);
                    assert(messages(say@) =~= seq![mv]);
                    self.set_profile(say)
                }
            },
            (RebuildStage::Activating, Event::Status(ok)) => {
                if ok {
                    let say: Vec<LogMessage> = Vec::new();
                    assert(messages(say@) =~= Seq::<(LogLevel, Seq<char>)>::empty());
                    self.set_profile(say)
                } else {
                    self.finished(fail("switch-to-configuration failed".to_string()))
                }
            },
            (RebuildStage::SettingProfile, Event::Status(_)) => {
                let complete = done(
                    "Rebuild complete \u{2014} revision ".to_string().concat(self.date.as_str()).as_str(),
                );
                if self.no_commit {
                    self.finished(saying(complete, Op::Finish(Ok(()))))
                } else {
                    let args = ["add", "-A"];
        let c = command_in("git", &args, self.flake_dir.as_str());
        assert(crate::elevation::str_views(args@) =~= seq!["add"@, "-A"@]);
                    (
                        Rebuild { stage: RebuildStage::Staging, ..self },
                        saying2(complete, info("Committing dotfiles..."), Op::Run(c)),
                    )
                }
            },
            (RebuildStage::Staging, Event::Status(_)) => {
                let args = ["diff", "--cached", "--quiet"];
        let c = command_in("git", &args, self.flake_dir.as_str());
        assert(crate::elevation::str_views(args@) =~= seq![
                    "diff"@,
                    "--cached"@,
                    "--quiet"@,
                ]);
                (Rebuild { stage: RebuildStage::Diffing, ..self }, quiet(Op::Run(c)))
            },
            (RebuildStage::Diffing, Event::Status(unchanged)) => {
                if unchanged {
                    self.finished(saying(info("No changes to commit"), Op::Finish(Ok(()))))
                } else {
                    (Rebuild { stage: RebuildStage::DatingCommit, ..self }, quiet(Op::Clock(TimeFormat::Commit)))
                }
            },
            (RebuildStage::DatingCommit, Event::Text(d)) => {
                let args = ["commit", "-m", d.as_str()];
        let c = command_in("git", &args, self.flake_dir.as_str());
        assert(crate::elevation::str_views(args@) =~= seq![
                    "commit"@,
                    "-m"@,
                    d@,
                ]);
                (Rebuild { stage: RebuildStage::Committing, commit_date: d, ..self }, quiet(Op::Run(c)))
            },
            (RebuildStage::Committing, Event::Status(_)) => {
                let m = done("Committed: ".to_string().concat(self.commit_date.as_str()).as_str());
                self.finished(saying(m, Op::Finish(Ok(()))))
            },
            _ => self.finished(unexpected()),
        }
    }
}

/// A dry rebuild never reaches the build or anything after it.
pub open spec fn dry_rebuild_holds(r: Rebuild) -> bool {
    r.dry ==> match r.stage {
        RebuildStage::Resolving | RebuildStage::CheckingFlake | RebuildStage::GettingHost
        | RebuildStage::UpdatingInput(_) | RebuildStage::UpdatingAll | RebuildStage::Dating
        | RebuildStage::CheckingRevisionFile | RebuildStage::ReadingRevisionFile
        | RebuildStage::WritingRevisionFile | RebuildStage::Finished => true,
        _ => false,
    }
}

/// A dry run shows what would be built without building: from its start, no
/// step of a dry rebuild runs the build, starts the spinner, or runs any
/// command other than a flake input update; the stage never passes the build.
pub proof fn lemma_dry_rebuild_never_builds(old: Rebuild, ev: Event, new: Rebuild, s: Step)
    requires
        dry_rebuild_holds(old),
        rebuild_step_spec(old, ev, new, s),
    ensures
        dry_rebuild_holds(new),
        old.dry ==> !(s.op is Capture) && !(s.op is StartSpinner),
        old.dry ==> (s.op matches Op::Run(c) ==> c.arg_views().len() > 0 && c.arg_views()[0] == "flake"@),
{
}

/// A rebuild starts in a state where [`dry_rebuild_holds`].
pub proof fn lemma_rebuild_starts_dry_safe(a: RebuildArgs, home: Option<Seq<char>>, r: Rebuild, s: Step)
    requires
        rebuild_start_spec(a, home, r, s),
    ensures
        dry_rebuild_holds(r),
{
}

/// A finished rebuild stays finished, whatever is reported to it.
pub proof fn lemma_rebuild_finished_stays(old: Rebuild, ev: Event, new: Rebuild, s: Step)
    requires
        old.stage == RebuildStage::Finished,
        rebuild_step_spec(old, ev, new, s),
    ensures
        new.stage == RebuildStage::Finished,
        finishes_err(s.op, out_of_order()),
{
}

/// A resolved flake directory is the one the rebuild uses: when a directory
/// was found it becomes the flake directory and `flake.nix` is next looked
/// for in it; `.` stands in only when none was found.
pub proof fn lemma_resolved_flake_dir_used(old: Rebuild, found: Option<String>, new: Rebuild, s: Step)
    requires
        old.stage == RebuildStage::Resolving,
        rebuild_step_spec(old, Event::Resolved(found), new, s),
    ensures
        found matches Some(d) ==> new.flake_dir@ == d@,
        found is None ==> new.flake_dir@ == seq!['.'],
        new.stage == RebuildStage::CheckingFlake,
        s.op matches Op::Exists(p) && p@ == join_spec(new.flake_dir@, "flake.nix"@),
{
    reveal_strlit(".");
}

/// When the built system has an activation program, the rebuild runs
/// `<store path>/bin/switch-to-configuration` with the single argument
/// `switch`, the store path being the one the build reported.
pub proof fn lemma_rebuild_activates_with_switch(old: Rebuild, new: Rebuild, s: Step)
    requires
        old.stage == RebuildStage::CheckingActivation,
        rebuild_step_spec(old, Event::Flag(true), new, s),
    ensures
        new.stage == RebuildStage::Activating,
        s.op matches Op::Run(c) && c.program@ == join_spec(old.store_path@, "bin/switch-to-configuration"@)
            && c.arg_views() == seq!["switch"@] && c.current_dir is None,
{
}

} // verus!
