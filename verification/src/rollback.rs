//! Rolling back to an earlier generation, as a step machine.
use vstd::prelude::*;
use crate::args::RollbackArgs;
use crate::flow::{
    checks, command_with, fail, finishes_err, finishes_ok, out_of_order, plain_command, quiet,
    runs_plain, saying, says, unexpected, Event, Op, Step,
};
use crate::log::{done, info, LogLevel};
use crate::nix::{link_name_spec, profiles_dir_spec, Generation};
use crate::nixos::{
    generation_profile_link, profile_link_spec, rollback_message_spec, rollback_target,
    rollback_target_spec,
};
use crate::paths::{join_spec, join_str};
use crate::text::{decimal, format_u64};

verus! {

/// Where a rollback stands.
#[derive(Debug, Clone, Copy, PartialEq, Eq, Structural)]
pub enum RollbackStage {
    Listing,
    CheckingLink,
    SettingProfile,
    CheckingActivation,
    Activating,
    Finished,
}

/// A rollback in progress: the requested generation, the stage, and the
/// generation chosen.
pub struct Rollback {
    pub to: Option<u64>,
    pub stage: RollbackStage,
    pub target: u64,
}

/// The activation program of a generation's profile link.
pub open spec fn link_switch(id: u64) -> Seq<char> {
    join_spec(profile_link_spec(id), "bin/switch-to-configuration"@)
}

/// One step of a rollback.
///
/// The target is chosen among the listed generations (see
/// [`rollback_target_spec`]); a refusal ends the run with its message. The
/// target's profile link must exist. The system profile is set to it, it is
/// activated if it has an activation program, and the rollback is announced.
pub open spec fn rollback_step_spec(old: Rollback, ev: Event, new: Rollback, s: Step) -> bool {
    &&& new.to == old.to
    &&& match (old.stage, ev) {
        (RollbackStage::Listing, Event::Generations(gens)) => match rollback_target_spec(gens@, old.to) {
            Err(e) => new.stage == RollbackStage::Finished && says(s, seq![]) && finishes_err(
                s.op,
                rollback_message_spec(e),
            ),
            Ok(id) => {
                &&& new.target == id
                &&& new.stage == RollbackStage::CheckingLink
                &&& says(
                    s,
                    seq![(LogLevel::Info, "Rolling back to generation "@ + decimal(id as nat) + "..."@)],
                )
                &&& checks(s.op, profile_link_spec(id))
            },
        },
        (RollbackStage::CheckingLink, Event::Flag(present)) => {
            &&& new.target == old.target
            &&& says(s, seq![])
            &&& if present {
                &&& new.stage == RollbackStage::SettingProfile
                &&& runs_plain(
                    s.op,
                    "nix"@,
                    seq![
                        "profile"@,
                        "install"@,
                        "--profile"@,
                        "/nix/var/nix/profiles/system"@,
                        profile_link_spec(old.target),
                    ],
                )
            } else {
                new.stage == RollbackStage::Finished && finishes_err(
                    s.op,
                    "Generation "@ + decimal(old.target as nat) + " profile not found"@,
                )
            }
        },
        (RollbackStage::SettingProfile, Event::Status(_)) => {
            &&& new.target == old.target
            &&& new.stage == RollbackStage::CheckingActivation
            &&& says(s, seq![])
            &&& checks(s.op, link_switch(old.target))
        },
        (RollbackStage::CheckingActivation, Event::Flag(present)) => {
            &&& new.target == old.target
            &&& if present {
                new.stage == RollbackStage::Activating && says(s, seq![]) && runs_plain(
                    s.op,
                    link_switch(old.target),
                    seq!["switch"@],
                )
            } else {
                new.stage == RollbackStage::Finished && says(
                    s,
                    seq![(LogLevel::Done, "Rolled back to generation "@ + decimal(old.target as nat))],
                ) && finishes_ok(s.op)
            }
        },
        (RollbackStage::Activating, Event::Status(_)) => {
            &&& new.target == old.target
            &&& new.stage == RollbackStage::Finished
            &&& says(
                s,
                seq![(LogLevel::Done, "Rolled back to generation "@ + decimal(old.target as nat))],
            )
            &&& finishes_ok(s.op)
        },
        _ => new.target == old.target && new.stage == RollbackStage::Finished && says(s, seq![])
            && finishes_err(s.op, out_of_order()),
    }
}

impl Rollback {
    /// Starts a rollback: the generations are listed first.
    pub fn new(a: RollbackArgs) -> (r: (Rollback, Step))
        ensures
            r.0.to == a.to,
            r.0.stage == RollbackStage::Listing,
            says(r.1, seq![]),
            r.1.op is ListGenerations,
    {
        (Rollback { to: a.to, stage: RollbackStage::Listing, target: 0 }, quiet(Op::ListGenerations))
    }

    fn done_message(&self) -> (r: crate::log::LogMessage)
        ensures
            r.level == LogLevel::Done,
            r.text@ == "Rolled back to generation "@ + decimal(self.target as nat),
    {
        done("Rolled back to generation ".to_string().concat(format_u64(self.target).as_str()).as_str())
    }

    /// One step of the rollback: `ev` answers the step asked for last.
    pub fn step(self, ev: Event) -> (r: (Rollback, Step))
        ensures
            rollback_step_spec(self, ev, r.0, r.1),
    {
        let to = self.to;
        let target = self.target;
        match (self.stage, ev) {
            (RollbackStage::Listing, Event::Generations(gens)) => {
                match rollback_target(gens.as_slice(), to) {
                    Err(e) => (Rollback { stage: RollbackStage::Finished, ..self }, fail(e.message())),
                    Ok(id) => {
                        let m = info(
                            "Rolling back to generation ".to_string().concat(
                                format_u64(id).as_str(),
                            ).concat("...").as_str(),
                        );
                        (
                            Rollback { to, stage: RollbackStage::CheckingLink, target: id },
                            saying(m, Op::Exists(generation_profile_link(id))),
                        )
                    },
                }
            },
            (RollbackStage::CheckingLink, Event::Flag(present)) => {
                if present {
                    let link = generation_profile_link(target);
                    let args = ["profile", "install", "--profile", "/nix/var/nix/profiles/system", link.as_str()];
                    let c = command_with("nix", &args);
                    assert(crate::elevation::str_views(args@) =~= seq![
                        "profile"@,
                        "install"@,
                        "--profile"@,
                        "/nix/var/nix/profiles/system"@,
                        link@,
                    ]);
                    (Rollback { stage: RollbackStage::SettingProfile, ..self }, quiet(Op::Run(c)))
                } else {
                    let msg = "Generation ".to_string().concat(format_u64(target).as_str()).concat(
                        " profile not found",
                    );
                    (Rollback { stage: RollbackStage::Finished, ..self }, fail(msg))
                }
            },
            (RollbackStage::SettingProfile, Event::Status(_)) => {
                let p = join_str(generation_profile_link(target).as_str(), "bin/switch-to-configuration");
                (Rollback { stage: RollbackStage::CheckingActivation, ..self }, quiet(Op::Exists(p)))
            },
            (RollbackStage::CheckingActivation, Event::Flag(present)) => {
                if present {
                    let p = join_str(generation_profile_link(target).as_str(), "bin/switch-to-configuration");
                    let args = ["switch"];
                    let c = command_with(p.as_str(), &args);
                    assert(crate::elevation::str_views(args@) =~= seq!["switch"@]);
                    (Rollback { stage: RollbackStage::Activating, ..self }, quiet(Op::Run(c)))
                } else {
                    let m = self.done_message();
                    (Rollback { stage: RollbackStage::Finished, ..self }, saying(m, Op::Finish(Ok(()))))
                }
            },
            (RollbackStage::Activating, Event::Status(_)) => {
                let m = self.done_message();
                (Rollback { stage: RollbackStage::Finished, ..self }, saying(m, Op::Finish(Ok(()))))
            },
            _ => (Rollback { stage: RollbackStage::Finished, ..self }, unexpected()),
        }
    }
}

/// When the target's activation program exists, the rollback runs
/// `/nix/var/nix/profiles/system-<target>-link/bin/switch-to-configuration`
/// with the single argument `switch`: the target is activated at once.
pub proof fn lemma_rollback_activates_with_switch(old: Rollback, new: Rollback, s: Step)
    requires
        old.stage == RollbackStage::CheckingActivation,
        rollback_step_spec(old, Event::Flag(true), new, s),
    ensures
        s.op matches Op::Run(c) && c.program@ == "/nix/var/nix/profiles/system-"@ + decimal(
            old.target as nat,
        ) + "-link/bin/switch-to-configuration"@ && c.arg_views() == seq!["switch"@],
{
    reveal_strlit("/nix/var/nix/profiles");
    reveal_strlit("system-");
    reveal_strlit("-link");
    reveal_strlit("bin/switch-to-configuration");
    reveal_strlit("/nix/var/nix/profiles/system-");
    reveal_strlit("-link/bin/switch-to-configuration");
    let name = link_name_spec(old.target);
    let dir = profiles_dir_spec();
    assert(name[0] == 's');
    assert(dir.last() == 's');
    let link = join_spec(dir, name);
    assert(link =~= dir + seq!['/'] + name);
    assert(link.last() == 'k');
    let rel = "bin/switch-to-configuration"@;
    assert(rel[0] == 'b');
    assert(join_spec(link, rel) =~= "/nix/var/nix/profiles/system-"@ + decimal(old.target as nat)
        + "-link/bin/switch-to-configuration"@);
}

} // verus!
