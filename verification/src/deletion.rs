//! Deleting generations, as a step machine.
use vstd::prelude::*;
use crate::args::DeleteArgs;
use crate::flow::{
    checks, command_with, fail, finishes_err, finishes_ok, messages, no_messages, out_of_order,
    push_message, quiet, runs_plain, saying, saying2, says, unexpected, Event, Op, Step,
};
use crate::generations::{
    find_generation, lemma_selection_spares_current, marked_line_spec, parse_selection, selection_list,
    selection_spec, MarkedLine, Selection,
};
use crate::log::{done, info, warn, LogLevel, LogMessage};
use crate::nix::Generation;
use crate::nixos::{
    confirms, delete_check_from, delete_message_spec, deletion_notice, deletion_notice_spec,
    duration_seconds, generation_profile_link, keep_since_warning, keep_since_warning_spec, lemma_delete_check_spares_current, lemma_unspared,
    parse_duration, profile_link_spec, spared, unspared, unspared_ids, validate_delete_ids,
};
use crate::text::{decimal, eq_ignore_ascii_case_spec, format_u64, string_views, trim_spec};

verus! {

/// Where a deletion stands.
#[derive(Debug, Clone, Copy, PartialEq, Eq, Structural)]
pub enum DeletionStage {
    Listing,
    ShowingSelection,
    Selecting,
    DatingCutoff,
    Announcing,
    Confirming,
    CheckingLink(usize),
    Removing(usize),
    Collecting,
    CheckingBoot,
    RefreshingBoot,
    Finished,
}

/// A deletion in progress: its options, its stage, the listed generations,
/// the numbers chosen, and the time before which generations are not spared.
pub struct Deletion {
    pub requested: Option<Vec<u64>>,
    pub dry: bool,
    pub no_gc: bool,
    pub keep: Option<u64>,
    pub keep_since: Option<String>,
    pub cutoff: Option<String>,
    pub stage: DeletionStage,
    pub generations: Vec<Generation>,
    pub ids: Vec<u64>,
}

/// The activation program of the running system.
pub open spec fn boot_switch() -> Seq<char> {
    "/run/current-system/bin/switch-to-configuration"@
}

/// The lines printed before and after the selection list.
pub open spec fn selection_intro() -> Seq<Seq<char>> {
    seq![""@, "  Available generations (current marked with *):"@, ""@]
}

/// The lines printed after the selection list.
pub open spec fn selection_outro() -> Seq<Seq<char>> {
    seq![""@, "  Enter generation IDs to delete (space-separated), or 'q' to quit:"@]
}

/// The options that a step leaves alone.
pub open spec fn keeps_request(old: Deletion, new: Deletion) -> bool {
    &&& new.requested == old.requested
    &&& new.dry == old.dry
    &&& new.no_gc == old.no_gc
    &&& new.keep == old.keep
    &&& new.keep_since == old.keep_since
}

/// The time before which generations are not spared, once known.
pub open spec fn cutoff_view(d: Deletion) -> Option<Seq<char>> {
    match d.cutoff {
        Some(c) => Some(c@),
        None => None,
    }
}

/// The step after the numbers `ids` are chosen from `gens`: without
/// `keep_since`, those that `keep` spares are dropped and the rest announced;
/// with it, the time `keep_since` ago is asked for first. A `keep_since` that
/// is not a duration is warned about and then ignored.
pub open spec fn choose_spec(gens: Seq<Generation>, old: Deletion, ids: Seq<u64>, new: Deletion, s: Step) -> bool {
    match old.keep_since {
        None => new.cutoff is None && announce_spec(unspared(gens, ids, old.keep, None), seq![], new, s),
        Some(d) => match duration_seconds(d@) {
            None => new.cutoff is None && announce_spec(
                unspared(gens, ids, old.keep, None),
                seq![(LogLevel::Warn, keep_since_warning_spec(d@))],
                new,
                s,
            ),
            Some(secs) => {
                &&& new.ids@ == ids
                &&& new.stage == DeletionStage::DatingCutoff
                &&& says(s, seq![])
                &&& s.op matches Op::ClockBefore(x) && x == secs
            },
        },
    }
}

/// The chosen numbers are kept, with the step asking for the blank line before
/// the announcement.
pub open spec fn announce_spec(
    ids: Seq<u64>,
    before: Seq<(LogLevel, Seq<char>)>,
    new: Deletion,
    s: Step,
) -> bool {
    &&& new.ids@ == ids
    &&& new.stage == DeletionStage::Announcing
    &&& says(s, before)
    &&& s.op matches Op::Print(t) && t@.len() == 0
}

/// A step that cancels: `before` and then `Cancelled` are shown, and the run ends well.
pub open spec fn cancel_spec(before: Seq<(LogLevel, Seq<char>)>, new: Deletion, s: Step) -> bool {
    &&& new.stage == DeletionStage::Finished
    &&& says(s, before + seq![(LogLevel::Info, "Cancelled"@)])
    &&& finishes_ok(s.op)
}

/// The step that goes on with the removals from position `i` (after `before`):
/// check the next profile link, or collect garbage unless `no_gc`, or check
/// for the boot loader refresh.
pub open spec fn next_removal_spec(old: Deletion, i: int, before: Seq<(LogLevel, Seq<char>)>, new: Deletion, s: Step) -> bool {
    if i < old.ids@.len() {
        &&& new.stage == DeletionStage::CheckingLink(i as usize)
        &&& says(s, before)
        &&& checks(s.op, profile_link_spec(old.ids@[i]))
    } else if !old.no_gc {
        &&& new.stage == DeletionStage::Collecting
        &&& says(s, before + seq![(LogLevel::Info, "Running garbage collection..."@)])
        &&& runs_plain(s.op, "nix-collect-garbage"@, seq![])
    } else {
        &&& new.stage == DeletionStage::CheckingBoot
        &&& says(s, before)
        &&& checks(s.op, boot_switch())
    }
}

/// One step of a deletion.
///
/// With no generation listed, a warning ends the run. Given numbers are checked
/// (see [`delete_check_from`]) and a refusal ends the run with its message;
/// without numbers the generations are shown and a selection is read (see
/// [`selection_spec`]), a failed read, a cancelled or rejected selection
/// cancelling the run. The chosen numbers that `keep` or `keep_since` spare
/// are dropped (see [`choose_spec`]). The deletion is announced; a dry run stops there, and
/// otherwise an answer other than `y` cancels. Each existing profile link of a
/// chosen generation is removed, garbage is collected unless `no_gc`, and the
/// boot menu is refreshed if the running system can do it.
pub open spec fn deletion_step_spec(old: Deletion, ev: Event, new: Deletion, s: Step) -> bool {
    &&& keeps_request(old, new)
    &&& !(old.stage is Listing && ev is Generations) ==> new.generations == old.generations
    &&& !(old.stage is Listing || old.stage is Selecting || old.stage is DatingCutoff) ==> new.cutoff
        == old.cutoff
    &&& match (old.stage, ev) {
        (DeletionStage::Listing, Event::Generations(gens)) => {
            &&& new.generations == gens
            &&& if gens@.len() == 0 {
                new.stage == DeletionStage::Finished && says(
                    s,
                    seq![(LogLevel::Warn, "No generations found"@)],
                ) && finishes_ok(s.op)
            } else {
                match old.requested {
                    Some(ids) => match delete_check_from(gens@, ids@, 0) {
                        Err(e) => new.stage == DeletionStage::Finished && says(s, seq![])
                            && finishes_err(s.op, delete_message_spec(e)),
                        Ok(()) => choose_spec(gens@, old, ids@, new, s),
                    },
                    None => {
                        &&& new.stage == DeletionStage::ShowingSelection
                        &&& says(s, seq![])
                        &&& s.op matches Op::ShowSelection { intro, lines, outro }
                        &&& string_views(intro@) == selection_intro()
                        &&& string_views(outro@) == selection_outro()
                        &&& lines@.len() == gens@.len()
                        &&& forall|i: int| 0 <= i < lines@.len() ==> marked_line_spec(gens@[i], #[trigger] lines@[i])
                    },
                }
            }
        },
        (DeletionStage::ShowingSelection, Event::Done) => {
            &&& new.generations == old.generations
            &&& new.stage == DeletionStage::Selecting
            &&& says(s, seq![])
            &&& s.op matches Op::Ask(p) && p@.len() == 0
        },
        (DeletionStage::Selecting, Event::Answer(answer)) => {
            &&& new.generations == old.generations
            &&& match answer {
                Err(_) => cancel_spec(seq![], new, s),
                Ok(input) => {
                    let gens = old.generations@;
                    let t = trim_spec(input@);
                    if t == seq!['q'] || t.len() == 0 {
                        cancel_spec(seq![], new, s)
                    } else {
                        exists|sel: Selection| #[trigger] selection_spec(input@, gens, sel) && match sel {
                            Selection::Rejected(m) => cancel_spec(seq![(m.level, m.text@)], new, s),
                            Selection::Chosen(v) => choose_spec(gens, old, v@, new, s),
                            Selection::Cancelled => false,
                        }
                    }
                },
            }
        },
        (DeletionStage::DatingCutoff, Event::Text(c)) => {
            &&& new.generations == old.generations
            &&& new.cutoff matches Some(x) && x@ == c@
            &&& announce_spec(unspared(old.generations@, old.ids@, old.keep, Some(c@)), seq![], new, s)
        },
        (DeletionStage::Announcing, Event::Done) => {
            let notice = (LogLevel::Warn, deletion_notice_spec(old.ids@));
            &&& new.ids == old.ids
            &&& if old.dry {
                new.stage == DeletionStage::Finished && says(
                    s,
                    seq![notice, (LogLevel::Info, "Dry run \u{2014} no changes made"@)],
                ) && finishes_ok(s.op)
            } else {
                new.stage == DeletionStage::Confirming && says(s, seq![notice]) && (s.op matches Op::Ask(
                    p,
                ) && p@ == "  Continue? [y/N] "@)
            }
        },
        (DeletionStage::Confirming, Event::Answer(answer)) => {
            &&& new.ids == old.ids
            &&& match answer {
                Err(e) => new.stage == DeletionStage::Finished && says(s, seq![]) && finishes_err(s.op, e@),
                Ok(input) => if eq_ignore_ascii_case_spec(trim_spec(input@), seq!['y']) {
                    next_removal_spec(old, 0, seq![], new, s)
                } else {
                    cancel_spec(seq![], new, s)
                },
            }
        },
        (DeletionStage::CheckingLink(i), Event::Flag(present)) => {
            &&& new.ids == old.ids
            &&& if i >= old.ids@.len() {
                new.stage == DeletionStage::Finished && says(s, seq![]) && finishes_err(s.op, out_of_order())
            } else if present {
                &&& new.stage == DeletionStage::Removing(i)
                &&& says(s, seq![])
                &&& s.op matches Op::RemoveFile(p) && p@ == profile_link_spec(old.ids@[i as int])
            } else {
                next_removal_spec(old, i + 1, seq![], new, s)
            }
        },
        (DeletionStage::Removing(i), Event::Done) => {
            &&& new.ids == old.ids
            &&& if i >= old.ids@.len() {
                new.stage == DeletionStage::Finished && says(s, seq![]) && finishes_err(s.op, out_of_order())
            } else {
                next_removal_spec(
                    old,
                    i + 1,
                    seq![(LogLevel::Done, "Deleted generation "@ + decimal(old.ids@[i as int] as nat))],
                    new,
                    s,
                )
            }
        },
        (DeletionStage::Collecting, Event::Status(_)) => {
            &&& new.ids == old.ids
            &&& new.stage == DeletionStage::CheckingBoot
            &&& says(s, seq![(LogLevel::Done, "Garbage collection complete"@)])
            &&& checks(s.op, boot_switch())
        },
        (DeletionStage::CheckingBoot, Event::Flag(present)) => {
            &&& new.ids == old.ids
            &&& if present {
                new.stage == DeletionStage::RefreshingBoot && says(s, seq![]) && runs_plain(
                    s.op,
                    boot_switch(),
                    seq!["boot"@],
                )
            } else {
                new.stage == DeletionStage::Finished && says(
                    s,
                    seq![(LogLevel::Done, "Deletion complete"@)],
                ) && finishes_ok(s.op)
            }
        },
        (DeletionStage::RefreshingBoot, Event::Status(_)) => {
            &&& new.ids == old.ids
            &&& new.stage == DeletionStage::Finished
            &&& says(s, seq![(LogLevel::Done, "Deletion complete"@)])
            &&& finishes_ok(s.op)
        },
        _ => new.stage == DeletionStage::Finished && says(s, seq![]) && finishes_err(s.op, out_of_order()),
    }
}

fn strings(v: &[&str]) -> (r: Vec<String>)
    ensures
        string_views(r@) == crate::elevation::str_views(v@),
{
    let mut r: Vec<String> = Vec::new();
    let mut i: usize = 0;
    while i < v.len()
        invariant
            i <= v.len(),
            string_views(r@) == crate::elevation::str_views(v@.take(i as int)),
        decreases v.len() - i,
    {
        let ghost before = r@;
        let x = v[i].to_string();
        r.push(x);
        proof {
            crate::text::lemma_string_views_push(before, x);
        }
        i += 1;
        assert(string_views(r@) =~= crate::elevation::str_views(v@.take(i as int)));
    }
    assert(v@.take(i as int) =~= v@);
    r
}

impl Deletion {
    /// Starts a deletion with options `a`: the generations are listed first.
    pub fn new(a: DeleteArgs) -> (r: (Deletion, Step))
        ensures
            r.0.requested == a.ids,
            r.0.dry == a.dry,
            r.0.no_gc == a.no_gc,
            r.0.keep == a.keep,
            r.0.keep_since == a.keep_since,
            r.0.stage == DeletionStage::Listing,
            says(r.1, seq![]),
            r.1.op is ListGenerations,
    {
        (
            Deletion {
                requested: a.ids,
                dry: a.dry,
                no_gc: a.no_gc,
                keep: a.keep,
                keep_since: a.keep_since,
                cutoff: None,
                stage: DeletionStage::Listing,
                generations: Vec::new(),
                ids: Vec::new(),
            },
            quiet(Op::ListGenerations),
        )
    }

    fn announce(self, ids: Vec<u64>, before: Vec<LogMessage>) -> (r: (Deletion, Step))
        ensures
            r.0.cutoff == self.cutoff,
            announce_spec(ids@, messages(before@), r.0, r.1),
            keeps_request(self, r.0),
            r.0.generations == self.generations,
    {
        (
            Deletion { stage: DeletionStage::Announcing, ids, ..self },
            Step { say: before, op: Op::Print(String::new()) },
        )
    }

    fn take_choice(self, ids: Vec<u64>) -> (r: (Deletion, Step))
        ensures
            choose_spec(self.generations@, self, ids@, r.0, r.1),
            keeps_request(self, r.0),
            r.0.generations == self.generations,
    {
        match &self.keep_since {
            None => {
                let left = unspared_ids(self.generations.as_slice(), ids.as_slice(), self.keep, None);
                Deletion { cutoff: None, ..self }.announce(left, no_messages())
            },
            Some(d) => match parse_duration(d.as_str()) {
                None => {
                    let left = unspared_ids(self.generations.as_slice(), ids.as_slice(), self.keep, None);
                    let mut say = no_messages();
                    push_message(&mut say, keep_since_warning(d.as_str()));
                    Deletion { cutoff: None, ..self }.announce(left, say)
                },
                Some(secs) => (
                    Deletion { stage: DeletionStage::DatingCutoff, ids, ..self },
                    quiet(Op::ClockBefore(secs)),
                ),
            },
        }
    }

    fn cancel(self, before: Vec<LogMessage>) -> (r: (Deletion, Step))
        ensures
            r.0.cutoff == self.cutoff,
            cancel_spec(messages(before@), r.0, r.1),
            keeps_request(self, r.0),
            r.0.generations == self.generations,
            r.0.ids == self.ids,
    {
        let ghost b = messages(before@);
        let mut say = before;
        push_message(&mut say, info("Cancelled"));
        assert(messages(say@) =~= b + seq![(LogLevel::Info, "Cancelled"@)]);
        (Deletion { stage: DeletionStage::Finished, ..self }, Step { say, op: Op::Finish(Ok(())) })
    }

    fn next_removal(self, i: usize, before: Vec<LogMessage>) -> (r: (Deletion, Step))
        ensures
            r.0.cutoff == self.cutoff,
            next_removal_spec(self, i as int, messages(before@), r.0, r.1),
            keeps_request(self, r.0),
            r.0.ids == self.ids,
            r.0.generations == self.generations,
    {
        if i < self.ids.len() {
            let p = generation_profile_link(self.ids[i]);
            (Deletion { stage: DeletionStage::CheckingLink(i), ..self }, Step { say: before, op: Op::Exists(p) })
        } else if !self.no_gc {
            let ghost b = messages(before@);
            let mut say = before;
            push_message(&mut say, info("Running garbage collection..."));
            assert(messages(say@) =~= b + seq![(LogLevel::Info, "Running garbage collection..."@)]);
            let args: [&str; 0] = [];
            let c = command_with("nix-collect-garbage", &args);
            assert(crate::elevation::str_views(args@) =~= Seq::<Seq<char>>::empty());
            (Deletion { stage: DeletionStage::Collecting, ..self }, Step { say, op: Op::Run(c) })
        } else {
            (
                Deletion { stage: DeletionStage::CheckingBoot, ..self },
                Step { say: before, op: Op::Exists("/run/current-system/bin/switch-to-configuration".to_string()) },
            )
        }
    }

    fn finished(self, s: Step) -> (r: (Deletion, Step))
        ensures
            r.0.cutoff == self.cutoff,
            r.0.stage == DeletionStage::Finished,
            r.1 == s,
            keeps_request(self, r.0),
            r.0.ids == self.ids,
            r.0.generations == self.generations,
    {
        (Deletion { stage: DeletionStage::Finished, ..self }, s)
    }

    /// One step of the deletion: `ev` answers the step asked for last.
    pub fn step(self, ev: Event) -> (r: (Deletion, Step))
        ensures
            deletion_step_spec(self, ev, r.0, r.1),
    {
        match (self.stage, ev) {
            (DeletionStage::Listing, Event::Generations(gens)) => {
                if gens.len() == 0 {
                    let next = Deletion { generations: gens, ..self };
                    return next.finished(saying(warn("No generations found"), Op::Finish(Ok(()))));
                }
                match &self.requested {
                    Some(ids) => match validate_delete_ids(gens.as_slice(), ids.as_slice()) {
                        Err(e) => {
                            let msg = e.message();
                            Deletion { generations: gens, ..self }.finished(fail(msg))
                        },
                        Ok(()) => {
                            let chosen = ids.clone();
                            assert(chosen@ == ids@);
                            Deletion { generations: gens, ..self }.take_choice(chosen)
                        },
                    },
                    None => match selection_list(gens.as_slice()) {
                        Ok(lines) => {
                            let intro_lines = ["", "  Available generations (current marked with *):", ""];
                            let outro_lines = ["", "  Enter generation IDs to delete (space-separated), or 'q' to quit:"];
                            let intro = strings(&intro_lines);
                            let outro = strings(&outro_lines);
                            assert(crate::elevation::str_views(intro_lines@) =~= selection_intro());
                            assert(crate::elevation::str_views(outro_lines@) =~= selection_outro());
                            (
                                Deletion { stage: DeletionStage::ShowingSelection, generations: gens, ..self },
                                quiet(Op::ShowSelection { intro, lines, outro }),
                            )
                        },
                        Err(_) => Deletion { generations: gens, ..self }.finished(unexpected()),
                    },
                }
            },
            (DeletionStage::ShowingSelection, Event::Done) => {
                (Deletion { stage: DeletionStage::Selecting, ..self }, quiet(Op::Ask(String::new())))
            },
            (DeletionStage::Selecting, Event::Answer(answer)) => {
                match answer {
                    Err(_) => self.cancel(no_messages()),
                    Ok(input) => {
                        let sel = parse_selection(input.as_str(), self.generations.as_slice());
                        match sel {
                            Selection::Cancelled => self.cancel(no_messages()),
                            Selection::Rejected(m) => {
                                let mut say = no_messages();
                                push_message(&mut say, m);
                                self.cancel(say)
                            },
                            Selection::Chosen(v) => self.take_choice(v),
                        }
                    },
                }
            },
            (DeletionStage::DatingCutoff, Event::Text(c)) => {
                let left = unspared_ids(
                    self.generations.as_slice(),
                    self.ids.as_slice(),
                    self.keep,
                    Some(c.as_str()),
                );
                Deletion { cutoff: Some(c), ..self }.announce(left, no_messages())
            },
            (DeletionStage::Announcing, Event::Done) => {
                let notice = warn(deletion_notice(self.ids.as_slice()).as_str());
                if self.dry {
                    self.finished(saying2(notice, info("Dry run \u{2014} no changes made"), Op::Finish(Ok(()))))
                } else {
                    (
                        Deletion { stage: DeletionStage::Confirming, ..self },
                        saying(notice, Op::Ask("  Continue? [y/N] ".to_string())),
                    )
                }
            },
            (DeletionStage::Confirming, Event::Answer(answer)) => {
                match answer {
                    Err(e) => self.finished(fail(e)),
                    Ok(input) => if confirms(input.as_str()) {
                        self.next_removal(0, no_messages())
                    } else {
                        self.cancel(no_messages())
                    },
                }
            },
            (DeletionStage::CheckingLink(i), Event::Flag(present)) => {
                if i >= self.ids.len() {
                    self.finished(unexpected())
                } else if present {
                    let p = generation_profile_link(self.ids[i]);
                    (Deletion { stage: DeletionStage::Removing(i), ..self }, quiet(Op::RemoveFile(p)))
                } else {
                    self.next_removal(i + 1, no_messages())
                }
            },
            (DeletionStage::Removing(i), Event::Done) => {
                if i >= self.ids.len() {
                    self.finished(unexpected())
                } else {
                    let mut say = no_messages();
                    push_message(&mut say, done("Deleted generation ".to_string().concat(format_u64(self.ids[i]).as_str()).as_str()));
                    self.next_removal(i + 1, say)
                }
            },
            (DeletionStage::Collecting, Event::Status(_)) => {
                (
                    Deletion { stage: DeletionStage::CheckingBoot, ..self },
                    saying(
                        done("Garbage collection complete"),
                        Op::Exists("/run/current-system/bin/switch-to-configuration".to_string()),
                    ),
                )
            },
            (DeletionStage::CheckingBoot, Event::Flag(present)) => {
                if present {
                    let args = ["boot"];
                    let c = command_with("/run/current-system/bin/switch-to-configuration", &args);
                    assert(crate::elevation::str_views(args@) =~= seq!["boot"@]);
                    (Deletion { stage: DeletionStage::RefreshingBoot, ..self }, quiet(Op::Run(c)))
                } else {
                    self.finished(saying(done("Deletion complete"), Op::Finish(Ok(()))))
                }
            },
            (DeletionStage::RefreshingBoot, Event::Status(_)) => {
                self.finished(saying(done("Deletion complete"), Op::Finish(Ok(()))))
            },
            _ => self.finished(unexpected()),
        }
    }
}

/// A dry deletion never gets past the announcement.
pub open spec fn dry_deletion_holds(d: Deletion) -> bool {
    d.dry ==> match d.stage {
        DeletionStage::Listing | DeletionStage::ShowingSelection | DeletionStage::Selecting
        | DeletionStage::DatingCutoff | DeletionStage::Announcing | DeletionStage::Finished => true,
        _ => false,
    }
}

/// A dry run shows what would be deleted without deleting: no step of a dry
/// deletion removes a file or runs a command, and its stage never passes the
/// announcement.
pub proof fn lemma_dry_deletion_deletes_nothing(old: Deletion, ev: Event, new: Deletion, s: Step)
    requires
        dry_deletion_holds(old),
        deletion_step_spec(old, ev, new, s),
    ensures
        dry_deletion_holds(new),
        old.dry ==> !(s.op is RemoveFile) && !(s.op is Run),
{
}

/// A deletion starts in a state where [`dry_deletion_holds`].
pub proof fn lemma_deletion_starts_dry_safe(d: Deletion)
    requires
        d.stage == DeletionStage::Listing,
    ensures
        dry_deletion_holds(d),
{
}

/// Whatever the answers, a deletion removes only profile links of chosen
/// generations: a removal step names the link of a number in `ids`.
pub proof fn lemma_deletion_removes_chosen_links(old: Deletion, ev: Event, new: Deletion, s: Step)
    requires
        deletion_step_spec(old, ev, new, s),
        s.op is RemoveFile,
    ensures
        s.op matches Op::RemoveFile(p) && exists|i: int|
            0 <= i < old.ids@.len() && p@ == profile_link_spec(#[trigger] old.ids@[i]),
{
}

/// None of the chosen numbers is that of the current generation: for each,
/// the first listed generation with that number, if any, is not current.
pub open spec fn ids_spare_current(gens: Seq<Generation>, ids: Seq<u64>) -> bool {
    forall|i: int|
        0 <= i < ids.len() ==> !(find_generation(gens, #[trigger] ids[i]) matches Some(g)
            && g.is_current)
}

/// Once the numbers are chosen, none of them is that of the current
/// generation; once they are announced, none of them is spared by `keep` or
/// `keep_since` (see [`spared`]).
pub open spec fn spares_current(d: Deletion) -> bool {
    match d.stage {
        DeletionStage::Listing | DeletionStage::ShowingSelection | DeletionStage::Selecting
        | DeletionStage::Finished => true,
        DeletionStage::DatingCutoff => ids_spare_current(d.generations@, d.ids@),
        _ => ids_spare_current(d.generations@, d.ids@) && forall|i: int|
            0 <= i < d.ids@.len() ==> !spared(d.generations@, #[trigger] d.ids@[i], d.keep, cutoff_view(d)),
    }
}

proof fn lemma_unspared_spares_current(
    gens: Seq<Generation>,
    ids: Seq<u64>,
    keep: Option<u64>,
    cutoff: Option<Seq<char>>,
)
    requires
        ids_spare_current(gens, ids),
    ensures
        ids_spare_current(gens, unspared(gens, ids, keep, cutoff)),
        forall|i: int|
            0 <= i < unspared(gens, ids, keep, cutoff).len() ==> !spared(
                gens,
                #[trigger] unspared(gens, ids, keep, cutoff)[i],
                keep,
                cutoff,
            ),
{
    lemma_unspared(gens, ids, keep, cutoff);
    let u = unspared(gens, ids, keep, cutoff);
    assert forall|i: int| 0 <= i < u.len() implies !(find_generation(gens, #[trigger] u[i]) matches Some(
        g,
    ) && g.is_current) by {
        assert(ids.contains(u[i]));
        let k = choose|k: int| 0 <= k < ids.len() && ids[k] == u[i];
        assert(!(find_generation(gens, ids[k]) matches Some(g) && g.is_current));
    }
}

proof fn lemma_choice_spares_current(gens: Seq<Generation>, old: Deletion, ids: Seq<u64>, new: Deletion, s: Step)
    requires
        ids_spare_current(gens, ids),
        choose_spec(gens, old, ids, new, s),
        new.generations@ == gens,
        new.keep == old.keep,
    ensures
        spares_current(new),
{
    lemma_unspared_spares_current(gens, ids, old.keep, None);
}

/// The current generation, and the generations that `keep` or `keep_since`
/// spare, are never deleted: every step keeps [`spares_current`], so a
/// removal names the profile link of a chosen number whose listed generation
/// is not the current one and is not spared.
pub proof fn lemma_deletion_spares_current(old: Deletion, ev: Event, new: Deletion, s: Step)
    requires
        spares_current(old),
        deletion_step_spec(old, ev, new, s),
    ensures
        spares_current(new),
        s.op matches Op::RemoveFile(p) ==> exists|i: int|
            0 <= i < old.ids@.len() && p@ == profile_link_spec(#[trigger] old.ids@[i]) && !(find_generation(
                old.generations@,
                old.ids@[i],
            ) matches Some(g) && g.is_current) && !spared(old.generations@, old.ids@[i], old.keep, cutoff_view(old)),
{
    match (old.stage, ev) {
        (DeletionStage::Listing, Event::Generations(gens)) => {
            if gens@.len() > 0 {
                if let Some(ids) = old.requested {
                    if delete_check_from(gens@, ids@, 0) is Ok {
                        lemma_delete_check_spares_current(gens@, ids@);
                        lemma_choice_spares_current(gens@, old, ids@, new, s);
                    }
                }
            }
        },
        (DeletionStage::Selecting, Event::Answer(Ok(input))) => {
            let t = trim_spec(input@);
            if !(t == seq!['q'] || t.len() == 0) {
                let gens = old.generations@;
                let sel = choose|sel: Selection|
                    #[trigger] selection_spec(input@, gens, sel) && match sel {
                        Selection::Rejected(m) => cancel_spec(seq![(m.level, m.text@)], new, s),
                        Selection::Chosen(v) => choose_spec(gens, old, v@, new, s),
                        Selection::Cancelled => false,
                    };
                if let Selection::Chosen(v) = sel {
                    lemma_selection_spares_current(input@, gens, sel);
                    lemma_choice_spares_current(gens, old, v@, new, s);
                }
            }
        },
        (DeletionStage::DatingCutoff, Event::Text(c)) => {
            lemma_unspared_spares_current(old.generations@, old.ids@, old.keep, Some(c@));
        },
        _ => {},
    }
}

/// With `no_gc`, a deletion never collects garbage: no step runs
/// `nix-collect-garbage` or enters the collecting stage, and once the last
/// link has been looked at the next thing checked is the boot switch program.
pub proof fn lemma_no_gc_skips_collection(old: Deletion, ev: Event, new: Deletion, s: Step)
    requires
        old.no_gc,
        deletion_step_spec(old, ev, new, s),
    ensures
        new.stage != DeletionStage::Collecting,
        !(s.op matches Op::Run(c) && c.program@ == "nix-collect-garbage"@),
        (old.stage matches DeletionStage::CheckingLink(i) && i + 1 == old.ids@.len() && ev
            == Event::Flag(false)) ==> (s.op matches Op::Exists(p) && p@
            == "/run/current-system/bin/switch-to-configuration"@),
{
    reveal_strlit("nix-collect-garbage");
    reveal_strlit("/run/current-system/bin/switch-to-configuration");
    assert("nix-collect-garbage"@[0] != "/run/current-system/bin/switch-to-configuration"@[0]);
}

/// Only `y` or `Y` (around which blanks are ignored) confirms a deletion: any
/// other answer ends the run well without removing anything.
pub proof fn lemma_only_yes_confirms(old: Deletion, input: String, new: Deletion, s: Step)
    requires
        old.stage == DeletionStage::Confirming,
        deletion_step_spec(old, Event::Answer(Ok(input)), new, s),
    ensures
        (trim_spec(input@) == seq!['y'] || trim_spec(input@) == seq!['Y']) ==> !(new.stage
            is Finished),
        !(trim_spec(input@) == seq!['y'] || trim_spec(input@) == seq!['Y']) ==> new.stage
            == DeletionStage::Finished && (s.op matches Op::Finish(r) && r is Ok) && messages(s.say@)
            == seq![(LogLevel::Info, "Cancelled"@)],
{
    let t = trim_spec(input@);
    if eq_ignore_ascii_case_spec(t, seq!['y']) {
        assert(t.len() == 1);
        assert(crate::text::ascii_lower_spec(t[0]) == 'y');
        assert(t =~= seq!['y'] || t =~= seq!['Y']);
    } else {
        if t == seq!['y'] || t == seq!['Y'] {
            assert(crate::text::ascii_lower_spec(t[0]) == crate::text::ascii_lower_spec(seq!['y'][0]));
        }
    }
}

} // verus!
