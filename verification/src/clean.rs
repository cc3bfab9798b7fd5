//! Garbage collection: the order of the steps, and the sweep of stale gcroots.
use vstd::prelude::*;
use crate::command::CommandSpec;
use crate::log::{done, info, warn, LogLevel, LogMessage};
use crate::nix::{str_option_view, Generation};
use crate::nixos::{
    count_newer, duration_seconds, keep_since_warning, keep_since_warning_spec, lemma_unspared,
    parse_duration, spared, unspared, unspared_ids,
};
use crate::text::{decimal, format_u64, string_views};

verus! {

/// Options of `clean`.
pub struct CleanArgs {
    /// Number of generations to keep (minimum).
    pub keep: u64,
    /// Keep generations newer than this duration.
    pub keep_since: Option<String>,
    /// Skip gcroot cleanup.
    pub no_gcroots: bool,
    /// Skip direnv gcroot cleanup.
    pub no_direnv: bool,
    /// Skip store optimisation.
    pub no_optimise: bool,
    /// Show what would be cleaned without cleaning.
    pub dry: bool,
    /// Operate on user profiles only (no root required).
    pub user_only: bool,
}

/// One step of a clean run. The steps run in order; the run stops at the first
/// step that fails.
pub enum CleanStep {
    /// Show a message.
    Say(LogMessage),
    /// Run a program with root rights; it fails when it cannot be started or
    /// exits unsuccessfully.
    AsRoot { program: String, args: Vec<String> },
    /// Run a command as the user; it fails only when it cannot be started.
    AsUser(CommandSpec),
    /// Sweep stale gcroots (see [`GcrootSweep`]).
    SweepGcroots { skip_direnv: bool },
}

/// The numbers of the listed generations that are not current, in order.
pub open spec fn noncurrent_ids(gens: Seq<Generation>) -> Seq<u64>
    decreases gens.len(),
{
    if gens.len() == 0 {
        seq![]
    } else {
        noncurrent_ids(gens.drop_last()) + if gens.last().is_current {
            Seq::<u64>::empty()
        } else {
            seq![gens.last().id]
        }
    }
}

/// The generations a clean deletes, in order: those that are not current,
/// not among the `keep` newest, and not dated after `cutoff` (see [`spared`]).
pub open spec fn to_delete(gens: Seq<Generation>, keep: u64, cutoff: Option<Seq<char>>) -> Seq<u64> {
    unspared(gens, noncurrent_ids(gens), Some(keep), cutoff)
}

/// The numbers written out in decimal.
pub open spec fn id_texts(ids: Seq<u64>) -> Seq<Seq<char>> {
    ids.map_values(|id: u64| decimal(id as nat))
}

/// Step `s` shows a message of level `l` with text `t`.
pub open spec fn says(s: CleanStep, l: LogLevel, t: Seq<char>) -> bool {
    s matches CleanStep::Say(m) && m.level == l && m.text@ == t
}

/// Step `s` runs `program` with `args` as root.
pub open spec fn runs_as_root(s: CleanStep, program: Seq<char>, args: Seq<Seq<char>>) -> bool {
    s matches CleanStep::AsRoot { program: p, args: a } && p@ == program && string_views(a@) == args
}

/// Step `s` runs `program` with `args` as the user, with nothing else set.
pub open spec fn runs_as_user(s: CleanStep, program: Seq<char>, args: Seq<Seq<char>>) -> bool {
    s matches CleanStep::AsUser(c) && c.program@ == program && c.arg_views() == args && c.env@.len()
        == 0 && c.current_dir is None
}

/// Step `s` runs `program` with `args`, as the user when `user_only`, else as root.
pub open spec fn runs(s: CleanStep, user_only: bool, program: Seq<char>, args: Seq<Seq<char>>) -> bool {
    if user_only {
        runs_as_user(s, program, args)
    } else {
        runs_as_root(s, program, args)
    }
}

/// A profile and its generations.
pub struct Profile {
    /// The path of the profile link, as `nix-env --profile` takes it.
    pub path: String,
    /// Its generations, by number.
    pub generations: Vec<Generation>,
}

/// For each profile in turn that has generations to delete (see
/// [`to_delete`]), its path and those generation numbers.
pub open spec fn profile_deletions(ps: Seq<Profile>, keep: u64, cutoff: Option<Seq<char>>) -> Seq<
    (Seq<char>, Seq<u64>),
>
    decreases ps.len(),
{
    if ps.len() == 0 {
        seq![]
    } else {
        let rest = profile_deletions(ps.drop_last(), keep, cutoff);
        let d = to_delete(ps.last().generations@, keep, cutoff);
        if d.len() > 0 {
            rest.push((ps.last().path@, d))
        } else {
            rest
        }
    }
}

/// Step `s` deletes the generations `d.1` from the profile `d.0`.
pub open spec fn deletes(s: CleanStep, user_only: bool, d: (Seq<char>, Seq<u64>)) -> bool {
    runs(s, user_only, "nix-env"@, seq!["--profile"@, d.0, "--delete-generations"@] + id_texts(d.1))
}

/// The steps of a clean run for `a`, over the profiles `profiles`, with
/// `cutoff` the time `keep_since` ago.
///
/// System-wide (or, with `user_only`, user-level) collection is announced; a
/// dry run then says so and stops. Otherwise, in each profile in turn, the
/// generations of [`to_delete`] are deleted, if there are any; then garbage
/// is collected, gcroots are swept unless `no_gcroots`, the store is
/// optimised unless `no_optimise`, and completion is announced.
pub open spec fn clean_plan_spec(
    a: CleanArgs,
    profiles: Seq<Profile>,
    cutoff: Option<Seq<char>>,
    steps: Seq<CleanStep>,
) -> bool {
    let intro = if a.user_only {
        "Running user-level garbage collection..."@
    } else {
        "Running system-wide garbage collection..."@
    };
    let dels = profile_deletions(profiles, a.keep, cutoff);
    if a.dry {
        steps.len() == 2 && says(steps[0], LogLevel::Info, intro) && says(
            steps[1],
            LogLevel::Info,
            "Dry run \u{2014} no changes made"@,
        )
    } else {
        let g: int = 1 + dels.len() as int;
        let n: int = if a.no_gcroots {
            g + 1
        } else {
            g + 2
        };
        &&& steps.len() > g
        &&& says(steps[0], LogLevel::Info, intro)
        &&& forall|i: int| 0 <= i < dels.len() ==> deletes(#[trigger] steps[1 + i], a.user_only, dels[i])
        &&& runs(steps[g], a.user_only, "nix-collect-garbage"@, seq![])
        &&& !a.no_gcroots ==> (steps[g + 1] matches CleanStep::SweepGcroots { skip_direnv }
            && skip_direnv == a.no_direnv)
        &&& if a.no_optimise {
            &&& steps.len() == n + 1
            &&& says(steps[n], LogLevel::Done, "Clean complete"@)
        } else {
            &&& steps.len() == n + 3
            &&& says(steps[n], LogLevel::Info, "Optimising nix store..."@)
            &&& runs(steps[n + 1], a.user_only, "nix-store"@, seq!["--optimise"@])
            &&& says(steps[n + 2], LogLevel::Done, "Clean complete"@)
        }
    }
}

/// A step that runs `program` with `args`, as the user or as root.
fn run_step(user_only: bool, program: &str, args: Vec<String>) -> (s: CleanStep)
    ensures
        runs(s, user_only, program@, string_views(args@)),
{
    if user_only {
        let mut c = CommandSpec::new(program);
        let mut i: usize = 0;
        while i < args.len()
            invariant
                i <= args.len(),
                c.program@ == program@,
                c.env@.len() == 0,
                c.current_dir is None,
                c.arg_views() == string_views(args@.take(i as int)),
            decreases args.len() - i,
        {
            c.arg(args[i].as_str());
            i += 1;
            assert(c.arg_views() =~= string_views(args@.take(i as int)));
        }
        assert(args@.take(i as int) =~= args@);
        CleanStep::AsUser(c)
    } else {
        CleanStep::AsRoot { program: program.to_string(), args }
    }
}

/// The numbers of the listed generations that are not current.
fn noncurrent(gens: &[Generation]) -> (r: Vec<u64>)
    ensures
        r@ == noncurrent_ids(gens@),
{
    let mut r: Vec<u64> = Vec::new();
    let mut i: usize = 0;
    while i < gens.len()
        invariant
            i <= gens.len(),
            r@ == noncurrent_ids(gens@.take(i as int)),
        decreases gens.len() - i,
    {
        assert(gens@.take(i + 1).drop_last() =~= gens@.take(i as int));
        assert(gens@.take(i + 1).last() == gens@[i as int]);
        if !gens[i].is_current {
            r.push(gens[i].id);
        }
        assert(r@ =~= noncurrent_ids(gens@.take(i + 1)));
        i += 1;
    }
    assert(gens@.take(i as int) =~= gens@);
    r
}

/// The generations a clean deletes (see [`to_delete`]).
pub fn generations_to_delete(gens: &[Generation], keep: u64, cutoff: Option<&str>) -> (r: Vec<u64>)
    ensures
        r@ == to_delete(gens@, keep, str_option_view(cutoff)),
{
    let ids = noncurrent(gens);
    unspared_ids(gens, ids.as_slice(), Some(keep), cutoff)
}

/// The arguments that delete the generations `ids` from `profile`.
fn deletion_args(profile: &str, ids: &[u64]) -> (r: Vec<String>)
    ensures
        string_views(r@) == seq!["--profile"@, profile@, "--delete-generations"@] + id_texts(ids@),
{
    let mut r: Vec<String> = Vec::new();
    r.push("--profile".to_string());
    r.push(profile.to_string());
    r.push("--delete-generations".to_string());
    let ghost head = seq!["--profile"@, profile@, "--delete-generations"@];
    assert(string_views(r@) =~= head);
    let mut i: usize = 0;
    while i < ids.len()
        invariant
            i <= ids.len(),
            string_views(r@) == head + id_texts(ids@.take(i as int)),
        decreases ids.len() - i,
    {
        let ghost before = r@;
        let t = format_u64(ids[i]);
        r.push(t);
        proof {
            crate::text::lemma_string_views_push(before, t);
            assert(id_texts(ids@.take(i + 1)) =~= id_texts(ids@.take(i as int)).push(
                decimal(ids@[i as int] as nat),
            ));
        }
        i += 1;
    }
    assert(ids@.take(i as int) =~= ids@);
    r
}

/// The seconds in `keep_since`, when it is given and is a duration; a
/// `keep_since` that is not a duration is ignored, with the warning returned
/// beside.
pub fn keep_since_seconds(a: &CleanArgs) -> (r: (Option<u64>, Option<LogMessage>))
    ensures
        match a.keep_since {
            None => r.0 is None && r.1 is None,
            Some(d) => match duration_seconds(d@) {
                Some(x) => r.0 == Some(x) && r.1 is None,
                None => r.0 is None && (r.1 matches Some(m) && m.level == LogLevel::Warn && m.text@
                    == keep_since_warning_spec(d@)),
            },
        },
{
    match &a.keep_since {
        None => (None, None),
        Some(d) => match parse_duration(d.as_str()) {
            Some(x) => (Some(x), None),
            None => (None, Some(keep_since_warning(d.as_str()))),
        },
    }
}

/// The steps of a clean run over `profiles`, with `cutoff` the time
/// `keep_since` ago (when given).
pub fn clean_plan(a: &CleanArgs, profiles: &[Profile], cutoff: Option<&str>) -> (steps: Vec<CleanStep>)
    ensures
        clean_plan_spec(*a, profiles@, str_option_view(cutoff), steps@),
{
    let mut steps: Vec<CleanStep> = Vec::new();
    let intro = if !a.user_only {
        info("Running system-wide garbage collection...")
    } else {
        info("Running user-level garbage collection...")
    };
    steps.push(CleanStep::Say(intro));
    if a.dry {
        steps.push(CleanStep::Say(info("Dry run \u{2014} no changes made")));
        return steps;
    }
    let ghost first = steps@[0];
    let mut i: usize = 0;
    while i < profiles.len()
        invariant
            i <= profiles.len(),
            !a.dry,
            steps@.len() == 1 + profile_deletions(profiles@.take(i as int), a.keep, str_option_view(cutoff)).len(),
            steps@[0] == first,
            forall|j: int|
                0 <= j < profile_deletions(profiles@.take(i as int), a.keep, str_option_view(cutoff)).len()
                    ==> deletes(
                    #[trigger] steps@[1 + j],
                    a.user_only,
                    profile_deletions(profiles@.take(i as int), a.keep, str_option_view(cutoff))[j],
                ),
        decreases profiles.len() - i,
    {
        let ghost before = profile_deletions(profiles@.take(i as int), a.keep, str_option_view(cutoff));
        let ghost old_steps = steps@;
        assert(profiles@.take(i + 1).drop_last() =~= profiles@.take(i as int));
        assert(profiles@.take(i + 1).last() == profiles@[i as int]);
        let del = generations_to_delete(profiles[i].generations.as_slice(), a.keep, cutoff);
        if del.len() > 0 {
            steps.push(run_step(a.user_only, "nix-env", deletion_args(profiles[i].path.as_str(), del.as_slice())));
            assert forall|j: int|
                0 <= j < before.len() + 1 implies deletes(
                #[trigger] steps@[1 + j],
                a.user_only,
                before.push((profiles@[i as int].path@, del@))[j],
            ) by {
                if j < before.len() {
                    assert(steps@[1 + j] == old_steps[1 + j]);
                }
            }
        }
        i += 1;
    }
    assert(profiles@.take(i as int) =~= profiles@);
    let no_args: Vec<String> = Vec::new();
    assert(string_views(no_args@) =~= Seq::<Seq<char>>::empty());
    steps.push(run_step(a.user_only, "nix-collect-garbage", no_args));
    if !a.no_gcroots {
        steps.push(CleanStep::SweepGcroots { skip_direnv: a.no_direnv });
    }
    if !a.no_optimise {
        steps.push(CleanStep::Say(info("Optimising nix store...")));
        let mut args: Vec<String> = Vec::new();
        args.push("--optimise".to_string());
        assert(string_views(args@) =~= seq!["--optimise"@]);
        steps.push(run_step(a.user_only, "nix-store", args));
    }
    steps.push(CleanStep::Say(done("Clean complete")));
    steps
}

/// A clean never deletes the current generation, one of the `keep` newest,
/// or one dated after `cutoff`: every number it deletes is that of a listed
/// generation that is not current, with at least `keep` listed generations
/// newer than it, and not spared by the cutoff.
pub proof fn lemma_clean_keeps(gens: Seq<Generation>, keep: u64, cutoff: Option<Seq<char>>)
    ensures
        forall|j: int|
            0 <= j < to_delete(gens, keep, cutoff).len() ==> (exists|k: int|
                0 <= k < gens.len() && gens[k].id == #[trigger] to_delete(gens, keep, cutoff)[j]
                    && !gens[k].is_current) && count_newer(gens, to_delete(gens, keep, cutoff)[j])
                >= keep && !spared(gens, to_delete(gens, keep, cutoff)[j], Some(keep), cutoff),
{
    let ids = noncurrent_ids(gens);
    lemma_unspared(gens, ids, Some(keep), cutoff);
    lemma_noncurrent_ids(gens);
    let d = to_delete(gens, keep, cutoff);
    assert forall|j: int| 0 <= j < d.len() implies (exists|k: int|
        0 <= k < gens.len() && gens[k].id == #[trigger] d[j] && !gens[k].is_current) by {
        assert(ids.contains(d[j]));
        let m = choose|m: int| 0 <= m < ids.len() && ids[m] == d[j];
        assert(exists|k: int| 0 <= k < gens.len() && gens[k].id == ids[m] && !gens[k].is_current);
    }
}

/// A clean deletes, in each profile, exactly the generations of
/// [`to_delete`] for that profile's own list: every deletion names a profile
/// and its own numbers (so `keep` counts the newest of each profile).
pub proof fn lemma_clean_per_profile(ps: Seq<Profile>, keep: u64, cutoff: Option<Seq<char>>)
    ensures
        forall|i: int|
            0 <= i < profile_deletions(ps, keep, cutoff).len() ==> exists|k: int|
                0 <= k < ps.len() && #[trigger] profile_deletions(ps, keep, cutoff)[i] == (
                    ps[k].path@,
                    to_delete(ps[k].generations@, keep, cutoff),
                ),
    decreases ps.len(),
{
    if ps.len() > 0 {
        let t = ps.drop_last();
        lemma_clean_per_profile(t, keep, cutoff);
        let d = profile_deletions(ps, keep, cutoff);
        let dt = profile_deletions(t, keep, cutoff);
        assert forall|i: int| 0 <= i < d.len() implies exists|k: int|
            0 <= k < ps.len() && #[trigger] d[i] == (ps[k].path@, to_delete(ps[k].generations@, keep, cutoff)) by {
            if i < dt.len() {
                assert(d[i] == dt[i]);
                let k = choose|k: int|
                    0 <= k < t.len() && dt[i] == (t[k].path@, to_delete(t[k].generations@, keep, cutoff));
                assert(ps[k] == t[k]);
            } else {
                assert(ps[ps.len() - 1] == ps.last());
            }
        }
    }
}

proof fn lemma_noncurrent_ids(gens: Seq<Generation>)
    ensures
        forall|m: int|
            0 <= m < noncurrent_ids(gens).len() ==> exists|k: int|
                0 <= k < gens.len() && gens[k].id == #[trigger] noncurrent_ids(gens)[m]
                    && !gens[k].is_current,
    decreases gens.len(),
{
    if gens.len() > 0 {
        let t = gens.drop_last();
        lemma_noncurrent_ids(t);
        let u = noncurrent_ids(gens);
        let ut = noncurrent_ids(t);
        assert forall|m: int| 0 <= m < u.len() implies exists|k: int|
            0 <= k < gens.len() && gens[k].id == #[trigger] u[m] && !gens[k].is_current by {
            if m < ut.len() {
                assert(u[m] == ut[m]);
                let k = choose|k: int| 0 <= k < t.len() && t[k].id == ut[m] && !t[k].is_current;
                assert(gens[k] == t[k]);
            } else {
                assert(gens[gens.len() - 1] == gens.last());
            }
        }
    }
}

/// What the regular expression `pattern` answers for `text`: `None` when the
/// pattern does not compile, otherwise whether it matches somewhere in `text`.
pub uninterp spec fn regex_match(pattern: Seq<char>, text: Seq<char>) -> Option<bool>;

/// Compiles `pattern` with `regex::Regex::new` and tests it with
/// `Regex::is_match` against `text`. The claim is only that the answer is a
/// function of the pattern and the text; nothing is said of which texts match.
#[verifier::external_body]
fn regex_is_match(pattern: &str, text: &str) -> (r: Option<bool>)
    ensures
        r == regex_match(pattern@, text@),
{
    match regex::Regex::new(pattern) {
        Ok(re) => Some(re.is_match(text)),
        Err(_) => None,
    }
}

/// The pattern of gcroots kept by direnv.
pub open spec fn direnv_pattern() -> Seq<char> {
    "\\.direnv|direnv/layouts"@
}

/// The pattern of `result` links left by builds.
pub open spec fn result_pattern() -> Seq<char> {
    "^result(-\\w+)?$"@
}

/// Whether a gcroot path belongs to direnv.
pub fn is_direnv_root(path: &str) -> (b: bool)
    ensures
        b == (regex_match(direnv_pattern(), path@) == Some(true)),
{
    match regex_is_match("\\.direnv|direnv/layouts", path) {
        Some(m) => m,
        None => false,
    }
}

/// Whether a file name is that of a build `result` link.
pub fn is_result_link_name(name: &str) -> (b: bool)
    ensures
        b == (regex_match(result_pattern(), name@) == Some(true)),
{
    match regex_is_match("^result(-\\w+)?$", name) {
        Some(m) => m,
        None => false,
    }
}

/// Where the sweep of one gcroot entry stands.
pub enum SweepPhase {
    /// Waiting for the next entry.
    Idle,
    /// Waiting to learn whether the link's target exists.
    Target { path: String, name_hit: bool },
    /// Waiting for the removal of a dangling link.
    Removal { path: String, name_hit: bool },
    /// Waiting for a warning to be shown.
    Warned { path: String, name_hit: bool },
    /// Waiting to learn whether the entry is still a link.
    StillLink { path: String },
    /// The sweep is over.
    Finished,
}

/// The sweep of the gcroot directory: the phase, the number of links removed,
/// and whether direnv gcroots are to be left out of the check.
pub struct GcrootSweep {
    pub phase: SweepPhase,
    pub cleaned: u64,
    pub skip_direnv: bool,
}

/// What happened, as reported to the sweep.
pub enum SweepEvent {
    /// The next entry: its path, its file name, whether it is a symbolic link.
    Entry { path: String, name: Option<String>, is_link: bool },
    /// There is no further entry.
    NoMoreEntries,
    /// Whether the target of the link exists.
    TargetExists(bool),
    /// The outcome of removing a dangling link (the error text on failure).
    Removed(Result<(), String>),
    /// Whether the entry is (still) a symbolic link.
    IsLink(bool),
    /// The warning asked for was shown.
    Shown,
}

/// What the sweep asks for next.
pub enum SweepAction {
    /// Report the next entry.
    NextEntry,
    /// Read the link at this path and report whether its target exists.
    CheckTarget(String),
    /// Remove the file at this path and report the outcome.
    Remove(String),
    /// Show this warning and report that it was shown.
    Warn(LogMessage),
    /// Report whether this path is a symbolic link.
    CheckLink(String),
    /// Remove the file at this path, ignoring the outcome, then report the next entry.
    RemoveQuietly(String),
    /// The sweep is over; show this message if there is one.
    Finish(Option<LogMessage>),
}

/// The closing message: the count of removed links, when there is any.
pub open spec fn sweep_summary(cleaned: u64, m: Option<LogMessage>) -> bool {
    if cleaned > 0 {
        m matches Some(msg) && msg.level == LogLevel::Done && msg.text@ == "Removed "@ + decimal(
            cleaned as nat,
        ) + " orphaned gcroots"@
    } else {
        m is None
    }
}

/// After an entry's link check: a `result` link is removed (and counted) if it
/// is still a link; otherwise the sweep goes on.
pub open spec fn after_target_spec(path: Seq<char>, name_hit: bool, s: GcrootSweep, a: SweepAction) -> bool {
    if name_hit {
        (s.phase matches SweepPhase::StillLink { path: p } && p@ == path) && (a matches SweepAction::CheckLink(q)
            && q@ == path)
    } else {
        s.phase is Idle && a is NextEntry
    }
}

/// One step of the sweep, given whether the entry's path is a direnv gcroot
/// (`direnv_hit`) and whether its file name is a `result` link name (`name_hit`).
///
/// An entry is passed over when direnv gcroots are skipped and its path is
/// one. A link whose target does not exist is removed and counted; a failed
/// removal is warned about. Then an entry whose name is a `result` link name is
/// removed, and counted, if it is still a link. With no more entries the count
/// is reported if it is not zero.
pub open spec fn sweep_step_spec(
    old: GcrootSweep,
    ev: SweepEvent,
    direnv_hit: bool,
    name_hit: bool,
    new: GcrootSweep,
    a: SweepAction,
) -> bool {
    &&& new.skip_direnv == old.skip_direnv
    &&& match (old.phase, ev) {
        (SweepPhase::Idle, SweepEvent::Entry { path, name, is_link }) => {
            &&& new.cleaned == old.cleaned
            &&& if old.skip_direnv && direnv_hit {
                new.phase is Idle && a is NextEntry
            } else if is_link {
                (new.phase matches SweepPhase::Target { path: p, name_hit: h } && p@ == path@ && h
                    == (name is Some && name_hit)) && (a matches SweepAction::CheckTarget(q) && q@
                    == path@)
            } else {
                after_target_spec(path@, name is Some && name_hit, new, a)
            }
        },
        (SweepPhase::Idle, SweepEvent::NoMoreEntries) => {
            &&& new.cleaned == old.cleaned
            &&& new.phase is Finished
            &&& a matches SweepAction::Finish(m) && sweep_summary(old.cleaned, m)
        },
        (SweepPhase::Target { path, name_hit: h }, SweepEvent::TargetExists(exists)) => {
            &&& new.cleaned == old.cleaned
            &&& if exists {
                after_target_spec(path@, h, new, a)
            } else {
                (new.phase matches SweepPhase::Removal { path: p, name_hit: h2 } && p@ == path@
                    && h2 == h) && (a matches SweepAction::Remove(q) && q@ == path@)
            }
        },
        (SweepPhase::Removal { path, name_hit: h }, SweepEvent::Removed(outcome)) => {
            match outcome {
                Ok(()) => new.cleaned == old.cleaned + 1 && after_target_spec(path@, h, new, a),
                Err(e) => {
                    &&& new.cleaned == old.cleaned
                    &&& new.phase matches SweepPhase::Warned { path: p, name_hit: h2 } && p@ == path@
                        && h2 == h
                    &&& a matches SweepAction::Warn(m) && m.level == LogLevel::Warn && m.text@
                        == "Failed to remove "@ + path@ + ": "@ + e@
                }
            }
        },
        (SweepPhase::Warned { path, name_hit: h }, SweepEvent::Shown) => {
            new.cleaned == old.cleaned && after_target_spec(path@, h, new, a)
        },
        (SweepPhase::StillLink { path }, SweepEvent::IsLink(is_link)) => {
            &&& new.phase is Idle
            &&& if is_link {
                new.cleaned == old.cleaned + 1 && (a matches SweepAction::RemoveQuietly(q) && q@
                    == path@)
            } else {
                new.cleaned == old.cleaned && a is NextEntry
            }
        },
        _ => new.cleaned == old.cleaned && new.phase is Finished && (a matches SweepAction::Finish(m)
            && m is None),
    }
}

impl GcrootSweep {
    /// A sweep that has removed nothing yet.
    pub fn new(skip_direnv: bool) -> (r: GcrootSweep)
        ensures
            r.phase is Idle,
            r.cleaned == 0,
            r.skip_direnv == skip_direnv,
    {
        GcrootSweep { phase: SweepPhase::Idle, cleaned: 0, skip_direnv }
    }

    fn after_target(self, path: String, name_hit: bool) -> (r: (GcrootSweep, SweepAction))
        ensures
            r.0.cleaned == self.cleaned,
            r.0.skip_direnv == self.skip_direnv,
            after_target_spec(path@, name_hit, r.0, r.1),
    {
        if name_hit {
            let q = path.clone();
            (
                GcrootSweep { phase: SweepPhase::StillLink { path }, ..self },
                SweepAction::CheckLink(q),
            )
        } else {
            (GcrootSweep { phase: SweepPhase::Idle, ..self }, SweepAction::NextEntry)
        }
    }

    /// One step of the sweep with the pattern answers given.
    pub fn step_with(self, ev: SweepEvent, direnv_hit: bool, name_hit: bool) -> (r: (
        GcrootSweep,
        SweepAction,
    ))
        requires
            self.cleaned < u64::MAX,
        ensures
            sweep_step_spec(self, ev, direnv_hit, name_hit, r.0, r.1),
    {
        let skip_direnv = self.skip_direnv;
        let cleaned = self.cleaned;
        match (self.phase, ev) {
            (SweepPhase::Idle, SweepEvent::Entry { path, name, is_link }) => {
                let hit = name.is_some() && name_hit;
                if skip_direnv && direnv_hit {
                    (GcrootSweep { phase: SweepPhase::Idle, cleaned, skip_direnv }, SweepAction::NextEntry)
                } else if is_link {
                    let q = path.clone();
                    (
                        GcrootSweep {
                            phase: SweepPhase::Target { path, name_hit: hit },
                            cleaned,
                            skip_direnv,
                        },
                        SweepAction::CheckTarget(q),
                    )
                } else {
                    GcrootSweep { phase: SweepPhase::Idle, cleaned, skip_direnv }.after_target(path, hit)
                }
            },
            (SweepPhase::Idle, SweepEvent::NoMoreEntries) => {
                let m = if cleaned > 0 {
                    let text = "Removed ".to_string().concat(format_u64(cleaned).as_str()).concat(
                        " orphaned gcroots",
                    );
                    Some(done(text.as_str()))
                } else {
                    None
                };
                (GcrootSweep { phase: SweepPhase::Finished, cleaned, skip_direnv }, SweepAction::Finish(m))
            },
            (SweepPhase::Target { path, name_hit: h }, SweepEvent::TargetExists(exists)) => {
                if exists {
                    GcrootSweep { phase: SweepPhase::Idle, cleaned, skip_direnv }.after_target(path, h)
                } else {
                    let q = path.clone();
                    (
                        GcrootSweep { phase: SweepPhase::Removal { path, name_hit: h }, cleaned, skip_direnv },
                        SweepAction::Remove(q),
                    )
                }
            },
            (SweepPhase::Removal { path, name_hit: h }, SweepEvent::Removed(outcome)) => {
                match outcome {
                    Ok(()) => GcrootSweep {
                        phase: SweepPhase::Idle,
                        cleaned: cleaned + 1,
                        skip_direnv,
                    }.after_target(path, h),
                    Err(e) => {
                        let text = "Failed to remove ".to_string().concat(path.as_str()).concat(
                            ": ",
                        ).concat(e.as_str());
                        (
                            GcrootSweep { phase: SweepPhase::Warned { path, name_hit: h }, cleaned, skip_direnv },
                            SweepAction::Warn(warn(text.as_str())),
                        )
                    },
                }
            },
            (SweepPhase::Warned { path, name_hit: h }, SweepEvent::Shown) => {
                GcrootSweep { phase: SweepPhase::Idle, cleaned, skip_direnv }.after_target(path, h)
            },
            (SweepPhase::StillLink { path }, SweepEvent::IsLink(is_link)) => {
                if is_link {
                    (
                        GcrootSweep { phase: SweepPhase::Idle, cleaned: cleaned + 1, skip_direnv },
                        SweepAction::RemoveQuietly(path),
                    )
                } else {
                    (GcrootSweep { phase: SweepPhase::Idle, cleaned, skip_direnv }, SweepAction::NextEntry)
                }
            },
            _ => (
                GcrootSweep { phase: SweepPhase::Finished, cleaned, skip_direnv },
                SweepAction::Finish(None),
            ),
        }
    }

    /// One step of the sweep: the entry's path is tested against the direnv
    /// pattern and its file name against the `result` pattern.
    pub fn step(self, ev: SweepEvent) -> (r: (GcrootSweep, SweepAction))
        requires
            self.cleaned < u64::MAX,
        ensures
            match ev {
                SweepEvent::Entry { path, name, is_link } => sweep_step_spec(
                    self,
                    ev,
                    regex_match(direnv_pattern(), path@) == Some(true),
                    match name {
                        Some(n) => regex_match(result_pattern(), n@) == Some(true),
                        None => false,
                    },
                    r.0,
                    r.1,
                ),
                _ => sweep_step_spec(self, ev, false, false, r.0, r.1),
            },
    {
        let (direnv_hit, name_hit) = match &ev {
            SweepEvent::Entry { path, name, is_link: _ } => {
                let d = is_direnv_root(path.as_str());
                let n = match name {
                    Some(n) => is_result_link_name(n.as_str()),
                    None => false,
                };
                (d, n)
            },
            _ => (false, false),
        };
        self.step_with(ev, direnv_hit, name_hit)
    }
}

/// The sweep removes a link only when told its target is missing: an action
/// to remove a path answers the report that the target of that very link does
/// not exist, and a report that a target exists leads to no removal and
/// counts nothing.
pub proof fn lemma_sweep_removes_only_dangling(
    old: GcrootSweep,
    ev: SweepEvent,
    direnv_hit: bool,
    name_hit: bool,
    new: GcrootSweep,
    a: SweepAction,
)
    requires
        sweep_step_spec(old, ev, direnv_hit, name_hit, new, a),
    ensures
        a matches SweepAction::Remove(q) ==> (ev matches SweepEvent::TargetExists(e) && !e) && (
        old.phase matches SweepPhase::Target { path, .. } && path@ == q@),
        (ev matches SweepEvent::TargetExists(e) && e) ==> !(a is Remove) && !(a is RemoveQuietly)
            && new.cleaned == old.cleaned,
{
}

} // verus!
