use nx::args::{DeleteArgs, RebuildArgs, RollbackArgs};
use nx::clean::{
    clean_plan, generations_to_delete, is_direnv_root, keep_since_seconds, is_result_link_name, CleanArgs, CleanStep, GcrootSweep, Profile,
    SweepAction, SweepEvent, SweepPhase,
};
use nx::command::CommandSpec;
use nx::deletion::{Deletion, DeletionStage};
use nx::elevation::{root_invocation, Elevation};
use nx::flow::{Event, Op, Step, TimeFormat};
use nx::log::{done, error, info, log, warn, LogColor, LogLevel};
use nx::nix::{
    nix_build_command, nix_command, nix_eval_command, nix_flake_update_command, parse_profile_link, Generation,
};
use nx::rebuild::{toplevel_attr, Rebuild, RebuildStage};
use nx::rollback::{Rollback, RollbackStage};
use nx::nixos::parse_duration;
use nx::search::{
    local_search_command, local_search_report, plan_search, web_search_json, web_search_report, search_failure, search_report, searching_message,
    SearchArgs, SearchEntry, SearchPlan, SearchReport,
};

fn gen(id: u64, current: bool) -> Generation {
    Generation {
        id,
        date: "2024-01-01 10:00".to_string(),
        nixos_version: "24.05".to_string(),
        kernel: "6.6.1".to_string(),
        config_rev: String::new(),
        is_current: current,
    }
}

fn texts(s: &Step) -> Vec<(LogLevel, String)> {
    s.say.iter().map(|m| (m.level, m.text.clone())).collect()
}

fn run_of(s: &Step) -> (String, Vec<String>, Option<String>) {
    match &s.op {
        Op::Run(c) | Op::Capture(c) => (c.program.clone(), c.args.clone(), c.current_dir.clone()),
        _ => panic!("expected a command"),
    }
}

#[test]
fn log_levels_have_labels_and_colours() {
    assert_eq!(LogLevel::Info.label(), "INFO");
    assert_eq!(LogLevel::Done.label(), "DONE");
    assert_eq!(LogLevel::Warn.label(), "WARN");
    assert_eq!(LogLevel::Error.label(), "ERROR");
    assert_eq!(LogLevel::Info.color(), LogColor::Cyan);
    assert_eq!(LogLevel::Done.color(), LogColor::Green);
    assert_eq!(LogLevel::Warn.color(), LogColor::Yellow);
    assert_eq!(LogLevel::Error.color(), LogColor::Red);
    assert_eq!(info("a").level, LogLevel::Info);
    assert_eq!(done("b").level, LogLevel::Done);
    assert_eq!(warn("c").level, LogLevel::Warn);
    assert_eq!(error("d").text, "d");
    assert_eq!(log(LogLevel::Warn, "e").level, LogLevel::Warn);
}

#[test]
fn elevation_priority() {
    assert_eq!(Elevation::from_probe(true, true, true, true, true), Elevation::Direct);
    assert_eq!(Elevation::from_probe(false, true, true, true, true), Elevation::Doas);
    assert_eq!(Elevation::from_probe(false, false, true, true, true), Elevation::Run0);
    assert_eq!(Elevation::from_probe(false, false, false, true, true), Elevation::Sudo);
    assert_eq!(Elevation::from_probe(false, false, false, false, true), Elevation::Pkexec);
    assert_eq!(Elevation::from_probe(false, false, false, false, false), Elevation::Direct);
    assert!(Elevation::Sudo.is_available());
    assert!(!Elevation::Direct.is_available());
}

#[test]
fn root_invocations() {
    let c = root_invocation(Elevation::Doas, "nix-store", &["--optimise"]);
    assert_eq!(c.program, "doas");
    assert_eq!(c.args, vec!["nix-store", "--optimise"]);
    let d = root_invocation(Elevation::Direct, "nix-store", &["--optimise"]);
    assert_eq!(d.program, "nix-store");
    assert_eq!(d.args, vec!["--optimise"]);
    let s = root_invocation(Elevation::Sudo, "x", &[]);
    assert_eq!((s.program.as_str(), s.args.len()), ("sudo", 1));
}

#[test]
fn sudo_elevation_wraps_the_command() {
    let mut c = CommandSpec::new("nix");
    c.arg("build");
    c.arg("x");
    Elevation::Sudo.elevate(&mut c);
    assert_eq!(c.program, "sudo");
    assert_eq!(c.args, vec!["nix", "build", "x"]);
    let mut d = CommandSpec::new("nix");
    d.arg("build");
    Elevation::Doas.elevate(&mut d);
    assert_eq!(d.args, vec!["build"]);
}

#[test]
fn nix_commands() {
    let c = nix_command("nix-env");
    assert_eq!(c.env, vec![("NIXPKGS_ALLOW_UNFREE".to_string(), "1".to_string())]);
    assert_eq!(nix_build_command(".#x", Some("out")).args, vec!["build", "--out-link", "out", ".#x"]);
    assert_eq!(nix_build_command(".#x", None).args, vec!["build", ".#x"]);
    assert_eq!(nix_eval_command(".#y").args, vec!["eval", "--raw", ".#y"]);
    let u = nix_flake_update_command("/f");
    assert_eq!(u.args, vec!["flake", "update"]);
    assert_eq!(u.current_dir, Some("/f".to_string()));
}

fn clean_args() -> CleanArgs {
    CleanArgs {
        keep: 3,
        keep_since: None,
        no_gcroots: false,
        no_direnv: false,
        no_optimise: false,
        dry: false,
        user_only: false,
    }
}

fn profile(path: &str, generations: Vec<Generation>) -> Profile {
    Profile { path: path.to_string(), generations }
}

fn clean_generations() -> Vec<Generation> {
    vec![
        dated(1, "2024-01-01 10:00"),
        dated(2, "2024-02-01 10:00"),
        dated(3, "2024-03-01 10:00"),
        Generation { is_current: true, ..dated(4, "2024-04-01 10:00") },
        dated(5, "2024-05-01 10:00"),
        dated(6, "2024-06-01 10:00"),
    ]
}

#[test]
fn clean_plan_system_wide() {
    let steps = clean_plan(&clean_args(), &[profile("/nix/var/nix/profiles/system", clean_generations())], None);
    assert_eq!(steps.len(), 7);
    match &steps[1] {
        CleanStep::AsRoot { program, args } => {
            assert_eq!(program, "nix-env");
            assert_eq!(args, &vec!["--profile", "/nix/var/nix/profiles/system", "--delete-generations", "1", "2", "3"]);
        }
        _ => panic!("expected the deletion"),
    }
    match &steps[2] {
        CleanStep::AsRoot { program, args } => {
            assert_eq!(program, "nix-collect-garbage");
            assert!(args.is_empty());
        }
        _ => panic!("expected the collector"),
    }
    assert!(matches!(steps[3], CleanStep::SweepGcroots { skip_direnv: false }));
    match &steps[6] {
        CleanStep::Say(m) => assert_eq!(m.text, "Clean complete"),
        _ => panic!("expected the last message"),
    }
    let spared = clean_plan(&clean_args(), &[profile("/p", clean_generations())], Some("2024-01-15 00:00"));
    match &spared[1] {
        CleanStep::AsRoot { args, .. } => assert_eq!(args, &vec!["--profile", "/p", "--delete-generations", "1"]),
        _ => panic!("expected the deletion"),
    }
    assert_eq!(generations_to_delete(&clean_generations(), 10, None), Vec::<u64>::new());
    let nothing = clean_plan(&clean_args(), &[profile("/p", vec![])], None);
    assert!(matches!(nothing[1], CleanStep::AsRoot { ref program, .. } if program == "nix-collect-garbage"));
}

#[test]
fn clean_plan_dry_and_user() {
    let mut a = clean_args();
    a.dry = true;
    a.keep = u64::MAX;
    let steps = clean_plan(&a, &[], None);
    assert_eq!(steps.len(), 2);
    match &steps[1] {
        CleanStep::Say(m) => assert_eq!(m.text, "Dry run \u{2014} no changes made"),
        _ => panic!("expected a message"),
    }
    let mut b = clean_args();
    b.user_only = true;
    b.no_gcroots = true;
    b.no_optimise = true;
    b.keep = 2;
    let steps = clean_plan(&b, &[profile("/home/u/.local/state/nix/profiles/profile", clean_generations())], None);
    assert_eq!(steps.len(), 4);
    match &steps[1] {
        CleanStep::AsUser(c) => {
            assert_eq!(c.program, "nix-env");
            assert_eq!(c.args, vec!["--profile", "/home/u/.local/state/nix/profiles/profile", "--delete-generations", "1", "2", "3"]);
        }
        _ => panic!("expected a user command"),
    }
    let mut k = clean_args();
    k.keep_since = Some("4d".to_string());
    let (secs, warning) = keep_since_seconds(&k);
    assert_eq!(secs, Some(345600));
    assert!(warning.is_none());
    k.keep_since = Some("soon".to_string());
    let (secs, warning) = keep_since_seconds(&k);
    assert_eq!(secs, None);
    assert_eq!(warning.map(|m| m.text), Some("Ignoring --keep-since soon: not a duration".to_string()));
    let (secs, warning) = keep_since_seconds(&clean_args());
    assert!(secs.is_none() && warning.is_none());
}

#[test]
fn clean_plan_covers_every_profile() {
    let two = vec![dated(1, "2024-01-01 10:00"), dated(2, "2024-02-01 10:00"), Generation { is_current: true, ..dated(3, "2024-03-01 10:00") }];
    let mut a = clean_args();
    a.keep = 2;
    let steps = clean_plan(&a, &[profile("/p/system", clean_generations()), profile("/p/small", vec![dated(1, "2024-01-01 10:00")]), profile("/p/default", two)], None);
    match (&steps[1], &steps[2]) {
        (CleanStep::AsRoot { args: x, .. }, CleanStep::AsRoot { args: y, .. }) => {
            assert_eq!(x, &vec!["--profile", "/p/system", "--delete-generations", "1", "2", "3"]);
            assert_eq!(y, &vec!["--profile", "/p/default", "--delete-generations", "1"]);
        }
        _ => panic!("expected two deletions"),
    }
    assert!(matches!(steps[3], CleanStep::AsRoot { ref program, .. } if program == "nix-collect-garbage"));
}

#[test]
fn profile_link_names() {
    assert_eq!(parse_profile_link("profile-12-link", "profile"), Some(12));
    assert_eq!(parse_profile_link("system-12-link", "profile"), None);
    assert_eq!(parse_profile_link("profile-link", "profile"), None);
}

#[test]
fn gcroot_patterns() {
    assert!(is_direnv_root("/nix/var/nix/gcroots/auto/x/.direnv/flake"));
    assert!(is_direnv_root("/home/u/.cache/direnv/layouts/abc"));
    assert!(!is_direnv_root("/nix/var/nix/gcroots/auto/result"));
    assert!(is_result_link_name("result"));
    assert!(is_result_link_name("result-dev"));
    assert!(!is_result_link_name("result-"));
    assert!(!is_result_link_name("myresult"));
    assert!(!is_result_link_name("result-a-b"));
}

#[test]
fn gcroot_sweep_removes_dangling_and_result_links() {
    let s = GcrootSweep::new(true);
    let (s, a) = s.step(SweepEvent::Entry {
        path: "/g/auto/result".to_string(),
        name: Some("result".to_string()),
        is_link: true,
    });
    assert!(matches!(a, SweepAction::CheckTarget(ref p) if p == "/g/auto/result"));
    let (s, a) = s.step(SweepEvent::TargetExists(false));
    assert!(matches!(a, SweepAction::Remove(_)));
    let (s, a) = s.step(SweepEvent::Removed(Ok(())));
    assert!(matches!(a, SweepAction::CheckLink(_)));
    assert_eq!(s.cleaned, 1);
    let (s, a) = s.step(SweepEvent::IsLink(false));
    assert!(matches!(a, SweepAction::NextEntry));
    let (s, a) = s.step(SweepEvent::Entry { path: "/g/x".to_string(), name: Some("x".to_string()), is_link: true });
    assert!(matches!(a, SweepAction::CheckTarget(_)));
    let (s, a) = s.step(SweepEvent::TargetExists(false));
    assert!(matches!(a, SweepAction::Remove(_)));
    let (s, a) = s.step(SweepEvent::Removed(Err("denied".to_string())));
    match a {
        SweepAction::Warn(m) => assert_eq!(m.text, "Failed to remove /g/x: denied"),
        _ => panic!("expected a warning"),
    }
    let (s, a) = s.step(SweepEvent::Shown);
    assert!(matches!(a, SweepAction::NextEntry));
    let (s, a) = s.step(SweepEvent::NoMoreEntries);
    assert!(matches!(s.phase, SweepPhase::Finished));
    match a {
        SweepAction::Finish(Some(m)) => assert_eq!(m.text, "Removed 1 orphaned gcroots"),
        _ => panic!("expected a summary"),
    }
}

#[test]
fn gcroot_sweep_passes_over_direnv_unless_skipped() {
    let entry = || SweepEvent::Entry {
        path: "/g/.direnv/x".to_string(),
        name: Some("x".to_string()),
        is_link: true,
    };
    let (_, a) = GcrootSweep::new(true).step(entry());
    assert!(matches!(a, SweepAction::NextEntry));
    let (_, a) = GcrootSweep::new(false).step(entry());
    assert!(matches!(a, SweepAction::CheckTarget(_)));
    let (_, a) = GcrootSweep::new(false).step(SweepEvent::NoMoreEntries);
    assert!(matches!(a, SweepAction::Finish(None)));
}

#[test]
fn search_plans_and_reports() {
    let p = plan_search(SearchArgs { query: None, web: false, json: false, description: false });
    match p {
        SearchPlan::Refused(m) => assert_eq!(m.text, "Please provide a search query: nx search <query>"),
        _ => panic!("expected a refusal"),
    }
    let p = plan_search(SearchArgs { query: Some("git".to_string()), web: true, json: true, description: false });
    assert!(matches!(p, SearchPlan::Web { ref query, json: true, description: false } if query == "git"));
    let p = plan_search(SearchArgs { query: Some("git".to_string()), web: false, json: false, description: true });
    assert!(matches!(p, SearchPlan::Local { json: false, description: true, .. }));
    assert_eq!(searching_message("git", false).text, "Searching nixpkgs for 'git'...");
    assert_eq!(searching_message("git", true).text, "Searching search.nixos.org for 'git'...");
    assert_eq!(local_search_command("git").args, vec!["search", "nixpkgs", "git", "--json"]);
    assert_eq!(search_failure(" bad \n").text, "Search failed: bad");
    let entries = vec![
        SearchEntry { name: Some("a".to_string()), version: Some("1.0".to_string()), description: None },
        SearchEntry { name: None, version: None, description: Some("tool".to_string()) },
    ];
    match search_report(&entries, true) {
        SearchReport::Results { lines, count } => {
            assert_eq!(count, "2");
            assert_eq!(lines[0].version, "1.0");
            assert_eq!(lines[0].description, Some(String::new()));
            assert_eq!(lines[1].version, "?");
            assert_eq!(lines[1].name, "?");
            assert_eq!(lines[0].name, "a");
            assert_eq!(lines[1].description, Some("tool".to_string()));
        }
        _ => panic!("expected results"),
    }
    match search_report(&entries, false) {
        SearchReport::Results { lines, .. } => assert_eq!(lines[1].description, None),
        _ => panic!("expected results"),
    }
    assert!(matches!(search_report(&[], false), SearchReport::Nothing(_)));
}

#[test]
fn local_search_answers_are_decoded() {
    let answer = br#"{"zed":{"pname":"zed","version":"0.1","description":"editor"},"abc":{"version":3}}"#;
    match local_search_report(answer, true) {
        Ok(SearchReport::Results { lines, count }) => {
            assert_eq!(count, "2");
            assert_eq!(lines[0].name, "abc");
            assert_eq!(lines[0].version, "?");
            assert_eq!(lines[0].description, Some(String::new()));
            assert_eq!(lines[1].name, "zed");
            assert_eq!(lines[1].version, "0.1");
            assert_eq!(lines[1].description, Some("editor".to_string()));
        }
        _ => panic!("expected results"),
    }
    match local_search_report(b"{}", false) {
        Ok(SearchReport::Nothing(m)) => assert_eq!(m.text, "No results found"),
        _ => panic!("expected no results"),
    }
    assert!(matches!(local_search_report(b"[1, 2]", false), Ok(SearchReport::Nothing(_))));
    match local_search_report(b"not json", false) {
        Err(e) => assert!(e.contains("line 1")),
        Ok(_) => panic!("expected a decoding error"),
    }
}

#[test]
fn web_search_answers_are_decoded() {
    let answer = br#"{"hits":{"hits":[{"_source":{"package_pname":"git","package_version":"2.4","package_description":"vcs"}},{"_source":{"package_version":7}}]}}"#;
    match web_search_report(answer, true) {
        Ok(SearchReport::Results { lines, count }) => {
            assert_eq!(count, "2");
            assert_eq!(lines[0].name, "git");
            assert_eq!(lines[0].version, "2.4");
            assert_eq!(lines[0].description, Some("vcs".to_string()));
            assert_eq!(lines[1].name, "?");
            assert_eq!(lines[1].version, "?");
        }
        _ => panic!("expected results"),
    }
    assert!(matches!(web_search_report(br#"{"hits":{}}"#, false), Ok(SearchReport::Nothing(_))));
    assert!(matches!(web_search_report(br#"{"hits":{"hits":[]}}"#, false), Ok(SearchReport::Nothing(_))));
    assert!(web_search_report(b"<html>", false).is_err());
}

#[test]
fn web_search_json_prints_the_hits() {
    let answer = br#"{"hits":{"hits":[{"a":1}]}}"#;
    assert_eq!(web_search_json(answer), Ok(Some("[\n  {\n    \"a\": 1\n  }\n]".to_string())));
    assert_eq!(web_search_json(br#"{"hits":3}"#), Ok(None));
    assert!(web_search_json(b"nope").is_err());
}

#[test]
fn durations_are_read() {
    assert_eq!(parse_duration("4d"), Some(345600));
    assert_eq!(parse_duration("1w"), Some(604800));
    assert_eq!(parse_duration("90m"), Some(5400));
    assert_eq!(parse_duration("d"), None);
    assert_eq!(parse_duration("4"), None);
    assert_eq!(parse_duration(""), None);
    assert_eq!(parse_duration("99999999999999999w"), None);
}

#[test]
fn rebuild_dry_run() {
    let args = RebuildArgs { update: false, update_input: None, no_commit: false, dry: true, flake: Some("/f".to_string()) };
    let (r, s) = Rebuild::new(args, None);
    assert!(matches!(s.op, Op::Exists(ref p) if p == "/f/flake.nix"));
    let (r, s) = r.step(Event::Flag(true));
    assert!(matches!(s.op, Op::Hostname));
    let (r, s) = r.step(Event::Text("host".to_string()));
    assert!(matches!(s.op, Op::Clock(TimeFormat::Revision)));
    let (r, s) = r.step(Event::Text("2024.01.01.10.00.AM".to_string()));
    assert!(matches!(s.op, Op::Exists(ref p) if p == "/f/modules/core/nix.nix"));
    let (r, s) = r.step(Event::Flag(false));
    assert_eq!(r.stage, RebuildStage::Finished);
    assert_eq!(
        texts(&s),
        vec![
            (LogLevel::Info, "Building system...".to_string()),
            (LogLevel::Info, "Would build: nixosConfigurations.host.config.system.build.toplevel".to_string()),
        ]
    );
    assert!(matches!(s.op, Op::Finish(Ok(()))));
}

#[test]
fn rebuild_reads_a_tilde_flake_from_home() {
    let args = RebuildArgs { update: false, update_input: None, no_commit: true, dry: true, flake: Some("~/.dotfiles".to_string()) };
    let (r, s) = Rebuild::new(args, Some("/home/u"));
    assert!(matches!(s.op, Op::Exists(ref p) if p == "/home/u/.dotfiles/flake.nix"));
    assert_eq!(r.flake_dir, "/home/u/.dotfiles");
    let args = RebuildArgs { update: false, update_input: None, no_commit: true, dry: true, flake: Some("/f".to_string()) };
    let (r, _) = Rebuild::new(args, Some("/home/u"));
    let (r, _) = r.step(Event::Flag(true));
    let (r, _) = r.step(Event::Text("h".to_string()));
    let (r, _) = r.step(Event::Text("D".to_string()));
    let (r, s) = r.step(Event::Flag(true));
    assert!(matches!(s.op, Op::ReadFile(_)));
    let (_, s) = r.step(Event::Text("no revision here".to_string()));
    assert!(matches!(s.op, Op::Finish(Ok(()))));
}

#[test]
fn rebuild_full_run() {
    let args = RebuildArgs {
        update: true,
        update_input: Some(vec!["nixpkgs".to_string(), "home".to_string()]),
        no_commit: false,
        dry: false,
        flake: None,
    };
    let (r, s) = Rebuild::new(args, None);
    assert!(matches!(s.op, Op::ResolveFlakeDir));
    let (r, s) = r.step(Event::Resolved(None));
    assert!(matches!(s.op, Op::Exists(ref p) if p == "./flake.nix"));
    let (r, _) = r.step(Event::Flag(true));
    let (r, s) = r.step(Event::Text("h".to_string()));
    assert_eq!(texts(&s), vec![(LogLevel::Info, "Updating flake inputs...".to_string())]);
    assert_eq!(
        run_of(&s),
        ("nix".to_string(), vec!["flake".into(), "lock".into(), "--update-input".into(), "nixpkgs".into()], Some(".".to_string()))
    );
    let (r, s) = r.step(Event::Status(false));
    assert_eq!(texts(&s), vec![(LogLevel::Warn, "Failed to update input: nixpkgs".to_string())]);
    let (r, s) = r.step(Event::Status(true));
    assert_eq!(texts(&s), vec![(LogLevel::Done, "Flake inputs updated".to_string())]);
    let (r, _) = r.step(Event::Text("D".to_string()));
    let (r, s) = r.step(Event::Flag(true));
    assert!(matches!(s.op, Op::ReadFile(_)));
    let (r, s) = r.step(Event::Text("a b\nsystem.configurationRevision = \"old\";\n".to_string()));
    match &s.op {
        Op::WriteFile { content, .. } => assert_eq!(content, "a b\nsystem.configurationRevision = \"D\";\n"),
        _ => panic!("expected a write"),
    }
    let (r, s) = r.step(Event::Done);
    assert_eq!(texts(&s)[0], (LogLevel::Info, "Updated configuration revision to D".to_string()));
    assert!(matches!(s.op, Op::StartSpinner(_)));
    let (r, s) = r.step(Event::Done);
    assert_eq!(run_of(&s).1[3], toplevel_attr("h"));
    let (r, s) = r.step(Event::Output { success: true, stdout: "/nix/store/abc\n".to_string(), stderr: String::new() });
    assert!(matches!(s.op, Op::StopSpinner(ref m) if m == "Built: /nix/store/abc"));
    let (r, s) = r.step(Event::Done);
    assert!(matches!(s.op, Op::Exists(ref p) if p == "/nix/store/abc/bin/switch-to-configuration"));
    let (r, s) = r.step(Event::Flag(true));
    assert_eq!(run_of(&s).0, "/nix/store/abc/bin/switch-to-configuration");
    let (r, s) = r.step(Event::Status(true));
    assert_eq!(run_of(&s).1, vec!["build", "--profile", "/nix/var/nix/profiles/system", "nixosConfigurations.h.config.system.build.toplevel"]);
    let (r, s) = r.step(Event::Status(true));
    assert_eq!(texts(&s)[0], (LogLevel::Done, "Rebuild complete \u{2014} revision D".to_string()));
    assert_eq!(run_of(&s).1, vec!["add", "-A"]);
    let (r, s) = r.step(Event::Status(true));
    assert_eq!(run_of(&s).1, vec!["diff", "--cached", "--quiet"]);
    let (r, s) = r.step(Event::Status(false));
    assert!(matches!(s.op, Op::Clock(TimeFormat::Commit)));
    let (r, s) = r.step(Event::Text("2024-01-01 10:00:00".to_string()));
    assert_eq!(run_of(&s).1, vec!["commit", "-m", "2024-01-01 10:00:00"]);
    let (r, s) = r.step(Event::Status(true));
    assert_eq!(r.stage, RebuildStage::Finished);
    assert_eq!(texts(&s), vec![(LogLevel::Done, "Committed: 2024-01-01 10:00:00".to_string())]);
}

#[test]
fn rebuild_failures() {
    let args = RebuildArgs { update: false, update_input: None, no_commit: true, dry: false, flake: Some("/f".to_string()) };
    let (r, _) = Rebuild::new(args, None);
    let (_, s) = r.step(Event::Flag(false));
    assert!(matches!(s.op, Op::Finish(Err(ref e)) if e == "No flake.nix found in /f"));
    let args = RebuildArgs { update: true, update_input: None, no_commit: true, dry: false, flake: Some("/f".to_string()) };
    let (r, _) = Rebuild::new(args, None);
    let (r, _) = r.step(Event::Flag(true));
    let (r, s) = r.step(Event::Text("h".to_string()));
    assert_eq!(run_of(&s).1, vec!["flake", "update"]);
    let (_, s) = r.step(Event::Status(false));
    assert!(matches!(s.op, Op::Finish(Err(ref e)) if e == "nix flake update failed"));
    let (_, s) = Rebuild::new(RebuildArgs { update: false, update_input: None, no_commit: true, dry: false, flake: None }, None)
        .0
        .step(Event::Done);
    assert!(matches!(s.op, Op::Finish(Err(ref e)) if e == "unexpected event"));
}

#[test]
fn rebuild_build_failure_shows_output() {
    let args = RebuildArgs { update: false, update_input: None, no_commit: true, dry: false, flake: Some("/f".to_string()) };
    let (r, _) = Rebuild::new(args, None);
    let (r, _) = r.step(Event::Flag(true));
    let (r, _) = r.step(Event::Text("h".to_string()));
    let (r, _) = r.step(Event::Text("D".to_string()));
    let (r, _) = r.step(Event::Flag(false));
    let (r, _) = r.step(Event::Done);
    let (r, s) = r.step(Event::Output { success: false, stdout: String::new(), stderr: "error: x".to_string() });
    assert!(matches!(s.op, Op::StopSpinner(ref m) if m == "Build failed"));
    let (r, s) = r.step(Event::Done);
    assert!(matches!(s.op, Op::Print(ref t) if t.is_empty()));
    let (r, s) = r.step(Event::Done);
    assert_eq!(texts(&s), vec![(LogLevel::Error, "Build output:".to_string())]);
    assert!(matches!(s.op, Op::Print(ref t) if t == "error: x"));
    let (_, s) = r.step(Event::Done);
    assert!(matches!(s.op, Op::Finish(Err(ref e)) if e == "nix build failed"));
}

#[test]
fn rollback_run() {
    let (r, s) = Rollback::new(RollbackArgs { to: None });
    assert!(matches!(s.op, Op::ListGenerations));
    let (r, s) = r.step(Event::Generations(vec![gen(1, false), gen(2, true)]));
    assert_eq!(texts(&s), vec![(LogLevel::Info, "Rolling back to generation 1...".to_string())]);
    assert!(matches!(s.op, Op::Exists(ref p) if p == "/nix/var/nix/profiles/system-1-link"));
    let (r, s) = r.step(Event::Flag(true));
    assert_eq!(run_of(&s).1, vec!["profile", "install", "--profile", "/nix/var/nix/profiles/system", "/nix/var/nix/profiles/system-1-link"]);
    let (r, s) = r.step(Event::Status(true));
    assert!(matches!(s.op, Op::Exists(ref p) if p == "/nix/var/nix/profiles/system-1-link/bin/switch-to-configuration"));
    let (r, s) = r.step(Event::Flag(false));
    assert_eq!(r.stage, RollbackStage::Finished);
    assert_eq!(texts(&s), vec![(LogLevel::Done, "Rolled back to generation 1".to_string())]);
    let (r, _) = Rollback::new(RollbackArgs { to: Some(5) });
    let (_, s) = r.step(Event::Generations(vec![gen(1, false)]));
    assert!(matches!(s.op, Op::Finish(Err(ref e)) if e == "Generation 5 not found"));
    let (r, _) = Rollback::new(RollbackArgs { to: Some(1) });
    let (r, _) = r.step(Event::Generations(vec![gen(1, false)]));
    let (_, s) = r.step(Event::Flag(false));
    assert!(matches!(s.op, Op::Finish(Err(ref e)) if e == "Generation 1 profile not found"));
}

fn delete_args(ids: Option<Vec<u64>>, dry: bool) -> DeleteArgs {
    DeleteArgs { ids, dry, no_gc: false, keep_since: None, keep: None }
}

#[test]
fn deletion_with_numbers() {
    let (d, _) = Deletion::new(delete_args(Some(vec![1, 2]), false));
    let (d, s) = d.step(Event::Generations(vec![gen(1, false), gen(2, false), gen(3, true)]));
    assert!(matches!(s.op, Op::Print(ref t) if t.is_empty()));
    let (d, s) = d.step(Event::Done);
    assert_eq!(texts(&s), vec![(LogLevel::Warn, "Will delete 2 generation(s): [1, 2]".to_string())]);
    assert!(matches!(s.op, Op::Ask(ref p) if p == "  Continue? [y/N] "));
    let (d, s) = d.step(Event::Answer(Ok("y\n".to_string())));
    assert!(matches!(s.op, Op::Exists(ref p) if p == "/nix/var/nix/profiles/system-1-link"));
    let (d, s) = d.step(Event::Flag(true));
    assert!(matches!(s.op, Op::RemoveFile(_)));
    let (d, s) = d.step(Event::Done);
    assert_eq!(texts(&s), vec![(LogLevel::Done, "Deleted generation 1".to_string())]);
    let (d, s) = d.step(Event::Flag(false));
    assert_eq!(texts(&s), vec![(LogLevel::Info, "Running garbage collection...".to_string())]);
    assert_eq!(run_of(&s).0, "nix-collect-garbage");
    let (d, s) = d.step(Event::Status(true));
    assert_eq!(texts(&s), vec![(LogLevel::Done, "Garbage collection complete".to_string())]);
    let (d, s) = d.step(Event::Flag(true));
    assert_eq!(run_of(&s).1, vec!["boot"]);
    let (d, s) = d.step(Event::Status(true));
    assert_eq!(d.stage, DeletionStage::Finished);
    assert_eq!(texts(&s), vec![(LogLevel::Done, "Deletion complete".to_string())]);
}

fn dated(id: u64, date: &str) -> Generation {
    Generation { date: date.to_string(), ..gen(id, false) }
}

#[test]
fn deletion_spares_what_keep_and_keep_since_keep() {
    let gens = || {
        vec![
            dated(1, "2024-01-01 10:00"),
            dated(2, "2024-02-01 10:00"),
            dated(3, "2024-03-01 10:00"),
            dated(4, "2024-04-01 10:00"),
            Generation { is_current: true, ..dated(5, "2024-05-01 10:00") },
        ]
    };
    let args = DeleteArgs { ids: Some(vec![1, 2, 3, 4]), dry: true, no_gc: false, keep_since: None, keep: Some(3) };
    let (d, _) = Deletion::new(args);
    let (d, _) = d.step(Event::Generations(gens()));
    let (_, s) = d.step(Event::Done);
    assert_eq!(texts(&s)[0], (LogLevel::Warn, "Will delete 2 generation(s): [1, 2]".to_string()));
    let args = DeleteArgs { ids: Some(vec![1, 2, 3]), dry: true, no_gc: false, keep_since: Some("2w".to_string()), keep: None };
    let (d, _) = Deletion::new(args);
    let (d, s) = d.step(Event::Generations(gens()));
    assert!(matches!(s.op, Op::ClockBefore(1209600)));
    let (d, s) = d.step(Event::Text("2024-02-01 10:00".to_string()));
    assert!(matches!(s.op, Op::Print(_)));
    let (_, s) = d.step(Event::Done);
    assert_eq!(texts(&s)[0], (LogLevel::Warn, "Will delete 2 generation(s): [1, 2]".to_string()));
    let args = DeleteArgs { ids: Some(vec![1]), dry: true, no_gc: false, keep_since: Some("2x".to_string()), keep: None };
    let (d, _) = Deletion::new(args);
    let (d, s) = d.step(Event::Generations(gens()));
    assert_eq!(texts(&s), vec![(LogLevel::Warn, "Ignoring --keep-since 2x: not a duration".to_string())]);
    assert!(matches!(s.op, Op::Print(_)));
    let (_, s) = d.step(Event::Done);
    assert_eq!(texts(&s)[0], (LogLevel::Warn, "Will delete 1 generation(s): [1]".to_string()));
}

#[test]
fn deletion_refusals_and_cancels() {
    let gens = || vec![gen(1, false), gen(3, true)];
    let (d, _) = Deletion::new(delete_args(Some(vec![3]), false));
    let (_, s) = d.step(Event::Generations(gens()));
    assert!(matches!(s.op, Op::Finish(Err(ref e)) if e == "Cannot delete current generation 3"));
    let (d, _) = Deletion::new(delete_args(Some(vec![1]), true));
    let (d, _) = d.step(Event::Generations(gens()));
    let (_, s) = d.step(Event::Done);
    assert_eq!(texts(&s)[1], (LogLevel::Info, "Dry run \u{2014} no changes made".to_string()));
    let (d, _) = Deletion::new(delete_args(None, false));
    let (d, s) = d.step(Event::Generations(gens()));
    match &s.op {
        Op::ShowSelection { intro, lines, outro } => {
            assert_eq!(intro[1], "  Available generations (current marked with *):");
            assert_eq!(lines.len(), 2);
            assert_eq!(outro[1], "  Enter generation IDs to delete (space-separated), or 'q' to quit:");
        }
        _ => panic!("expected the selection"),
    }
    let (d, _) = d.step(Event::Done);
    let (_, s) = d.step(Event::Answer(Ok("3".to_string())));
    assert_eq!(
        texts(&s),
        vec![
            (LogLevel::Error, "Cannot delete current generation 3".to_string()),
            (LogLevel::Info, "Cancelled".to_string()),
        ]
    );
    let (d, _) = Deletion::new(delete_args(None, false));
    let (_, s) = d.step(Event::Generations(vec![]));
    assert_eq!(texts(&s), vec![(LogLevel::Warn, "No generations found".to_string())]);
    let (d, _) = Deletion::new(delete_args(Some(vec![1]), false));
    let (d, _) = d.step(Event::Generations(gens()));
    let (d, _) = d.step(Event::Done);
    let (_, s) = d.step(Event::Answer(Ok("n".to_string())));
    assert_eq!(texts(&s), vec![(LogLevel::Info, "Cancelled".to_string())]);
}
