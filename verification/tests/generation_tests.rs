use nx::generations::{
    generation_row, generation_table, parse_selection, selection_list, Listing, Selection,
};
use nx::log::LogLevel;
use nx::nix::{
    flake_dir_candidates, generation_link_name, is_current_entry, parse_generation_link,
    pick_flake_dir, sort_generations, system_profiles_dir, Generation,
};
use nx::nixos::{
    apply_revision, confirms, deletion_notice, extract_revision, generation_profile_link,
    rollback_target, validate_delete_ids, DeleteError, RollbackError,
};

fn gen(id: u64, current: bool) -> Generation {
    Generation {
        id,
        date: format!("2024-01-{:02} 10:00", id % 28 + 1),
        nixos_version: "24.05".to_string(),
        kernel: "6.6.1".to_string(),
        config_rev: String::new(),
        is_current: current,
    }
}

#[test]
fn profiles_dir_is_fixed() {
    assert_eq!(system_profiles_dir(), "/nix/var/nix/profiles");
}

#[test]
fn link_names_round_trip() {
    assert_eq!(generation_link_name(42), "system-42-link");
    for id in [0u64, 1, 80, 12345, u64::MAX] {
        assert_eq!(parse_generation_link(&generation_link_name(id)), Some(id));
    }
    assert_eq!(parse_generation_link("system-link"), None);
    assert_eq!(parse_generation_link("system--link"), None);
    assert_eq!(parse_generation_link("system-x-link"), None);
    assert_eq!(parse_generation_link("system-+5-link"), Some(5));
    assert_eq!(parse_generation_link("system-5"), None);
    assert_eq!(parse_generation_link("user-5-link"), None);
    assert_eq!(parse_generation_link("system"), None);
}

#[test]
fn sorting_is_stable_by_number() {
    let mut a = gen(5, false);
    a.kernel = "first".to_string();
    let mut b = gen(5, false);
    b.kernel = "second".to_string();
    let sorted = sort_generations(vec![gen(9, true), a, gen(1, false), b, gen(3, false)]);
    let ids: Vec<u64> = sorted.iter().map(|g| g.id).collect();
    assert_eq!(ids, vec![1, 3, 5, 5, 9]);
    assert_eq!(sorted[2].kernel, "first");
    assert_eq!(sorted[3].kernel, "second");
    assert!(sort_generations(vec![]).is_empty());
}

#[test]
fn current_entry_resolves_relative_links() {
    let dir = "/nix/var/nix/profiles";
    let entry = "/nix/var/nix/profiles/system-7-link";
    assert!(is_current_entry(dir, Some("system-7-link"), entry));
    assert!(is_current_entry(dir, Some("/nix/var/nix/profiles/system-7-link"), entry));
    assert!(!is_current_entry(dir, Some("system-8-link"), entry));
    assert!(!is_current_entry(dir, None, entry));
}

#[test]
fn flake_candidates_in_order() {
    assert_eq!(
        flake_dir_candidates(Some("/my/flake"), Some("/home/u")),
        vec!["/my/flake", "/home/u/.dotfiles", "/etc/nixos"]
    );
    assert_eq!(
        flake_dir_candidates(Some("~/.dotfiles"), Some("/home/u")),
        vec!["/home/u/.dotfiles", "/home/u/.dotfiles", "/etc/nixos"]
    );
    assert_eq!(flake_dir_candidates(Some("~x"), Some("/home/u"))[0], "~x");
    assert_eq!(flake_dir_candidates(Some("~/f"), None)[0], "~/f");
    assert_eq!(flake_dir_candidates(None, None), vec!["", "/etc/nixos"]);
    let c = vec!["a".to_string(), "b".to_string(), "c".to_string()];
    assert_eq!(pick_flake_dir(&c, &[false, true, true]), Ok("b".to_string()));
    assert_eq!(
        pick_flake_dir(&c, &[false, false, false]),
        Err("Could not find flake.nix. Set NX_FLAKE or place flake.nix in ~/.dotfiles or /etc/nixos".to_string())
    );
}

#[test]
fn table_rows_are_padded() {
    let mut g = gen(80, true);
    g.date = "2024-05-01 12:00".to_string();
    g.nixos_version = "24.05".to_string();
    g.kernel = "6.6.30".to_string();
    assert_eq!(
        generation_row(&g),
        format!("  {:<6} {:<18} {:<12} {:<16} {}{}", 80, "2024-05-01 12:00", "24.05", "6.6.30", "-", " *")
    );
    g.config_rev = "abc".to_string();
    g.is_current = false;
    assert_eq!(
        generation_row(&g),
        format!("  {:<6} {:<18} {:<12} {:<16} {}{}", 80, "2024-05-01 12:00", "24.05", "6.6.30", "abc", "")
    );
    let mut long = gen(1234567, false);
    long.kernel = "a-very-long-kernel-name".to_string();
    assert_eq!(
        generation_row(&long),
        format!("  {:<6} {:<18} {:<12} {:<16} {}{}", 1234567, long.date, "24.05", long.kernel, "-", "")
    );
}

#[test]
fn table_has_heading_and_rows() {
    match generation_table(&[gen(1, false), gen(2, true)]) {
        Listing::Lines(lines) => {
            assert_eq!(lines.len(), 4);
            assert_eq!(
                lines[0],
                format!("  {:<6} {:<18} {:<12} {:<16} {}", "ID", "Date", "NixOS", "Kernel", "Config")
            );
            assert_eq!(
                lines[1],
                format!("  {:<6} {:<18} {:<12} {:<16} {}", "---", "----", "-----", "------", "------")
            );
            assert!(lines[3].ends_with(" *"));
        }
        Listing::Nothing(_) => panic!("expected lines"),
    }
    match generation_table(&[]) {
        Listing::Nothing(m) => {
            assert_eq!(m.level, LogLevel::Warn);
            assert_eq!(m.text, "No generations found");
        }
        Listing::Lines(_) => panic!("expected a warning"),
    }
}

#[test]
fn selection_list_marks_current() {
    let lines = selection_list(&[gen(7, false), gen(80, true)]).ok().unwrap();
    assert_eq!(lines[0].before, format!("  {:>4}", 7));
    assert_eq!(lines[0].marker, "  ");
    assert_eq!(lines[1].marker, " *");
    assert_eq!(lines[1].after, format!("  {}", gen(80, true).date));
    let empty = selection_list(&[]);
    assert_eq!(empty.err().unwrap().text, "No generations to select");
}

#[test]
fn selection_parsing() {
    let gens = vec![gen(1, false), gen(2, false), gen(3, true)];
    assert!(matches!(parse_selection("q\n", &gens), Selection::Cancelled));
    assert!(matches!(parse_selection("   \n", &gens), Selection::Cancelled));
    match parse_selection(" 2 x 1 99\n", &gens) {
        Selection::Chosen(v) => assert_eq!(v, vec![2, 1, 99]),
        _ => panic!("expected a choice"),
    }
    match parse_selection("abc", &gens) {
        Selection::Rejected(m) => {
            assert_eq!(m.level, LogLevel::Warn);
            assert_eq!(m.text, "No valid generation IDs entered");
        }
        _ => panic!("expected a rejection"),
    }
    match parse_selection("1 3", &gens) {
        Selection::Rejected(m) => {
            assert_eq!(m.level, LogLevel::Error);
            assert_eq!(m.text, "Cannot delete current generation 3");
        }
        _ => panic!("expected a rejection"),
    }
    assert!(matches!(parse_selection("qq", &gens), Selection::Rejected(_)));
}

#[test]
fn revision_lookup_reads_the_quoted_value() {
    let content = "{\n  system.configurationRevision = \"2024.01.01.10.00.AM\";\n}\n";
    assert_eq!(extract_revision(content), "2024.01.01.10.00.AM");
    assert_eq!(extract_revision("nothing here"), "");
    let unclosed = "system.configurationRevision = \"open\nsystem.configurationRevision = \"r2\";";
    assert_eq!(extract_revision(unclosed), "r2");
    assert_eq!(extract_revision("system.configurationRevision = \"\";"), "");
}

#[test]
fn revision_stamp_updates_the_revision_line() {
    let content = "a b\n  system.configurationRevision = \"2023.12.31.11.59.PM\";\nx";
    let u = apply_revision(content, "2024.01.02.03.04.PM");
    assert_eq!(u.content, "a b\n  system.configurationRevision = \"2024.01.02.03.04.PM\";\nx");
    assert!(u.changed);
    assert_eq!(extract_revision(&u.content), "2024.01.02.03.04.PM");
    let v = apply_revision("ab", "D");
    assert_eq!(v.content, "ab");
    assert!(!v.changed);
    let same = apply_revision("system.configurationRevision = \"D\";", "D");
    assert!(!same.changed);
    let empty = apply_revision("system.configurationRevision = \"\";", "D");
    assert_eq!(empty.content, "system.configurationRevision = \"D\";");
}

#[test]
fn rollback_targets() {
    let gens = vec![gen(1, false), gen(2, false), gen(3, true)];
    assert_eq!(rollback_target(&gens, None), Ok(2));
    assert_eq!(rollback_target(&gens, Some(1)), Ok(1));
    assert_eq!(rollback_target(&gens, Some(9)), Err(RollbackError::NotFound(9)));
    assert_eq!(rollback_target(&[], None), Err(RollbackError::NoGenerations));
    assert_eq!(rollback_target(&[gen(4, true)], None), Err(RollbackError::NoPrevious));
    assert_eq!(rollback_target(&[gen(1, false), gen(2, true), gen(3, false)], None), Ok(1));
    assert_eq!(rollback_target(&[gen(4, false), gen(1, false), gen(5, true), gen(7, false)], None), Ok(4));
    assert_eq!(rollback_target(&[gen(1, true), gen(2, false)], None), Err(RollbackError::NoPrevious));
    assert_eq!(rollback_target(&[gen(1, false), gen(6, false)], None), Ok(6));
    assert_eq!(RollbackError::NotFound(9).message(), "Generation 9 not found");
    assert_eq!(RollbackError::NoGenerations.message(), "No generations found");
    assert_eq!(RollbackError::NoPrevious.message(), "No previous generation to roll back to");
}

#[test]
fn delete_checks() {
    let gens = vec![gen(1, false), gen(2, false), gen(3, true)];
    assert_eq!(validate_delete_ids(&gens, &[1, 2]), Ok(()));
    assert_eq!(validate_delete_ids(&gens, &[1, 3, 9]), Err(DeleteError::Current(3)));
    assert_eq!(validate_delete_ids(&gens, &[9, 3]), Err(DeleteError::NotFound(9)));
    assert_eq!(validate_delete_ids(&gens, &[]), Ok(()));
    assert_eq!(DeleteError::Current(3).message(), "Cannot delete current generation 3");
    assert_eq!(DeleteError::NotFound(9).message(), "Generation 9 not found");
}

#[test]
fn deletion_notice_lists_numbers() {
    assert_eq!(deletion_notice(&[80, 81, 82]), format!("Will delete {} generation(s): {:?}", 3, vec![80, 81, 82]));
    assert_eq!(deletion_notice(&[]), "Will delete 0 generation(s): []");
    assert_eq!(deletion_notice(&[5]), "Will delete 1 generation(s): [5]");
}

#[test]
fn confirmation_answers() {
    assert!(confirms("y\n"));
    assert!(confirms(" Y "));
    assert!(!confirms("yes"));
    assert!(!confirms("\n"));
    assert!(!confirms("n"));
}

#[test]
fn profile_link_paths() {
    assert_eq!(generation_profile_link(12), "/nix/var/nix/profiles/system-12-link");
}
