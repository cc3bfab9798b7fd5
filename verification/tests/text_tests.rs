use nx::command::{join_lines, require_root, simple_outcome, RunOptions};
use nx::paths::{join_str, same_path};
use nx::text::{
    eq_ignore_ascii_case, format_u64, parse_u64, split_whitespace, to_chars, trim,
};

fn chars(s: &str) -> Vec<char> {
    s.chars().collect()
}

fn text(v: &[char]) -> String {
    v.iter().collect()
}

#[test]
fn format_u64_writes_decimal() {
    assert_eq!(format_u64(0), "0");
    assert_eq!(format_u64(7), "7");
    assert_eq!(format_u64(1234567890), "1234567890");
    assert_eq!(format_u64(u64::MAX), "18446744073709551615");
}

#[test]
fn parse_u64_follows_from_str() {
    assert_eq!(parse_u64("42"), Some(42));
    assert_eq!(parse_u64("+42"), Some(42));
    assert_eq!(parse_u64("007"), Some(7));
    assert_eq!(parse_u64("18446744073709551615"), Some(u64::MAX));
    assert_eq!(parse_u64("18446744073709551616"), None);
    assert_eq!(parse_u64(""), None);
    assert_eq!(parse_u64("+"), None);
    assert_eq!(parse_u64("-1"), None);
    assert_eq!(parse_u64("1a"), None);
    assert_eq!(parse_u64(" 1"), None);
    assert_eq!(parse_u64("١"), None);
    for s in ["", "+", "12", "+7", "x", "99999999999999999999", "0"] {
        assert_eq!(parse_u64(s), s.parse::<u64>().ok());
    }
}

#[test]
fn parse_reads_back_format() {
    for n in [0u64, 1, 9, 10, 99, 100, 65535, 1 << 40, u64::MAX] {
        assert_eq!(parse_u64(&format_u64(n)), Some(n));
    }
}

#[test]
fn trim_removes_unicode_whitespace() {
    assert_eq!(trim("  a b \n"), "a b");
    assert_eq!(trim("\u{a0}\u{3000}x\u{2028}"), "x");
    assert_eq!(trim(" \t "), "");
    assert_eq!(trim(""), "");
    for s in ["  x ", "\r\ny\r\n", "\u{85}z", "no"] {
        assert_eq!(trim(s), s.trim());
    }
}

#[test]
fn split_whitespace_gives_words() {
    let words: Vec<String> = split_whitespace(&chars("  80 81\t\n82  "))
        .iter()
        .map(|w| text(w))
        .collect();
    assert_eq!(words, vec!["80", "81", "82"]);
    assert!(split_whitespace(&chars("   ")).is_empty());
    assert!(split_whitespace(&chars("")).is_empty());
}

#[test]
fn eq_ignore_ascii_case_folds_letters_only() {
    assert!(eq_ignore_ascii_case(&chars("Y"), &chars("y")));
    assert!(eq_ignore_ascii_case(&chars("AbC"), &chars("aBc")));
    assert!(!eq_ignore_ascii_case(&chars("yes"), &chars("y")));
    assert!(!eq_ignore_ascii_case(&chars("É"), &chars("é")));
}

#[test]
fn to_chars_keeps_every_char() {
    assert_eq!(to_chars("héllo"), vec!['h', 'é', 'l', 'l', 'o']);
}

#[test]
fn join_follows_pathbuf_join() {
    assert_eq!(join_str("/nix/var/nix/profiles", "system-3-link"), "/nix/var/nix/profiles/system-3-link");
    assert_eq!(join_str("/a/", "b"), "/a/b");
    assert_eq!(join_str("", ".dotfiles"), ".dotfiles");
    assert_eq!(join_str("/a", "/abs"), "/abs");
    assert_eq!(join_str("a", ""), "a/");
    for (b, r) in [("/x", "y/z"), ("/x/", "y"), ("", "q"), ("rel", "/root")] {
        assert_eq!(
            join_str(b, r),
            std::path::Path::new(b).join(r).to_string_lossy().to_string()
        );
    }
}

#[test]
fn same_path_compares_components() {
    assert!(same_path("/a/b", "/a//b/"));
    assert!(same_path("/a/./b", "/a/b"));
    assert!(same_path("./a", "./a/"));
    assert!(!same_path("./a", "a"));
    assert!(!same_path("/a", "a"));
    assert!(!same_path("/a/../b", "/b"));
    for (x, y) in [("/a/b", "/a//b/"), ("./a", "a"), ("a/.", "a"), (".", "./"), ("/", "//")] {
        assert_eq!(same_path(x, y), std::path::Path::new(x) == std::path::Path::new(y), "{x} {y}");
    }
}

#[test]
fn run_options_default_shows_output() {
    let o = RunOptions::default();
    assert!(o.show_output);
    assert!(!o.capture);
    assert!(o.echoes());
    assert!(!RunOptions { show_output: true, capture: true }.echoes());
}

#[test]
fn join_lines_uses_newlines() {
    assert_eq!(join_lines(&["a".to_string(), "b".to_string()]), "a\nb");
    assert_eq!(join_lines(&[]), "");
    assert_eq!(join_lines(&["only".to_string()]), "only");
}

#[test]
fn simple_outcome_trims() {
    assert_eq!(simple_outcome(true, " out \n", "x"), Ok("out".to_string()));
    assert_eq!(
        simple_outcome(false, "out", "  boom\n"),
        Err("Command failed: boom".to_string())
    );
}

#[test]
fn require_root_refuses_others() {
    assert_eq!(require_root(true), Ok(()));
    assert_eq!(
        require_root(false),
        Err("This command requires root. Re-run with sudo.".to_string())
    );
}
