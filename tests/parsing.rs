use ide_scaffold::code_review::CodeReviewEngine;
use ide_scaffold::git::GitManager;
use ide_scaffold::plugins::PluginManager;
use ide_scaffold::text::{lines, parse_u32, parse_usize, words};
use ide_scaffold::updater::{AutoUpdater, UpdateSettings};

#[test]
fn git_log_keeps_five_field_lines() {
    let git = GitManager::new("/repo".to_string());
    let text = "abc123|abc|Ann|2024-01-02|Fix bug\nbroken line\nd4e5|d4|Bob|2024-01-03|Add a|b\r\nfff|ff|Cy|2024-01-04|Init\n";
    let commits = git.parse_log(text).unwrap();
    assert_eq!(commits.len(), 2);
    assert_eq!(commits[0].hash, "abc123");
    assert_eq!(commits[0].message, "Fix bug");
    assert_eq!(commits[1].author, "Cy");
    assert!(git.parse_log("").unwrap().is_empty());
}

#[test]
fn git_branches_read_marks_and_commit() {
    let git = GitManager::new("/repo".to_string());
    let text = "* main      1a2b3c Latest\n  feature  9f8e7d Work\n  remotes/origin/main 1a2b3c Latest\n\n   \n";
    let branches = git.parse_branches(text).unwrap();
    assert_eq!(branches.len(), 3);
    assert_eq!(branches[0].name, "main");
    assert!(branches[0].is_current);
    assert_eq!(branches[0].last_commit.as_deref(), Some("1a2b3c"));
    assert!(!branches[1].is_current && !branches[1].is_remote);
    assert!(branches[2].is_remote);
    assert_eq!(branches[2].name, "remotes/origin/main");
}

#[test]
fn git_status_reads_branch_and_files() {
    let git = GitManager::new("/repo".to_string());
    let text = "## dev...origin/dev [behind 3]\nA  added.rs\n M changed.rs\n?? new file.txt \nUU clash.rs\nD  gone.rs\n";
    let st = git.parse_status(text).unwrap();
    assert_eq!(st.branch, "dev");
    assert_eq!(st.ahead, 0);
    assert_eq!(st.behind, 3);
    assert_eq!(st.staged, vec!["added.rs".to_string(), "gone.rs".to_string()]);
    assert_eq!(st.modified, vec!["changed.rs".to_string()]);
    assert_eq!(st.untracked, vec!["new file.txt".to_string()]);
    assert_eq!(st.conflicted, vec!["clash.rs".to_string()]);
}

#[test]
fn git_status_ahead_and_defaults() {
    let git = GitManager::new("/repo".to_string());
    let st = git.parse_status("## main...origin/main [ahead 2]\n").unwrap();
    assert_eq!((st.branch.as_str(), st.ahead, st.behind), ("main", 2, 0));
    // With both counts, the text after "ahead " runs to the next "]" and is no number.
    let st = git.parse_status("## main...origin/main [ahead 2, behind 1]\n").unwrap();
    assert_eq!((st.ahead, st.behind), (0, 1));
    let st = git.parse_status("").unwrap();
    assert_eq!(st.branch, "main");
    assert!(st.staged.is_empty());
}

#[test]
fn version_parsing_and_comparison() {
    let up = AutoUpdater::with_version("1.2.3".to_string(), "https://example.invalid".to_string(), "/tmp/s.json".to_string());
    assert_eq!(up.parse_version("v1.10.0"), Ok((1, 10, 0)));
    assert_eq!(up.parse_version("vv2.0.1"), Ok((2, 0, 1)));
    assert!(up.parse_version("1.2").is_err());
    assert!(up.parse_version("1.2.x").is_err());
    assert!(up.parse_version("1.2.99999999999").is_err());
    assert_eq!(up.is_newer_version("1.2.4"), Ok(true));
    assert_eq!(up.is_newer_version("v1.3.0"), Ok(true));
    assert_eq!(up.is_newer_version("1.2.3"), Ok(false));
    assert_eq!(up.is_newer_version("0.9.9"), Ok(false));
    assert!(up.is_newer_version("next").is_err());
    let s = UpdateSettings::default();
    assert!(s.auto_check && !s.auto_download && !s.auto_install);
    assert_eq!(s.check_interval_hours, 24);
}

#[test]
fn complexity_counts_decision_keywords() {
    let engine = CodeReviewEngine::new();
    assert_eq!(engine.calculate_complexity(""), 1);
    assert_eq!(engine.calculate_complexity("if a && b { x } else { y }"), 4);
    assert_eq!(engine.calculate_complexity("for x in y { while z {} }"), 3);
    assert_eq!(engine.calculate_complexity("a ?? b"), 3);
    assert_eq!(engine.calculate_complexity("|||"), 2);
}

#[test]
fn number_parsing_follows_std() {
    assert_eq!(parse_u32("42"), Some(42));
    assert_eq!(parse_u32("+7"), Some(7));
    assert_eq!(parse_u32("4294967295"), Some(u32::MAX));
    assert_eq!(parse_u32("4294967296"), None);
    assert_eq!(parse_u32(""), None);
    assert_eq!(parse_u32("+"), None);
    assert_eq!(parse_u32("-1"), None);
    assert_eq!(parse_usize("0012"), Some(12));
    assert_eq!(parse_usize("1 2"), None);
}

#[test]
fn lines_and_words_follow_std() {
    let text = "a\r\nb\n\nc";
    let got: Vec<String> = lines(text);
    let want: Vec<String> = text.lines().map(String::from).collect();
    assert_eq!(got, want);
    assert_eq!(lines("x\n"), vec!["x".to_string()]);
    assert!(lines("").is_empty());
    let w = words("  one\ttwo  three ");
    assert_eq!(w, vec!["one".to_string(), "two".to_string(), "three".to_string()]);
}

#[test]
fn plugin_ids_from_names() {
    let m = PluginManager::with_dir("/plugins".to_string());
    assert_eq!(m.generate_plugin_id("My Cool Plugin!"), "my-cool-plugin");
    assert_eq!(m.generate_plugin_id("Ünïcode 2"), "ünïcode-2");
    assert_eq!(m.generate_plugin_id(""), "");
    assert_eq!(m.plugins_dir(), "/plugins");
}
