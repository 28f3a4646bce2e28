use ide_scaffold::agent::{generate_tests, validate_code, AgentHistory, AgentMessage};
use ide_scaffold::catalog::{Difficulty, ProjectTemplate, TemplateCategory, TemplateLibrary};
use ide_scaffold::debugging::{Breakpoint, DebugConfiguration, DebugManager, DebugStatus};
use ide_scaffold::notifications::{Notification, NotificationCategory, NotificationLevel, NotificationManager};
use ide_scaffold::shortcuts::{ShortcutCategory, ShortcutManager};
use ide_scaffold::snippets::{CodeSnippet, SnippetCategory, SnippetManager};
use ide_scaffold::text::{contains_text, eq_ignore_ascii_case, join_path};
use ide_scaffold::themes::ThemeManager;

fn breakpoint(id: &str, line: u32) -> Breakpoint {
    Breakpoint { id: id.to_string(), file_path: "src/main.rs".to_string(), line, condition: None, enabled: true, hit_count: 0 }
}

fn notification(id: &str, read: bool) -> Notification {
    Notification {
        id: id.to_string(),
        title: format!("title {}", id),
        message: "msg".to_string(),
        level: NotificationLevel::Info,
        category: NotificationCategory::System,
        timestamp: "2024-01-01T00:00:00Z".to_string(),
        read,
        actions: vec![],
    }
}

fn snippet(id: &str, name: &str, language: &str, category: SnippetCategory, uses: u32) -> CodeSnippet {
    CodeSnippet {
        id: id.to_string(),
        name: name.to_string(),
        description: "desc".to_string(),
        language: language.to_string(),
        code: "fn main() {}".to_string(),
        prefix: "pre".to_string(),
        tags: vec!["Tag".to_string()],
        category,
        created_at: "t0".to_string(),
        updated_at: "t0".to_string(),
        usage_count: uses,
    }
}

#[test]
fn debug_session_lifecycle() {
    let mut m = DebugManager::new();
    m.open_session("s1".to_string(), "p".to_string(), "rust".to_string());
    assert!(m.start_debugging("s1").is_ok());
    m.add_breakpoint("s1", breakpoint("b1", 3)).unwrap();
    m.add_breakpoint("s1", breakpoint("b2", 9)).unwrap();
    m.toggle_breakpoint("s1", "b1").unwrap();
    let bps = m.list_breakpoints("s1");
    assert_eq!(bps.len(), 2);
    assert!(!bps[0].enabled);
    assert!(bps[1].enabled);
    m.remove_breakpoint("s1", "b2").unwrap();
    assert_eq!(m.list_breakpoints("s1").len(), 1);
    assert!(m.list_breakpoints("missing").is_empty());
    assert!(m.get_variables("s1").is_empty());
    m.pause_debugging("s1").unwrap();
    m.continue_debugging("s1").unwrap();
    m.stop_debugging("s1").unwrap();
    assert!(m.step_over("s1").is_ok() && m.step_into("s1").is_ok() && m.step_out("s1").is_ok());
    assert_eq!(m.evaluate_expression("s1", "x + 1").unwrap(), "Result of: x + 1");
    let id = m.create_session("p2".to_string(), "python".to_string());
    assert_eq!(id.len(), 36);
    assert!(m.list_breakpoints(&id).is_empty());
    // Operations on an unknown session change nothing.
    m.add_breakpoint("nope", breakpoint("b", 1)).unwrap();
    assert!(m.list_breakpoints("nope").is_empty());
    let _ = DebugStatus::Idle;
}

#[test]
fn debug_default_configurations() {
    let m = DebugManager::new();
    assert_eq!(m.create_default_configurations("rust")[0].name, "Debug Rust");
    assert_eq!(m.create_default_configurations("typescript")[0].type_, "node");
    assert_eq!(m.create_default_configurations("python")[0].program, "${file}");
    assert!(m.create_default_configurations("cobol").is_empty());
    let mut m = m;
    m.add_configuration(DebugConfiguration {
        name: "custom".to_string(),
        type_: "lldb".to_string(),
        request: "attach".to_string(),
        program: "a.out".to_string(),
        args: vec!["-v".to_string()],
        cwd: ".".to_string(),
        env: vec![("RUST_LOG".to_string(), "debug".to_string())],
    });
    let configs = m.get_configurations();
    assert_eq!(configs.len(), 1);
    assert_eq!(configs[0].env[0].1, "debug");
}

#[test]
fn notifications_newest_first_and_capped() {
    let mut m = NotificationManager::new();
    for i in 0..105 {
        m.add(notification(&i.to_string(), i % 2 == 0));
    }
    let all = m.get_all();
    assert_eq!(all.len(), 100);
    assert_eq!(all[0].id, "104");
    assert_eq!(all[99].id, "5");
    assert_eq!(m.get_unread().len(), 50);
    m.mark_read("103").unwrap();
    assert_eq!(m.get_unread().len(), 49);
    m.delete("104");
    assert_eq!(m.get_all().len(), 99);
    m.clear_read();
    assert_eq!(m.get_all().len(), 49);
    assert!(m.get_all().iter().all(|n| !n.read));
    m.mark_all_read();
    assert!(m.get_unread().is_empty());
    m.clear_all();
    assert!(m.get_all().is_empty());
}

#[test]
fn shortcuts_defaults_and_updates() {
    let mut m = ShortcutManager::new();
    assert_eq!(m.get_all_shortcuts().len(), 26);
    let new_file = m.get_shortcut("file.new").unwrap();
    assert_eq!(new_file.key, "Ctrl+N");
    assert!(!m.get_by_category(&ShortcutCategory::File).is_empty());
    let mut changed = new_file.clone();
    changed.key = "Ctrl+Alt+N".to_string();
    m.update_shortcut(changed).unwrap();
    assert_eq!(m.get_shortcut("file.new").unwrap().key, "Ctrl+Alt+N");
    assert_eq!(m.get_all_shortcuts().len(), 26);
    m.reset_to_defaults();
    assert_eq!(m.get_shortcut("file.new").unwrap().key, "Ctrl+N");
    assert!(m.get_shortcut("no.such").is_none());
}

#[test]
fn template_library_queries() {
    let mut lib = TemplateLibrary::new();
    assert_eq!(lib.list_templates().len(), 12);
    assert_eq!(lib.get_template("react-todo-app").unwrap().name, "React Todo App");
    assert!(lib.get_template("missing").is_none());
    let web = lib.list_by_category(&TemplateCategory::Web);
    assert!(web.iter().all(|t| t.category == TemplateCategory::Web));
    assert!(!web.is_empty());
    let beginner = lib.list_by_difficulty(&Difficulty::Beginner);
    assert!(beginner.iter().any(|t| t.id == "react-todo-app"));
    // The query is folded to lower case, so upper-case text still matches.
    let found = lib.search("REACT");
    assert!(found.iter().any(|t| t.id == "react-todo-app"));
    assert!(lib.search("zzzz-nothing").is_empty());
    lib.add_template(ProjectTemplate {
        id: "x".to_string(),
        name: "Xylophone".to_string(),
        description: "music".to_string(),
        category: TemplateCategory::CLI,
        tech_stack: vec!["Zig".to_string()],
        features: vec![],
        difficulty: Difficulty::Advanced,
        estimated_files: 1,
        thumbnail: None,
        prompt: "p".to_string(),
    });
    assert_eq!(lib.list_templates().len(), 13);
    assert_eq!(lib.search("zig").len(), 1);
}

#[test]
fn snippet_queries() {
    let mut m = SnippetManager::new(vec![
        snippet("a", "Alpha Hook", "TypeScript", SnippetCategory::React, 2),
        snippet("b", "Beta", "python", SnippetCategory::Python, 0),
    ]);
    assert_eq!(m.list_snippets().len(), 2);
    assert_eq!(m.search_snippets("HOOK").len(), 1);
    assert_eq!(m.search_snippets("tag").len(), 2);
    assert_eq!(m.search_snippets("fn main").len(), 2);
    assert_eq!(m.filter_by_language("typescript").len(), 1);
    assert_eq!(m.filter_by_language("PYTHON")[0].id, "b");
    assert_eq!(m.filter_by_category(&SnippetCategory::Python).len(), 1);
    m.record_usage("b", "t1".to_string());
    let b = m.get_snippet("b").unwrap();
    assert_eq!((b.usage_count, b.updated_at.as_str()), (1, "t1"));
    m.increment_usage("a");
    assert_eq!(m.get_snippet("a").unwrap().usage_count, 3);
    m.save_snippet(snippet("c", "Gamma", "rust", SnippetCategory::Rust, 0));
    assert_eq!(m.list_snippets().len(), 3);
    m.delete_snippet("a");
    assert!(m.get_snippet("a").is_none());
    assert_eq!(m.list_snippets().len(), 2);
}

#[test]
fn theme_lookup_and_custom_theme() {
    let mut m = ThemeManager::new();
    assert_eq!(m.list_themes().len(), 8);
    assert_eq!(m.get_theme("dracula").unwrap().name, "Dracula");
    assert_eq!(m.get_theme("dark").unwrap().colors.background, "#1e1e1e");
    assert!(m.get_theme("none").is_none());
}

#[test]
fn text_helpers() {
    assert_eq!(join_path("/a", "b"), "/a/b");
    assert_eq!(join_path("/a/", "b"), "/a/b");
    assert_eq!(join_path("", "b"), "b");
    assert!(contains_text("hello world", "o w"));
    assert!(contains_text("abc", ""));
    assert!(!contains_text("ab", "abc"));
    assert!(eq_ignore_ascii_case("TypeScript", "typescript"));
    assert!(!eq_ignore_ascii_case("Ärger", "ärger"));
}

#[test]
fn most_used_is_a_stable_top_k() {
    let m = SnippetManager::new(vec![
        snippet("a", "A", "rust", SnippetCategory::Rust, 2),
        snippet("b", "B", "rust", SnippetCategory::Rust, 5),
        snippet("c", "C", "rust", SnippetCategory::Rust, 5),
        snippet("d", "D", "rust", SnippetCategory::Rust, 0),
    ]);
    let ids = |v: Vec<CodeSnippet>| v.into_iter().map(|s| s.id).collect::<Vec<_>>();
    assert_eq!(ids(m.get_most_used(2)), vec!["b", "c"]);
    assert_eq!(ids(m.get_most_used(10)), vec!["b", "c", "a", "d"]);
    assert!(m.get_most_used(0).is_empty());
}

#[test]
fn agent_history_keeps_order() {
    let mut h = AgentHistory::new();
    for (i, role) in ["user", "assistant"].iter().enumerate() {
        h.add_message(AgentMessage {
            id: i.to_string(),
            role: role.to_string(),
            content: format!("m{}", i),
            timestamp: "t".to_string(),
        });
    }
    let copy = h.get_history();
    assert_eq!(copy.messages.len(), 2);
    assert_eq!(copy.messages[1].role, "assistant");
    assert_eq!(generate_tests().unwrap(), "Test generation not yet implemented");
    assert_eq!(validate_code("fn x() {}"), Ok(true));
}

#[test]
fn default_catalogue_contents() {
    let lib = TemplateLibrary::new();
    let mut ids: Vec<&str> = lib.list_templates().iter().map(|t| t.id.as_str()).collect();
    ids.sort();
    let mut want = vec![
        "react-todo-app", "react-dashboard", "ecommerce-store", "rest-api-basic", "graphql-api", "cli-tool-basic",
        "react-native-app", "flask-api", "data-analysis-notebook", "electron-app", "next-js-blog", "vue-admin-panel",
    ];
    want.sort();
    assert_eq!(ids, want);
    assert_eq!(lib.list_by_category(&TemplateCategory::Web).len(), 4);
    assert_eq!(lib.list_by_category(&TemplateCategory::API).len(), 3);
    assert_eq!(lib.list_by_difficulty(&Difficulty::Beginner).len(), 4);
    assert_eq!(lib.list_by_difficulty(&Difficulty::Intermediate).len(), 6);
    assert_eq!(lib.list_by_difficulty(&Difficulty::Advanced).len(), 2);
    let mut py: Vec<&str> = lib.search("PYTHON").iter().map(|t| t.id.as_str()).collect();
    py.sort();
    assert_eq!(py, vec!["data-analysis-notebook", "flask-api"]);
    assert_eq!(lib.search("").len(), 12);
}

#[test]
fn default_shortcut_contents() {
    let m = ShortcutManager::new();
    assert!(m.get_by_category(&ShortcutCategory::Terminal).is_empty());
    assert_eq!(m.get_by_category(&ShortcutCategory::AI).len(), 4);
    assert_eq!(m.get_by_category(&ShortcutCategory::Edit).len(), 6);
    assert_eq!(m.get_shortcut("file.new").unwrap().category, ShortcutCategory::File);
}

#[test]
fn default_theme_contents() {
    let m = ThemeManager::new();
    let ids: Vec<&str> = m.list_themes().iter().map(|t| t.id.as_str()).collect();
    assert_eq!(ids, vec!["dark", "dracula", "monokai", "nord", "tokyo-night", "light", "github-light", "solarized-light"]);
}
