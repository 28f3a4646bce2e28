use ide_scaffold::progress::{ProgressStage, TemplateProgress};
use ide_scaffold::scaffold::{resolve_strategy, springboot_request_url, ScaffoldAction, ScaffoldEngine, ScaffoldError,
    ScaffoldStep, StepOutcome, Strategy};
use ide_scaffold::version::{cache_version, version_from_encoded_digest};

/// What the simulated machine did during one run.
#[derive(Default)]
struct Trace {
    stages: Vec<ProgressStage>,
    progress: Vec<u32>,
    downloads: usize,
    lookups: usize,
    tools: usize,
    writes: Vec<String>,
    copies: Vec<(String, String)>,
    stores: usize,
}

/// Runs the engine to its end; `respond` decides the outcome of each action.
fn drive(
    template_id: &str,
    name: &str,
    location: &str,
    mut respond: impl FnMut(&ScaffoldAction) -> StepOutcome,
) -> (Result<String, ScaffoldError>, Trace) {
    let mut trace = Trace::default();
    let (mut engine, mut step) = ScaffoldEngine::start(template_id, name, location);
    let mut guard = 0;
    loop {
        guard += 1;
        assert!(guard < 1000, "run does not end");
        let ScaffoldStep { progress, action } = step;
        if let Some(p) = progress {
            trace.stages.push(p.stage);
            trace.progress.push(p.progress);
        }
        match &action {
            ScaffoldAction::Download { .. } => trace.downloads += 1,
            ScaffoldAction::LookupCache { .. } => trace.lookups += 1,
            ScaffoldAction::RunTool { .. } => trace.tools += 1,
            ScaffoldAction::WriteFile { path, .. } => trace.writes.push(path.clone()),
            ScaffoldAction::CopyFile { from, to } => trace.copies.push((from.clone(), to.clone())),
            ScaffoldAction::StoreCache { .. } => trace.stores += 1,
            _ => {}
        }
        if let ScaffoldAction::Finish(r) = action {
            assert!(engine.is_finished());
            return (r, trace);
        }
        let outcome = respond(&action);
        step = engine.advance(outcome);
    }
}

fn all_succeed(action: &ScaffoldAction) -> StepOutcome {
    match action {
        ScaffoldAction::LookupCache { .. } => StepOutcome::CacheMiss,
        _ => StepOutcome::Succeeded,
    }
}

fn terminal_count(stages: &[ProgressStage]) -> usize {
    stages.iter().filter(|s| s.is_terminal()).count()
}

const ALL_IDS: [&str; 10] = [
    "react-vite", "node-express", "fastapi", "react-nextjs", "vue-vite", "angular", "django", "rust-actix",
    "tauri-react", "springboot",
];

#[test]
fn strategies_of_known_templates() {
    assert_eq!(resolve_strategy("react-vite"), Some(Strategy::InlineGeneration));
    assert_eq!(resolve_strategy("fastapi"), Some(Strategy::InlineGeneration));
    assert_eq!(resolve_strategy("angular"), Some(Strategy::ExternalTool));
    assert_eq!(resolve_strategy("rust-actix"), Some(Strategy::ExternalTool));
    assert_eq!(resolve_strategy("springboot"), Some(Strategy::NetworkDownload));
    assert_eq!(resolve_strategy("cobol"), None);
    assert_eq!(resolve_strategy(""), None);
}

#[test]
fn unknown_template_ends_with_one_error() {
    let (r, trace) = drive("cobol", "app", "/tmp/work", all_succeed);
    match r {
        Err(ScaffoldError::InvalidTemplate(m)) => assert_eq!(m, "Unknown template: cobol"),
        other => panic!("unexpected {:?}", other),
    }
    assert_eq!(trace.stages, vec![ProgressStage::Error]);
}

#[test]
fn every_template_succeeds_with_one_complete() {
    for id in ALL_IDS {
        let (r, trace) = drive(id, "demo", "/work", all_succeed);
        assert_eq!(r.unwrap(), "/work/demo", "template {}", id);
        assert_eq!(terminal_count(&trace.stages), 1);
        assert_eq!(*trace.stages.last().unwrap(), ProgressStage::Complete);
        assert_eq!(*trace.progress.last().unwrap(), 1000);
        assert_eq!(trace.stages[0], ProgressStage::Initializing);
        assert!(trace.progress.windows(2).all(|w| w[0] <= w[1]), "progress of {} goes back", id);
    }
}

#[test]
fn injected_failures_end_with_one_error() {
    for id in ALL_IDS {
        // Fail the n-th action, for every n that the run reaches.
        for n in 1..40 {
            let mut count = 0;
            let (r, trace) = drive(id, "demo", "/work", |a| {
                count += 1;
                if count == n {
                    StepOutcome::Failed("boom".to_string())
                } else {
                    all_succeed(a)
                }
            });
            assert_eq!(terminal_count(&trace.stages), 1, "template {} failing at {}", id, n);
            let last = *trace.stages.last().unwrap();
            assert_eq!(r.is_ok(), last == ProgressStage::Complete);
            assert_eq!(r.is_err(), last == ProgressStage::Error);
        }
    }
}

#[test]
fn generator_failure_carries_stderr() {
    let (r, _) = drive("react-nextjs", "web", "/work", |a| match a {
        ScaffoldAction::RunTool { program, args, cwd } => {
            assert_eq!(program, "npx");
            assert_eq!(args[0], "create-next-app@latest");
            assert_eq!(args[1], "web");
            assert_eq!(cwd, "/work");
            StepOutcome::Failed("npx: not found".to_string())
        }
        _ => StepOutcome::Succeeded,
    });
    match r {
        Err(ScaffoldError::ToolFailure(m)) => assert_eq!(m, "npx: not found"),
        other => panic!("unexpected {:?}", other),
    }
}

#[test]
fn inline_generation_is_network_free() {
    for id in ["react-vite", "node-express", "fastapi"] {
        // Every subprocess fails, as it would with no network.
        let (r, trace) = drive(id, "offline", "/work", |a| match a {
            ScaffoldAction::RunTool { .. } => StepOutcome::Failed("npm ERR! network".to_string()),
            _ => StepOutcome::Succeeded,
        });
        assert_eq!(r.unwrap(), "/work/offline");
        assert_eq!(trace.downloads, 0);
        assert_eq!(trace.lookups, 0);
        assert!(trace.tools >= 1);
    }
}

#[test]
fn react_vite_writes_its_files() {
    let (_, trace) = drive("react-vite", "site", "/w/", all_succeed);
    assert!(trace.writes.contains(&"/w/site/package.json".to_string()));
    assert!(trace.writes.contains(&"/w/site/src/App.tsx".to_string()));
    assert!(trace.writes.contains(&"/w/site/.gitignore".to_string()));
    assert_eq!(trace.writes.len(), 10);
}

#[test]
fn cached_download_skips_the_network() {
    let (r, trace) = drive("springboot", "demo", "/work", |a| match a {
        ScaffoldAction::LookupCache { template_id, version } => {
            assert_eq!(template_id, "springboot");
            assert_eq!(version, "v1-iXtOy9r9WZTvnbtS");
            StepOutcome::CacheHit("/cache/demo.zip".to_string())
        }
        ScaffoldAction::Download { .. } => panic!("no download after a cache hit"),
        _ => StepOutcome::Succeeded,
    });
    assert_eq!(r.unwrap(), "/work/demo");
    assert_eq!(trace.progress, vec![0, 0, 100, 100, 600, 900, 1000]);
    assert_eq!(trace.downloads, 0);
    assert_eq!(trace.stores, 0);
    assert_eq!(trace.copies, vec![("/cache/demo.zip".to_string(), "/work/demo.zip".to_string())]);
}

#[test]
fn cache_miss_downloads_and_stores() {
    let (r, trace) = drive("springboot", "demo", "/work", all_succeed);
    assert!(r.is_ok());
    assert_eq!(trace.downloads, 1);
    assert_eq!(trace.stores, 1);
}

#[test]
fn failed_cache_store_is_tolerated() {
    let (r, _) = drive("springboot", "demo", "/work", |a| match a {
        ScaffoldAction::LookupCache { .. } => StepOutcome::CacheMiss,
        ScaffoldAction::StoreCache { .. } => StepOutcome::Failed("disk full".to_string()),
        _ => StepOutcome::Succeeded,
    });
    assert!(r.is_ok());
}

#[test]
fn download_exhaustion_is_a_network_failure() {
    let (r, trace) = drive("springboot", "demo", "/work", |a| match a {
        ScaffoldAction::LookupCache { .. } => StepOutcome::CacheMiss,
        ScaffoldAction::Download { .. } => StepOutcome::Failed("curl: (6) Could not resolve host".to_string()),
        _ => StepOutcome::Succeeded,
    });
    match r {
        Err(ScaffoldError::NetworkFailure(m)) => assert_eq!(m, "curl: (6) Could not resolve host"),
        other => panic!("unexpected {:?}", other),
    }
    assert_eq!(*trace.stages.last().unwrap(), ProgressStage::Error);
}

#[test]
fn missing_project_directory_is_a_postcondition_failure() {
    let (r, _) = drive("springboot", "demo", "/work", |a| match a {
        ScaffoldAction::LookupCache { .. } => StepOutcome::CacheMiss,
        ScaffoldAction::CheckDir { .. } => StepOutcome::Failed("absent".to_string()),
        _ => StepOutcome::Succeeded,
    });
    match r {
        Err(ScaffoldError::PostconditionFailed(m)) => {
            assert_eq!(m, "Project directory was not created at expected path: /work/demo")
        }
        other => panic!("unexpected {:?}", other),
    }
}

#[test]
fn extraction_failure_is_a_tool_failure() {
    let (r, _) = drive("springboot", "demo", "/work", |a| match a {
        ScaffoldAction::LookupCache { .. } => StepOutcome::CacheMiss,
        ScaffoldAction::Extract { .. } => StepOutcome::Failed("tar: bad archive".to_string()),
        _ => StepOutcome::Succeeded,
    });
    assert!(matches!(r, Err(ScaffoldError::ToolFailure(_))));
}

#[test]
fn springboot_url_embeds_the_name() {
    assert_eq!(
        springboot_request_url("demo"),
        "https://start.spring.io/starter.zip?type=maven-project&language=java&baseDir=demo&groupId=com.example&artifactId=demo&name=demo&description=Demo+project&packageName=com.example.demo&packaging=jar&javaVersion=17&dependencies=web,data-jpa"
    );
}

#[test]
fn cache_version_hashes_the_locator() {
    assert_eq!(cache_version("abc"), "v1-ungWv48Bz+pBQUDe");
    assert_eq!(cache_version(&springboot_request_url("demo")), "v1-iXtOy9r9WZTvnbtS");
    assert_ne!(cache_version(&springboot_request_url("other")), cache_version(&springboot_request_url("demo")));
}

#[test]
fn version_from_short_digest_text() {
    assert_eq!(version_from_encoded_digest("abc"), "v1-abc");
    assert_eq!(version_from_encoded_digest("0123456789abcdefXYZ"), "v1-0123456789abcdef");
    assert_eq!(version_from_encoded_digest(""), "v1-");
}

#[test]
fn progress_is_clamped_and_terminal_values_fixed() {
    assert_eq!(TemplateProgress::downloading(1500, "x".to_string()).progress, 1000);
    assert_eq!(TemplateProgress::extracting(600, "x".to_string()).progress, 600);
    let c = TemplateProgress::complete("done".to_string());
    assert_eq!((c.stage, c.progress), (ProgressStage::Complete, 1000));
    let e = TemplateProgress::error("bad".to_string());
    assert_eq!((e.stage, e.progress, e.message.as_str()), (ProgressStage::Error, 0, "bad"));
    assert_eq!(TemplateProgress::initializing("go".to_string()).progress, 0);
}

#[test]
fn download_uses_default_retry_limits() {
    let mut seen = None;
    let _ = drive("springboot", "demo", "/work", |a| match a {
        ScaffoldAction::LookupCache { .. } => StepOutcome::CacheMiss,
        ScaffoldAction::Download { url, dest, retry } => {
            seen = Some((url.clone(), dest.clone(), retry.max_retries, retry.initial_delay_ms, retry.max_delay_ms));
            StepOutcome::Succeeded
        }
        _ => StepOutcome::Succeeded,
    });
    let (url, dest, n, first, cap) = seen.unwrap();
    assert_eq!(url, springboot_request_url("demo"));
    assert_eq!(dest, "/work/demo.zip");
    assert_eq!((n, first, cap), (3, 1000, 8000));
}

#[test]
fn cache_hit_reports_using_cached_template() {
    let (mut engine, _) = ScaffoldEngine::start("springboot", "demo", "/w");
    let _create = engine.advance(StepOutcome::Succeeded);
    let lookup = engine.advance(StepOutcome::Succeeded);
    assert!(matches!(lookup.action, ScaffoldAction::LookupCache { .. }));
    let copy = engine.advance(StepOutcome::CacheHit("/c/demo.zip".to_string()));
    let p = copy.progress.unwrap();
    assert_eq!((p.stage, p.progress, p.message.as_str()), (ProgressStage::Downloading, 100, "Using cached template..."));
}
