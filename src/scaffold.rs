//! The scaffold engine: turns a template id, a project name and a
//! destination into a sequence of steps, and decides after each outcome
//! what comes next.
//!
//! The caller performs each step's action (file writes, subprocesses, the
//! download with its retries, the cache lookups) and hands the outcome back.
//! Every run ends with exactly one terminal progress report, delivered with
//! the `Finish` action: `Complete` with `Ok`, `Error` with `Err`.
use vstd::prelude::*;
use crate::progress::{ProgressStage, TemplateProgress, PROGRESS_SCALE};
use crate::retry::RetryConfig;
use crate::text::{join_path, joined, same_text};
use crate::template_files::{REACT_VITE_PACKAGE_JSON, REACT_VITE_TSCONFIG, REACT_VITE_TSCONFIG_NODE, REACT_VITE_CONFIG, REACT_VITE_INDEX_HTML, REACT_VITE_MAIN_TSX, REACT_VITE_APP_TSX, EXPRESS_PACKAGE_JSON, EXPRESS_TSCONFIG, EXPRESS_INDEX_TS, FASTAPI_MAIN_PY, EXPRESS_README_BODY, FASTAPI_README_BODY};

verus! {

/// How a template is realised.
#[derive(Clone, Copy, Debug, PartialEq, Eq, Structural)]
pub enum Strategy {
    /// Files written from built-in text, then a best-effort dependency install.
    InlineGeneration,
    /// A third-party generator run in the destination directory.
    ExternalTool,
    /// A generated archive, downloaded (or taken from the cache) and extracted.
    NetworkDownload,
}

/// The strategy of each known template id.
pub open spec fn strategy_of(id: Seq<char>) -> Option<Strategy> {
    if id == "react-vite"@ || id == "node-express"@ || id == "fastapi"@ {
        Some(Strategy::InlineGeneration)
    } else if id == "react-nextjs"@ || id == "vue-vite"@ || id == "angular"@ || id == "django"@
        || id == "rust-actix"@ || id == "tauri-react"@ {
        Some(Strategy::ExternalTool)
    } else if id == "springboot"@ {
        Some(Strategy::NetworkDownload)
    } else {
        None
    }
}

pub fn resolve_strategy(template_id: &str) -> (r: Option<Strategy>)
    ensures
        r == strategy_of(template_id@),
{
    if same_text(template_id, "react-vite") || same_text(template_id, "node-express") || same_text(template_id, "fastapi") {
        Some(Strategy::InlineGeneration)
    } else if same_text(template_id, "react-nextjs") || same_text(template_id, "vue-vite") || same_text(template_id, "angular")
        || same_text(template_id, "django") || same_text(template_id, "rust-actix") || same_text(template_id, "tauri-react") {
        Some(Strategy::ExternalTool)
    } else if same_text(template_id, "springboot") {
        Some(Strategy::NetworkDownload)
    } else {
        None
    }
}

/// Why a run failed.
#[derive(Debug)]
pub enum ScaffoldError {
    /// The template id is not known.
    InvalidTemplate(String),
    /// The download failed after all retries.
    NetworkFailure(String),
    /// A generator or the extraction exited unsuccessfully; its stderr.
    ToolFailure(String),
    /// The archive was extracted but the project directory is missing.
    PostconditionFailed(String),
    /// A file or directory could not be created, written or copied.
    Io(String),
}

impl ScaffoldError {
    pub open spec fn spec_message(&self) -> String {
        match self {
            ScaffoldError::InvalidTemplate(m) => *m,
            ScaffoldError::NetworkFailure(m) => *m,
            ScaffoldError::ToolFailure(m) => *m,
            ScaffoldError::PostconditionFailed(m) => *m,
            ScaffoldError::Io(m) => *m,
        }
    }

    /// The error as one line of text.
    pub fn message(&self) -> (r: String)
        ensures
            r == self.spec_message(),
    {
        match self {
            ScaffoldError::InvalidTemplate(m) => m.clone(),
            ScaffoldError::NetworkFailure(m) => m.clone(),
            ScaffoldError::ToolFailure(m) => m.clone(),
            ScaffoldError::PostconditionFailed(m) => m.clone(),
            ScaffoldError::Io(m) => m.clone(),
        }
    }
}

/// The class of error that a failed step produces.
#[derive(Clone, Copy, Debug, PartialEq, Eq, Structural)]
pub enum FailureKind {
    Network,
    Tool,
    Postcondition,
    Io,
}

pub open spec fn error_of(kind: FailureKind, msg: String) -> ScaffoldError {
    match kind {
        FailureKind::Network => ScaffoldError::NetworkFailure(msg),
        FailureKind::Tool => ScaffoldError::ToolFailure(msg),
        FailureKind::Postcondition => ScaffoldError::PostconditionFailed(msg),
        FailureKind::Io => ScaffoldError::Io(msg),
    }
}

fn make_error(kind: FailureKind, msg: String) -> (r: ScaffoldError)
    ensures
        r == error_of(kind, msg),
{
    match kind {
        FailureKind::Network => ScaffoldError::NetworkFailure(msg),
        FailureKind::Tool => ScaffoldError::ToolFailure(msg),
        FailureKind::Postcondition => ScaffoldError::PostconditionFailed(msg),
        FailureKind::Io => ScaffoldError::Io(msg),
    }
}

/// What the caller does for a step.
#[derive(Debug)]
pub enum ScaffoldAction {
    /// Nothing beyond delivering the step's progress report.
    Report,
    CreateDir { path: String },
    WriteFile { path: String, contents: String },
    AppendFile { path: String, contents: String },
    /// Run `program` with `args` in `cwd`; success is a zero exit status,
    /// failure carries the captured stderr.
    RunTool { program: String, args: Vec<String>, cwd: String },
    /// Look the archive up in the template cache; the outcome is a hit only
    /// if the cached file still exists.
    LookupCache { template_id: String, version: String },
    CopyFile { from: String, to: String },
    /// Fetch `url` into `dest`, retrying with exponential backoff under `retry`.
    Download { url: String, dest: String, retry: RetryConfig },
    StoreCache { template_id: String, version: String, file: String },
    /// Unpack `archive` inside `dest`.
    Extract { archive: String, dest: String },
    RemoveFile { path: String },
    /// Check that `path` is a directory.
    CheckDir { path: String },
    /// The run is over with this result.
    Finish(Result<String, ScaffoldError>),
}

impl ScaffoldAction {
    pub open spec fn is_finish(&self) -> bool {
        self is Finish
    }

    /// The action touches the network or the download cache.
    pub open spec fn uses_network(&self) -> bool {
        self is LookupCache || self is Download || self is StoreCache || self is Extract
    }
}

/// What to do when a step fails.
#[derive(Clone, Copy, Debug, PartialEq, Eq, Structural)]
pub enum OnFailure {
    /// End the run with an error of this kind.
    Abort(FailureKind),
    /// Carry on: the step is best-effort.
    Ignore,
}

/// A step of a strategy's plan.
#[derive(Debug)]
pub struct PlannedStep {
    pub progress: Option<TemplateProgress>,
    pub action: ScaffoldAction,
    pub on_failure: OnFailure,
    /// Skipped when the cache supplied the archive.
    pub miss_only: bool,
}

/// One step handed to the caller: deliver `progress` (if any), then
/// perform `action`.
#[derive(Debug)]
pub struct ScaffoldStep {
    pub progress: Option<TemplateProgress>,
    pub action: ScaffoldAction,
}

/// What came of the last step.
#[derive(Debug)]
pub enum StepOutcome {
    Succeeded,
    /// The step failed; the message says why (stderr for a subprocess).
    Failed(String),
    /// The cache holds the archive at this path.
    CacheHit(String),
    CacheMiss,
}

/// A plan step is never terminal: it reports no terminal stage and does not
/// finish the run.
pub open spec fn step_in_plan(s: PlannedStep) -> bool {
    &&& !s.action.is_finish()
    &&& match s.progress {
        Some(t) => !t.stage.spec_is_terminal() && t.progress <= PROGRESS_SCALE,
        None => true,
    }
}

/// The highest progress that a plan's steps report (0 when none does).
pub open spec fn plan_max(plan: Seq<PlannedStep>) -> u32
    decreases plan.len(),
{
    if plan.len() == 0 {
        0
    } else {
        let m = plan_max(plan.drop_last());
        match plan.last().progress {
            Some(t) => if t.progress > m {
                t.progress
            } else {
                m
            },
            None => m,
        }
    }
}

/// Later steps of a plan never report less progress than earlier ones.
pub open spec fn plan_sorted(plan: Seq<PlannedStep>) -> bool {
    forall|i: int, j: int|
        0 <= i < j < plan.len() && plan[i].progress is Some && plan[j].progress is Some
            ==> (#[trigger] plan[i]).progress.unwrap().progress <= (#[trigger] plan[j]).progress.unwrap().progress
}

/// Every step of a plan that reports progress reports at least `m`.
pub open spec fn plan_at_least(plan: Seq<PlannedStep>, m: u32) -> bool {
    forall|i: int| 0 <= i < plan.len() && (#[trigger] plan[i]).progress is Some ==> plan[i].progress.unwrap().progress >= m
}

/// Every step of a plan that reports progress reports at most `m`.
pub open spec fn plan_at_most(plan: Seq<PlannedStep>, m: u32) -> bool {
    forall|i: int| 0 <= i < plan.len() && (#[trigger] plan[i]).progress is Some ==> plan[i].progress.unwrap().progress <= m
}

/// The progress reports of a plan are in order.
pub open spec fn plan_ordered(plan: Seq<PlannedStep>) -> bool {
    plan_sorted(plan) && plan_at_most(plan, plan_max(plan))
}

pub open spec fn plan_well_formed(plan: Seq<PlannedStep>) -> bool {
    forall|i: int| 0 <= i < plan.len() ==> step_in_plan(#[trigger] plan[i])
}

/// No step of the plan touches the network or the cache.
pub open spec fn plan_network_free(plan: Seq<PlannedStep>) -> bool {
    forall|i: int| 0 <= i < plan.len() ==> !(#[trigger] plan[i]).action.uses_network()
}

/// Every subprocess of the plan is best-effort.
pub open spec fn plan_tools_tolerated(plan: Seq<PlannedStep>) -> bool {
    forall|i: int| 0 <= i < plan.len() ==> ((#[trigger] plan[i]).action is RunTool ==> plan[i].on_failure == OnFailure::Ignore)
}

/// Every download of the plan is skipped when the cache supplied the archive.
pub open spec fn plan_downloads_on_miss_only(plan: Seq<PlannedStep>) -> bool {
    forall|i: int| 0 <= i < plan.len() ==> ((#[trigger] plan[i]).action is Download ==> plan[i].miss_only)
}

pub open spec fn terminal_count(h: Seq<ProgressStage>) -> nat
    decreases h.len(),
{
    if h.len() == 0 {
        0
    } else {
        terminal_count(h.drop_last()) + if h.last().spec_is_terminal() {
            1nat
        } else {
            0nat
        }
    }
}

/// The stages reported so far, after a step with `p` is handed out.
pub open spec fn after_report(h: Seq<ProgressStage>, p: Option<TemplateProgress>) -> Seq<ProgressStage> {
    match p {
        Some(t) => h.push(t.stage),
        None => h,
    }
}

/// A finishing step: its report is terminal and agrees with the result.
pub open spec fn finishing_step(step: ScaffoldStep) -> bool {
    &&& step.action is Finish
    &&& step.progress is Some
    &&& match step.action {
        ScaffoldAction::Finish(Ok(_)) => {
            &&& step.progress.unwrap().stage == ProgressStage::Complete
            &&& step.progress.unwrap().progress == PROGRESS_SCALE
            &&& step.progress.unwrap().message@ == "Project created successfully!"@
        },
        ScaffoldAction::Finish(Err(e)) => {
            &&& step.progress.unwrap().stage == ProgressStage::Error
            &&& step.progress.unwrap().progress == 0
            &&& step.progress.unwrap().message == e.spec_message()
        },
        _ => false,
    }
}

/// A step that keeps the run going: no terminal report.
pub open spec fn ongoing_step(step: ScaffoldStep) -> bool {
    &&& !step.action.is_finish()
    &&& match step.progress {
        Some(t) => !t.stage.spec_is_terminal(),
        None => true,
    }
}

/// Appends a non-terminal step to a plan, keeping the plan's properties.
fn push_step(plan: &mut Vec<PlannedStep>, progress: Option<TemplateProgress>, action: ScaffoldAction, on_failure: OnFailure, miss_only: bool)
    requires
        !action.is_finish(),
        match progress {
            Some(t) => !t.stage.spec_is_terminal() && t.progress <= PROGRESS_SCALE,
            None => true,
        },
    ensures
        final(plan)@ == old(plan)@.push(PlannedStep { progress, action, on_failure, miss_only }),
        plan_max(final(plan)@) == match progress {
            Some(t) => if t.progress > plan_max(old(plan)@) {
                t.progress
            } else {
                plan_max(old(plan)@)
            },
            None => plan_max(old(plan)@),
        },
        plan_ordered(old(plan)@) && (progress is Some ==> progress.unwrap().progress >= plan_max(old(plan)@))
            ==> plan_ordered(final(plan)@),
        plan_well_formed(old(plan)@) ==> plan_well_formed(final(plan)@),
        plan_network_free(old(plan)@) && !action.uses_network() ==> plan_network_free(final(plan)@),
        plan_tools_tolerated(old(plan)@) && (action is RunTool ==> on_failure == OnFailure::Ignore)
            ==> plan_tools_tolerated(final(plan)@),
        plan_downloads_on_miss_only(old(plan)@) && (action is Download ==> miss_only)
            ==> plan_downloads_on_miss_only(final(plan)@),
        written_files(final(plan)@) == match action {
            ScaffoldAction::WriteFile { path, contents } => written_files(old(plan)@).push((path@, contents@)),
            _ => written_files(old(plan)@),
        },
        created_dirs(final(plan)@) == match action {
            ScaffoldAction::CreateDir { path } => created_dirs(old(plan)@).push(path@),
            _ => created_dirs(old(plan)@),
        },
        tool_runs(final(plan)@) == match action {
            ScaffoldAction::RunTool { program, args, cwd } => tool_runs(old(plan)@).push((program@, texts_view(args@), cwd@)),
            _ => tool_runs(old(plan)@),
        },
{
    let ghost before = plan@;
    plan.push(PlannedStep { progress, action, on_failure, miss_only });
    proof {
        assert forall|i: int| 0 <= i < plan@.len() - 1 implies #[trigger] plan@[i] == before[i] by {}
        assert(plan@.drop_last() =~= before);
        if plan_ordered(before) && (progress is Some ==> progress.unwrap().progress >= plan_max(before)) {
            let n = before.len() as int;
            assert forall|i: int| 0 <= i < plan@.len() && (#[trigger] plan@[i]).progress is Some implies plan@[i].progress.unwrap().progress
                <= plan_max(plan@) by {
                if i < n {
                    assert(plan@[i] == before[i]);
                }
            }
            assert forall|i: int, j: int|
                0 <= i < j < plan@.len() && plan@[i].progress is Some && plan@[j].progress is Some implies (#[trigger] plan@[i]).progress.unwrap().progress
                <= (#[trigger] plan@[j]).progress.unwrap().progress by {
                assert(plan@[i] == before[i]);
                if j < n {
                    assert(plan@[j] == before[j]);
                }
            }
        }
    }
}

/// Writes `contents` to `name` inside `dir`; a failure aborts the run.
fn push_write(plan: &mut Vec<PlannedStep>, dir: &str, name: &str, contents: &str)
    ensures
        final(plan)@.len() == old(plan)@.len() + 1,
        written_files(final(plan)@) == written_files(old(plan)@).push((joined(dir@, name@), contents@)),
        plan_well_formed(old(plan)@) ==> plan_well_formed(final(plan)@),
        plan_network_free(old(plan)@) ==> plan_network_free(final(plan)@),
        plan_tools_tolerated(old(plan)@) ==> plan_tools_tolerated(final(plan)@),
        plan_downloads_on_miss_only(old(plan)@) ==> plan_downloads_on_miss_only(final(plan)@),
        plan_max(final(plan)@) == plan_max(old(plan)@),
        plan_ordered(old(plan)@) ==> plan_ordered(final(plan)@),
        created_dirs(final(plan)@) == created_dirs(old(plan)@),
        tool_runs(final(plan)@) == tool_runs(old(plan)@),
{
    let path = join_path(dir, name);
    push_step(plan, None, ScaffoldAction::WriteFile { path, contents: contents.to_owned() }, OnFailure::Abort(FailureKind::Io), false);
}

/// A command with its arguments.
fn tool(program: &str, args: &[&str], cwd: &str) -> (r: ScaffoldAction)
    ensures
        runs(r, program@, strs_view(args@), cwd@),
{
    let mut v: Vec<String> = Vec::new();
    let mut i: usize = 0;
    while i < args.len()
        invariant
            i <= args@.len(),
            v@.len() == i,
            texts_view(v@) == strs_view(args@.subrange(0, i as int)),
        decreases args@.len() - i,
    {
        let ghost before = v@;
        v.push(args[i].to_owned());
        proof {
            assert forall|j: int| 0 <= j < i + 1 implies #[trigger] texts_view(v@)[j]
                == strs_view(args@.subrange(0, i + 1))[j] by {
                if j < i {
                    assert(v@[j] == before[j]);
                    assert(texts_view(before)[j] == strs_view(args@.subrange(0, i as int))[j]);
                }
            }
            assert(texts_view(v@) =~= strs_view(args@.subrange(0, i + 1)));
        }
        i = i + 1;
    }
    proof {
        assert(args@.subrange(0, i as int) =~= args@);
    }
    ScaffoldAction::RunTool { program: program.to_owned(), args: v, cwd: cwd.to_owned() }
}

/// The texts of a sequence of strings.
pub open spec fn texts_view(v: Seq<String>) -> Seq<Seq<char>> {
    v.map_values(|a: String| a@)
}

pub open spec fn strs_view(v: Seq<&str>) -> Seq<Seq<char>> {
    v.map_values(|a: &str| a@)
}

/// `a` runs `program` with `args` in `cwd`.
pub open spec fn runs(a: ScaffoldAction, program: Seq<char>, args: Seq<Seq<char>>, cwd: Seq<char>) -> bool {
    match a {
        ScaffoldAction::RunTool { program: p, args: v, cwd: c } => p@ == program && texts_view(v@) == args
            && c@ == cwd,
        _ => false,
    }
}

/// The files that a plan writes, with their contents, in order.
pub open spec fn written_files(plan: Seq<PlannedStep>) -> Seq<(Seq<char>, Seq<char>)>
    decreases plan.len(),
{
    if plan.len() == 0 {
        Seq::empty()
    } else {
        let w = written_files(plan.drop_last());
        match plan.last().action {
            ScaffoldAction::WriteFile { path, contents } => w.push((path@, contents@)),
            _ => w,
        }
    }
}

/// The directories that a plan creates, in order.
pub open spec fn created_dirs(plan: Seq<PlannedStep>) -> Seq<Seq<char>>
    decreases plan.len(),
{
    if plan.len() == 0 {
        Seq::empty()
    } else {
        let w = created_dirs(plan.drop_last());
        match plan.last().action {
            ScaffoldAction::CreateDir { path } => w.push(path@),
            _ => w,
        }
    }
}

/// The subprocesses that a plan runs (program, arguments, directory), in order.
pub open spec fn tool_runs(plan: Seq<PlannedStep>) -> Seq<(Seq<char>, Seq<Seq<char>>, Seq<char>)>
    decreases plan.len(),
{
    if plan.len() == 0 {
        Seq::empty()
    } else {
        let w = tool_runs(plan.drop_last());
        match plan.last().action {
            ScaffoldAction::RunTool { program, args, cwd } => w.push((program@, texts_view(args@), cwd@)),
            _ => w,
        }
    }
}

/// The directories that an inline template creates.
pub open spec fn inline_dirs(id: Seq<char>, full: Seq<char>) -> Seq<Seq<char>> {
    if id == "react-vite"@ || id == "node-express"@ {
        seq![full, joined(full, "src"@)]
    } else {
        seq![full, joined(full, "app"@)]
    }
}

/// The best-effort dependency installs of an inline template.
pub open spec fn inline_installs(id: Seq<char>, full: Seq<char>) -> Seq<(Seq<char>, Seq<Seq<char>>, Seq<char>)> {
    if id == "react-vite"@ || id == "node-express"@ {
        seq![("npm"@, seq!["install"@], full)]
    } else {
        seq![
            ("python"@, seq!["-m"@, "venv"@, "venv"@], full),
            ("venv\\Scripts\\pip"@, seq!["install"@, "-r"@, "requirements.txt"@], full),
        ]
    }
}

/// The files that an inline template writes into `full`, with contents.
pub open spec fn inline_files(id: Seq<char>, name: Seq<char>, full: Seq<char>) -> Seq<(Seq<char>, Seq<char>)> {
    if id == "react-vite"@ {
        let src = joined(full, "src"@);
        seq![
            (joined(full, "package.json"@), REACT_VITE_PACKAGE_JSON@),
            (joined(full, "tsconfig.json"@), REACT_VITE_TSCONFIG@),
            (joined(full, "tsconfig.node.json"@), REACT_VITE_TSCONFIG_NODE@),
            (joined(full, "vite.config.ts"@), REACT_VITE_CONFIG@),
            (joined(full, "index.html"@), REACT_VITE_INDEX_HTML@),
            (joined(src, "main.tsx"@), REACT_VITE_MAIN_TSX@),
            (joined(src, "App.tsx"@), REACT_VITE_APP_TSX@),
            (joined(src, "index.css"@), "@tailwind base;\n@tailwind components;\n@tailwind utilities;\n"@),
            (joined(src, "vite-env.d.ts"@), "/// <reference types=\"vite/client\" />"@),
            (joined(full, ".gitignore"@), "node_modules\ndist\n.env\n.DS_Store\n"@),
        ]
    } else if id == "node-express"@ {
        seq![
            (joined(full, "package.json"@), EXPRESS_PACKAGE_JSON@),
            (joined(full, "tsconfig.json"@), EXPRESS_TSCONFIG@),
            (joined(full, ".gitignore"@), "node_modules\ndist\n.env\n"@),
            (joined(full, "README.md"@), "# "@ + name + EXPRESS_README_BODY@),
            (joined(joined(full, "src"@), "index.ts"@), EXPRESS_INDEX_TS@),
        ]
    } else {
        seq![
            (joined(full, "requirements.txt"@), "fastapi>=0.104.0\nuvicorn[standard]>=0.24.0\npydantic>=2.5.0\n"@),
            (joined(full, ".gitignore"@), "__pycache__/\nvenv/\n.env\n*.pyc\n"@),
            (joined(full, "README.md"@), "# "@ + name + FASTAPI_README_BODY@),
            (joined(joined(full, "app"@), "main.py"@), FASTAPI_MAIN_PY@),
        ]
    }
}

/// The step at `i` runs `program` with `args` in `cwd`, and its failure ends
/// the run as a tool failure.
pub open spec fn runs_generator(plan: Seq<PlannedStep>, i: int, program: Seq<char>, args: Seq<Seq<char>>, cwd: Seq<char>) -> bool {
    runs(plan[i].action, program, args, cwd) && plan[i].on_failure == OnFailure::Abort(FailureKind::Tool)
}

/// The steps of each generator-backed template.
pub open spec fn generator_steps(plan: Seq<PlannedStep>, id: Seq<char>, name: Seq<char>, location: Seq<char>, full: Seq<char>) -> bool {
    if id == "react-nextjs"@ {
        plan.len() == 1 && runs_generator(plan, 0, "npx"@,
            seq!["create-next-app@latest"@, name, "--typescript"@, "--tailwind"@, "--app"@, "--no-git"@], location)
    } else if id == "vue-vite"@ {
        plan.len() == 1 && runs_generator(plan, 0, "npm"@, seq!["create"@, "vite@latest"@, name, "--"@, "--template"@, "vue-ts"@],
            location)
    } else if id == "angular"@ {
        plan.len() == 1 && runs_generator(plan, 0, "npx"@, seq!["@angular/cli@latest"@, "new"@, name, "--skip-git"@], location)
    } else if id == "django"@ {
        &&& plan.len() == 2
        &&& runs_generator(plan, 0, "pip"@, seq!["install"@, "django"@], location)
        &&& runs_generator(plan, 1, "django-admin"@, seq!["startproject"@, name], location)
    } else if id == "rust-actix"@ {
        &&& plan.len() == 2
        &&& runs_generator(plan, 0, "cargo"@, seq!["new"@, name], location)
        &&& match plan[1].action {
            ScaffoldAction::AppendFile { path, contents } => path@ == joined(full, "Cargo.toml"@) && contents@
                == "\nactix-web = \"4.0\"\n"@,
            _ => false,
        }
    } else {
        plan.len() == 1 && runs_generator(plan, 0, "npm"@,
            seq!["create"@, "tauri-app@latest"@, name, "--"@, "--template"@, "react-ts"@], location)
    }
}

/// The retry limits of a template download: 3 retries, pauses from 1 s doubling up to 8 s.
pub open spec fn download_retry() -> RetryConfig {
    RetryConfig { max_retries: 3, initial_delay_ms: 1000, max_delay_ms: 8000 }
}

/// The steps of the Spring Boot template.
pub open spec fn springboot_steps(plan: Seq<PlannedStep>, name: Seq<char>, location: Seq<char>, full: Seq<char>, archive: Seq<char>) -> bool {
    let url = springboot_url(name);
    let version = crate::version::cache_version_of(url);
    &&& plan.len() == 7
    &&& match plan[0].action {
        ScaffoldAction::CreateDir { path } => path@ == location,
        _ => false,
    }
    &&& match plan[1].action {
        ScaffoldAction::LookupCache { template_id, version: v } => template_id@ == "springboot"@ && v@ == version,
        _ => false,
    }
    &&& match plan[2].action {
        ScaffoldAction::Download { url: u, dest, retry } => u@ == url && dest@ == archive && retry == download_retry(),
        _ => false,
    }
    &&& match plan[3].action {
        ScaffoldAction::StoreCache { template_id, version: v, file } => template_id@ == "springboot"@ && v@ == version
            && file@ == archive,
        _ => false,
    }
    &&& match plan[4].action {
        ScaffoldAction::Extract { archive: a, dest } => a@ == archive && dest@ == location,
        _ => false,
    }
    &&& match plan[5].action {
        ScaffoldAction::RemoveFile { path } => path@ == archive,
        _ => false,
    }
    &&& match plan[6].action {
        ScaffoldAction::CheckDir { path } => path@ == full,
        _ => false,
    }
    &&& plan[0].on_failure == OnFailure::Abort(FailureKind::Io)
    &&& plan[1].on_failure == OnFailure::Ignore
    &&& plan[2].on_failure == OnFailure::Abort(FailureKind::Network)
    &&& plan[3].on_failure == OnFailure::Ignore
    &&& plan[4].on_failure == OnFailure::Abort(FailureKind::Tool)
    &&& plan[5].on_failure == OnFailure::Ignore
    &&& plan[6].on_failure == OnFailure::Abort(FailureKind::Postcondition)
    &&& plan[2].miss_only && plan[3].miss_only
    &&& !plan[0].miss_only && !plan[1].miss_only && !plan[4].miss_only && !plan[5].miss_only && !plan[6].miss_only
}

/// Properties of a plan that writes files locally.
pub open spec fn local_plan(plan: Seq<PlannedStep>) -> bool {
    &&& plan_well_formed(plan)
    &&& plan_ordered(plan)
    &&& plan_network_free(plan)
}

/// The inline React + Vite project.
fn react_vite_plan(full_path: &str) -> (r: Vec<PlannedStep>)
    ensures
        local_plan(r@),
        written_files(r@) == inline_files("react-vite"@, Seq::empty(), full_path@),
        created_dirs(r@) == inline_dirs("react-vite"@, full_path@),
        tool_runs(r@) == inline_installs("react-vite"@, full_path@),
        plan_tools_tolerated(r@),
{
    let mut plan: Vec<PlannedStep> = Vec::new();
    push_step(&mut plan, Some(TemplateProgress::downloading(100, "Creating project structure...".to_owned())),
        ScaffoldAction::CreateDir { path: full_path.to_owned() }, OnFailure::Abort(FailureKind::Io), false);
    push_write(&mut plan, full_path, "package.json", REACT_VITE_PACKAGE_JSON);
    push_write(&mut plan, full_path, "tsconfig.json", REACT_VITE_TSCONFIG);
    push_write(&mut plan, full_path, "tsconfig.node.json", REACT_VITE_TSCONFIG_NODE);
    push_write(&mut plan, full_path, "vite.config.ts", REACT_VITE_CONFIG);
    push_write(&mut plan, full_path, "index.html", REACT_VITE_INDEX_HTML);
    let src = join_path(full_path, "src");
    push_step(&mut plan, None, ScaffoldAction::CreateDir { path: src.clone() }, OnFailure::Abort(FailureKind::Io), false);
    push_write(&mut plan, src.as_str(), "main.tsx", REACT_VITE_MAIN_TSX);
    push_write(&mut plan, src.as_str(), "App.tsx", REACT_VITE_APP_TSX);
    push_write(&mut plan, src.as_str(), "index.css", "@tailwind base;\n@tailwind components;\n@tailwind utilities;\n");
    push_write(&mut plan, src.as_str(), "vite-env.d.ts", "/// <reference types=\"vite/client\" />");
    push_write(&mut plan, full_path, ".gitignore", "node_modules\ndist\n.env\n.DS_Store\n");
    let install = ["install"];
    proof {
        assert(strs_view(install@) =~= seq!["install"@]);
    }
    push_step(&mut plan, Some(TemplateProgress::installing(800, "Installing dependencies...".to_owned())),
        tool("npm", &install, full_path), OnFailure::Ignore, false);
    plan
}

/// The inline Express + TypeScript API.
fn node_express_plan(full_path: &str, project_name: &str) -> (r: Vec<PlannedStep>)
    ensures
        local_plan(r@),
        written_files(r@) == inline_files("node-express"@, project_name@, full_path@),
        created_dirs(r@) == inline_dirs("node-express"@, full_path@),
        tool_runs(r@) == inline_installs("node-express"@, full_path@),
        plan_tools_tolerated(r@),
{
    proof {
        reveal_strlit("node-express");
        reveal_strlit("react-vite");
        assert("node-express"@.len() != "react-vite"@.len());
    }
    let mut plan: Vec<PlannedStep> = Vec::new();
    push_step(&mut plan, Some(TemplateProgress::downloading(100, "Creating project structure...".to_owned())),
        ScaffoldAction::CreateDir { path: full_path.to_owned() }, OnFailure::Abort(FailureKind::Io), false);
    push_write(&mut plan, full_path, "package.json", EXPRESS_PACKAGE_JSON);
    push_write(&mut plan, full_path, "tsconfig.json", EXPRESS_TSCONFIG);
    push_write(&mut plan, full_path, ".gitignore", "node_modules\ndist\n.env\n");
    let readme = titled(project_name, EXPRESS_README_BODY);
    push_write(&mut plan, full_path, "README.md", readme.as_str());
    let src = join_path(full_path, "src");
    push_step(&mut plan, None, ScaffoldAction::CreateDir { path: src.clone() }, OnFailure::Abort(FailureKind::Io), false);
    push_write(&mut plan, src.as_str(), "index.ts", EXPRESS_INDEX_TS);
    let install = ["install"];
    proof {
        assert(strs_view(install@) =~= seq!["install"@]);
    }
    push_step(&mut plan, Some(TemplateProgress::installing(800, "Installing dependencies...".to_owned())),
        tool("npm", &install, full_path), OnFailure::Ignore, false);
    plan
}

/// The inline FastAPI project.
fn fastapi_plan(full_path: &str, project_name: &str) -> (r: Vec<PlannedStep>)
    ensures
        local_plan(r@),
        forall|id: Seq<char>| id != "react-vite"@ && id != "node-express"@ ==> written_files(r@) == #[trigger] inline_files(id, project_name@, full_path@),
        forall|id: Seq<char>| id != "react-vite"@ && id != "node-express"@ ==> created_dirs(r@) == #[trigger] inline_dirs(id, full_path@),
        forall|id: Seq<char>| id != "react-vite"@ && id != "node-express"@ ==> tool_runs(r@) == #[trigger] inline_installs(id, full_path@),
        plan_tools_tolerated(r@),
{
    let mut plan: Vec<PlannedStep> = Vec::new();
    push_step(&mut plan, Some(TemplateProgress::downloading(100, "Creating project structure...".to_owned())),
        ScaffoldAction::CreateDir { path: full_path.to_owned() }, OnFailure::Abort(FailureKind::Io), false);
    push_write(&mut plan, full_path, "requirements.txt", "fastapi>=0.104.0\nuvicorn[standard]>=0.24.0\npydantic>=2.5.0\n");
    push_write(&mut plan, full_path, ".gitignore", "__pycache__/\nvenv/\n.env\n*.pyc\n");
    let readme = titled(project_name, FASTAPI_README_BODY);
    push_write(&mut plan, full_path, "README.md", readme.as_str());
    let app = join_path(full_path, "app");
    push_step(&mut plan, None, ScaffoldAction::CreateDir { path: app.clone() }, OnFailure::Abort(FailureKind::Io), false);
    push_write(&mut plan, app.as_str(), "main.py", FASTAPI_MAIN_PY);
    let venv = ["-m", "venv", "venv"];
    let install = ["install", "-r", "requirements.txt"];
    proof {
        assert(strs_view(venv@) =~= seq!["-m"@, "venv"@, "venv"@]);
        assert(strs_view(install@) =~= seq!["install"@, "-r"@, "requirements.txt"@]);
    }
    push_step(&mut plan, Some(TemplateProgress::installing(800, "Setting up virtual environment...".to_owned())),
        tool("python", &venv, full_path), OnFailure::Ignore, false);
    push_step(&mut plan, None, tool("venv\\Scripts\\pip", &install, full_path), OnFailure::Ignore, false);
    plan
}

/// `# <name>` followed by `body`.
fn titled(project_name: &str, body: &str) -> (r: String)
    ensures
        r@ == "# "@ + project_name@ + body@,
{
    crate::text::concat2("# ", project_name).concat(body)
}

/// A plan that runs one generator in `location`; its failure aborts the run.
fn generator_plan(progress: TemplateProgress, program: &str, args: &[&str], location: &str) -> (r: Vec<PlannedStep>)
    requires
        !progress.stage.spec_is_terminal(),
        progress.progress <= PROGRESS_SCALE,
    ensures
        local_plan(r@),
        r@.len() == 1,
        runs_generator(r@, 0, program@, strs_view(args@), location@),
{
    let mut plan: Vec<PlannedStep> = Vec::new();
    push_step(&mut plan, Some(progress), tool(program, args, location), OnFailure::Abort(FailureKind::Tool), false);
    plan
}

/// The plan of a template backed by a third-party generator.
fn external_tool_plan(template_id: &str, project_name: &str, location: &str, full_path: &str) -> (r: Vec<PlannedStep>)
    ensures
        local_plan(r@),
        generator_steps(r@, template_id@, project_name@, location@, full_path@),
{
    let name = project_name;
    if same_text(template_id, "react-nextjs") {
        let args = ["create-next-app@latest", name, "--typescript", "--tailwind", "--app", "--no-git"];
        proof {
            assert(strs_view(args@) =~= seq!["create-next-app@latest"@, name@, "--typescript"@, "--tailwind"@, "--app"@, "--no-git"@]);
        }
        generator_plan(TemplateProgress::downloading(200, "Running create-next-app...".to_owned()), "npx", &args, location)
    } else if same_text(template_id, "vue-vite") {
        let args = ["create", "vite@latest", name, "--", "--template", "vue-ts"];
        proof {
            assert(strs_view(args@) =~= seq!["create"@, "vite@latest"@, name@, "--"@, "--template"@, "vue-ts"@]);
        }
        generator_plan(TemplateProgress::downloading(200, "Creating Vue project...".to_owned()), "npm", &args, location)
    } else if same_text(template_id, "angular") {
        let args = ["@angular/cli@latest", "new", name, "--skip-git"];
        proof {
            assert(strs_view(args@) =~= seq!["@angular/cli@latest"@, "new"@, name@, "--skip-git"@]);
        }
        generator_plan(TemplateProgress::downloading(200, "Creating Angular project...".to_owned()), "npx", &args, location)
    } else if same_text(template_id, "django") {
        let install = ["install", "django"];
        let start = ["startproject", name];
        proof {
            assert(strs_view(install@) =~= seq!["install"@, "django"@]);
            assert(strs_view(start@) =~= seq!["startproject"@, name@]);
        }
        let mut plan: Vec<PlannedStep> = Vec::new();
        push_step(&mut plan, Some(TemplateProgress::installing(200, "Installing Django...".to_owned())),
            tool("pip", &install, location), OnFailure::Abort(FailureKind::Tool), false);
        push_step(&mut plan, Some(TemplateProgress::downloading(500, "Creating Django project...".to_owned())),
            tool("django-admin", &start, location), OnFailure::Abort(FailureKind::Tool), false);
        plan
    } else if same_text(template_id, "rust-actix") {
        let args = ["new", name];
        proof {
            assert(strs_view(args@) =~= seq!["new"@, name@]);
        }
        let mut plan = generator_plan(TemplateProgress::downloading(200, "Creating Cargo project...".to_owned()), "cargo",
            &args, location);
        let manifest = join_path(full_path, "Cargo.toml");
        push_step(&mut plan, None, ScaffoldAction::AppendFile { path: manifest, contents: "\nactix-web = \"4.0\"\n".to_owned() },
            OnFailure::Abort(FailureKind::Io), false);
        plan
    } else {
        let args = ["create", "tauri-app@latest", name, "--", "--template", "react-ts"];
        proof {
            assert(strs_view(args@) =~= seq!["create"@, "tauri-app@latest"@, name@, "--"@, "--template"@, "react-ts"@]);
        }
        generator_plan(TemplateProgress::downloading(200, "Creating Tauri project...".to_owned()), "npm", &args, location)
    }
}

/// The archive-generation request for a Spring Boot project named `name`.
pub open spec fn springboot_url(name: Seq<char>) -> Seq<char> {
    "https://start.spring.io/starter.zip?type=maven-project&language=java&baseDir="@ + name
        + "&groupId=com.example&artifactId="@ + name + "&name="@ + name
        + "&description=Demo+project&packageName=com.example."@ + name
        + "&packaging=jar&javaVersion=17&dependencies=web,data-jpa"@
}

pub fn springboot_request_url(project_name: &str) -> (r: String)
    ensures
        r@ == springboot_url(project_name@),
{
    let mut u = "https://start.spring.io/starter.zip?type=maven-project&language=java&baseDir=".to_owned();
    u.append(project_name);
    u.append("&groupId=com.example&artifactId=");
    u.append(project_name);
    u.append("&name=");
    u.append(project_name);
    u.append("&description=Demo+project&packageName=com.example.");
    u.append(project_name);
    u.append("&packaging=jar&javaVersion=17&dependencies=web,data-jpa");
    u
}

/// The template id under which generated Spring Boot archives are cached.
pub const SPRINGBOOT_ID: &'static str = "springboot";

/// The plan of the Spring Boot template: look the archive up in the cache,
/// download and cache it on a miss, extract it, and check the result.
fn springboot_plan(project_name: &str, location: &str, full_path: &str, archive: &str) -> (r: Vec<PlannedStep>)
    ensures
        plan_well_formed(r@),
        plan_ordered(r@),
        springboot_steps(r@, project_name@, location@, full_path@, archive@),
        plan_downloads_on_miss_only(r@),
{
    let url = springboot_request_url(project_name);
    let version = crate::version::cache_version(url.as_str());
    let mut plan: Vec<PlannedStep> = Vec::new();
    proof {
        assert(SPRINGBOOT_ID@ == "springboot"@);
    }
    push_step(&mut plan, Some(TemplateProgress::initializing("Creating Spring Boot project...".to_owned())),
        ScaffoldAction::CreateDir { path: location.to_owned() }, OnFailure::Abort(FailureKind::Io), false);
    push_step(&mut plan, Some(TemplateProgress::downloading(100, "Checking the template cache...".to_owned())),
        ScaffoldAction::LookupCache { template_id: SPRINGBOOT_ID.to_owned(), version: version.clone() }, OnFailure::Ignore, false);
    push_step(&mut plan, Some(TemplateProgress::downloading(200, "Downloading Spring Boot template...".to_owned())),
        ScaffoldAction::Download { url, dest: archive.to_owned(), retry: RetryConfig::default() }, OnFailure::Abort(FailureKind::Network), true);
    push_step(&mut plan, None,
        ScaffoldAction::StoreCache { template_id: SPRINGBOOT_ID.to_owned(), version, file: archive.to_owned() }, OnFailure::Ignore, true);
    push_step(&mut plan, Some(TemplateProgress::extracting(600, "Extracting files...".to_owned())),
        ScaffoldAction::Extract { archive: archive.to_owned(), dest: location.to_owned() }, OnFailure::Abort(FailureKind::Tool), false);
    push_step(&mut plan, None, ScaffoldAction::RemoveFile { path: archive.to_owned() }, OnFailure::Ignore, false);
    push_step(&mut plan, Some(TemplateProgress::installing(900, "Verifying project structure...".to_owned())),
        ScaffoldAction::CheckDir { path: full_path.to_owned() }, OnFailure::Abort(FailureKind::Postcondition), false);
    plan
}

/// Position of the next step to hand out: steps that only matter on a cache
/// miss are passed over once the cache supplied the archive.
pub open spec fn next_index(plan: Seq<PlannedStep>, hit: bool) -> int
    decreases plan.len(),
{
    if plan.len() == 0 {
        0
    } else if hit && plan[0].miss_only {
        1 + next_index(plan.subrange(1, plan.len() as int), hit)
    } else {
        0
    }
}

proof fn lemma_next_index(plan: Seq<PlannedStep>, hit: bool)
    ensures
        0 <= next_index(plan, hit) <= plan.len(),
        next_index(plan, hit) < plan.len() ==> !(hit && plan[next_index(plan, hit)].miss_only),
    decreases plan.len(),
{
    if plan.len() > 0 && hit && plan[0].miss_only {
        let rest = plan.subrange(1, plan.len() as int);
        lemma_next_index(rest, hit);
        if next_index(plan, hit) < plan.len() {
            assert(plan[next_index(plan, hit)] == rest[next_index(rest, hit)]);
        }
    }
}

proof fn lemma_terminal_count_push(h: Seq<ProgressStage>, x: ProgressStage)
    ensures
        terminal_count(h.push(x)) == terminal_count(h) + if x.spec_is_terminal() {
            1nat
        } else {
            0nat
        },
{
    assert(h.push(x).drop_last() =~= h);
}

proof fn lemma_plan_suffix(plan: Seq<PlannedStep>, k: int)
    requires
        0 <= k <= plan.len(),
    ensures
        plan_well_formed(plan) ==> plan_well_formed(plan.subrange(k, plan.len() as int)),
        plan_network_free(plan) ==> plan_network_free(plan.subrange(k, plan.len() as int)),
        plan_tools_tolerated(plan) ==> plan_tools_tolerated(plan.subrange(k, plan.len() as int)),
        plan_downloads_on_miss_only(plan) ==> plan_downloads_on_miss_only(plan.subrange(k, plan.len() as int)),
        plan_sorted(plan) ==> plan_sorted(plan.subrange(k, plan.len() as int)),
        forall|m: u32| plan_at_least(plan, m) ==> plan_at_least(#[trigger] plan.subrange(k, plan.len() as int), m),
        plan_sorted(plan) && k > 0 && plan[k - 1].progress is Some ==> plan_at_least(
            plan.subrange(k, plan.len() as int),
            plan[k - 1].progress.unwrap().progress,
        ),
{
    let t = plan.subrange(k, plan.len() as int);
    assert forall|i: int| 0 <= i < t.len() implies #[trigger] t[i] == plan[i + k] by {}
    if plan_sorted(plan) {
        assert forall|i: int, j: int|
            0 <= i < j < t.len() && t[i].progress is Some && t[j].progress is Some implies (#[trigger] t[i]).progress.unwrap().progress
            <= (#[trigger] t[j]).progress.unwrap().progress by {
            assert(t[i] == plan[i + k] && t[j] == plan[j + k]);
        }
        if k > 0 && plan[k - 1].progress is Some {
            assert forall|i: int| 0 <= i < t.len() && (#[trigger] t[i]).progress is Some implies t[i].progress.unwrap().progress
                >= plan[k - 1].progress.unwrap().progress by {
                assert(t[i] == plan[i + k]);
            }
        }
    }
    assert forall|m: u32| plan_at_least(plan, m) implies plan_at_least(#[trigger] plan.subrange(k, plan.len() as int), m) by {
        assert forall|i: int| 0 <= i < t.len() && (#[trigger] t[i]).progress is Some implies t[i].progress.unwrap().progress >= m by {
            assert(t[i] == plan[i + k]);
        }
    }
}

/// A run is aborted by a failure of a step whose failure is fatal.
pub open spec fn aborts(policy: OnFailure, lookup: bool, outcome: StepOutcome) -> bool {
    !lookup && outcome is Failed && policy is Abort
}

/// The text of the error that ends a run aborted with `kind`.
pub open spec fn failure_text(kind: FailureKind, reported: Seq<char>, full_path: Seq<char>) -> Seq<char> {
    if kind == FailureKind::Postcondition {
        "Project directory was not created at expected path: "@ + full_path
    } else {
        reported
    }
}

/// One scaffold run.
pub struct ScaffoldEngine {
    full_path: String,
    archive_path: String,
    remaining: Vec<PlannedStep>,
    awaiting: OnFailure,
    awaiting_lookup: bool,
    cache_hit: bool,
    finished: bool,
    last_progress: u32,
    reported: Ghost<Seq<ProgressStage>>,
}

impl ScaffoldEngine {
    /// The directory the project ends up in.
    pub closed spec fn full_path(&self) -> Seq<char> {
        self.full_path@
    }

    /// Where a downloaded archive is placed.
    pub closed spec fn archive_path(&self) -> Seq<char> {
        self.archive_path@
    }

    /// The steps not handed out yet.
    pub closed spec fn plan(&self) -> Seq<PlannedStep> {
        self.remaining@
    }

    /// What a failure of the step last handed out leads to.
    pub closed spec fn awaiting(&self) -> OnFailure {
        self.awaiting
    }

    /// The step last handed out was a cache lookup.
    pub closed spec fn awaiting_lookup(&self) -> bool {
        self.awaiting_lookup
    }

    /// The cache supplied the archive.
    pub closed spec fn cache_hit(&self) -> bool {
        self.cache_hit
    }

    pub closed spec fn finished(&self) -> bool {
        self.finished
    }

    /// The progress of the latest report other than an error report.
    pub closed spec fn progress_floor(&self) -> u32 {
        self.last_progress
    }

    /// The stages of the progress reports handed out so far.
    pub closed spec fn history(&self) -> Seq<ProgressStage> {
        self.reported@
    }

    /// An upper bound on the steps still to come before the finish.
    pub closed spec fn steps_left(&self) -> nat {
        2 * self.remaining@.len() + if self.awaiting_lookup {
            1nat
        } else {
            0nat
        }
    }

    pub closed spec fn wf(&self) -> bool {
        &&& plan_well_formed(self.remaining@)
        &&& plan_sorted(self.remaining@)
        &&& plan_at_least(self.remaining@, self.last_progress)
        &&& self.last_progress <= PROGRESS_SCALE
        &&& plan_downloads_on_miss_only(self.remaining@)
        &&& terminal_count(self.reported@) == if self.finished {
            1nat
        } else {
            0nat
        }
    }

    pub fn is_finished(&self) -> (r: bool)
        ensures
            r == self.finished(),
    {
        self.finished
    }

    pub fn full_path_text(&self) -> (r: &String)
        ensures
            r@ == self.full_path(),
    {
        &self.full_path
    }

    /// Begins a run. An unknown template id ends it at once with
    /// `InvalidTemplate`; otherwise the first step reports initialisation.
    pub fn start(template_id: &str, project_name: &str, location: &str) -> (r: (ScaffoldEngine, ScaffoldStep))
        ensures
            r.0.wf(),
            r.0.full_path() == joined(location@, project_name@),
            r.0.archive_path() == joined(location@, project_name@ + ".zip"@),
            r.0.history() == after_report(Seq::empty(), r.1.progress),
            plan_well_formed(r.0.plan()),
            plan_sorted(r.0.plan()),
            r.0.progress_floor() == 0,
            r.0.finished() == r.1.action.is_finish(),
            r.1.action.is_finish() ==> finishing_step(r.1),
            !r.1.action.is_finish() ==> ongoing_step(r.1),
            terminal_count(r.0.history()) == if r.0.finished() {
                1nat
            } else {
                0nat
            },
            strategy_of(template_id@) is None <==> r.0.finished(),
            strategy_of(template_id@) is None ==> match r.1.action {
                ScaffoldAction::Finish(Err(ScaffoldError::InvalidTemplate(m))) => m@ == "Unknown template: "@ + template_id@,
                _ => false,
            },
            strategy_of(template_id@) is Some ==> {
                &&& r.1.action is Report
                &&& r.1.progress is Some
                &&& r.1.progress.unwrap().stage == ProgressStage::Initializing
                &&& r.1.progress.unwrap().message@ == "Preparing project..."@
                &&& r.1.progress.unwrap().progress == 0
                &&& r.0.awaiting() == OnFailure::Ignore
                &&& !r.0.awaiting_lookup()
                &&& !r.0.cache_hit()
            },
            strategy_of(template_id@) == Some(Strategy::InlineGeneration) ==> plan_network_free(r.0.plan())
                && plan_tools_tolerated(r.0.plan()),
            strategy_of(template_id@) == Some(Strategy::ExternalTool) ==> plan_network_free(r.0.plan()),
            strategy_of(template_id@) == Some(Strategy::InlineGeneration) ==> written_files(r.0.plan()) == inline_files(
                template_id@,
                project_name@,
                r.0.full_path(),
            ),
            strategy_of(template_id@) == Some(Strategy::InlineGeneration) ==> created_dirs(r.0.plan()) == inline_dirs(
                template_id@,
                r.0.full_path(),
            ) && tool_runs(r.0.plan()) == inline_installs(template_id@, r.0.full_path()),
            strategy_of(template_id@) == Some(Strategy::ExternalTool) ==> generator_steps(
                r.0.plan(),
                template_id@,
                project_name@,
                location@,
                r.0.full_path(),
            ),
            strategy_of(template_id@) == Some(Strategy::NetworkDownload) ==> springboot_steps(
                r.0.plan(),
                project_name@,
                location@,
                r.0.full_path(),
                r.0.archive_path(),
            ),
    {
        let full_path = join_path(location, project_name);
        let zip_name = crate::text::concat2(project_name, ".zip");
        let archive_path = join_path(location, zip_name.as_str());
        let strategy = resolve_strategy(template_id);
        let plan: Vec<PlannedStep> = match strategy {
            None => Vec::new(),
            Some(Strategy::InlineGeneration) => {
                if same_text(template_id, "react-vite") {
                    react_vite_plan(full_path.as_str())
                } else if same_text(template_id, "node-express") {
                    node_express_plan(full_path.as_str(), project_name)
                } else {
                    fastapi_plan(full_path.as_str(), project_name)
                }
            },
            Some(Strategy::ExternalTool) => external_tool_plan(template_id, project_name, location, full_path.as_str()),
            Some(Strategy::NetworkDownload) => springboot_plan(project_name, location, full_path.as_str(), archive_path.as_str()),
        };
        proof {
            assert(plan_downloads_on_miss_only(plan@)) by {
                if strategy != Some(Strategy::NetworkDownload) {
                    assert forall|i: int| 0 <= i < plan@.len() && (#[trigger] plan@[i]).action is Download implies plan@[i].miss_only by {
                        if strategy is Some {
                            assert(!plan@[i].action.uses_network());
                        }
                    }
                }
            }
        }
        let mut engine = ScaffoldEngine {
            full_path,
            archive_path,
            remaining: plan,
            awaiting: OnFailure::Ignore,
            awaiting_lookup: false,
            cache_hit: false,
            finished: false,
            last_progress: 0,
            reported: Ghost(Seq::empty()),
        };
        match strategy {
            None => {
                proof {
                    assert(strategy_of(template_id@) is None);
                }
                let msg = crate::text::concat2("Unknown template: ", template_id);
                let step = engine.finish_with(Err(ScaffoldError::InvalidTemplate(msg)));
                (engine, step)
            },
            Some(_) => {
                let progress = TemplateProgress::initializing("Preparing project...".to_owned());
                proof {
                    lemma_terminal_count_push(engine.reported@, progress.stage);
                }
                engine.reported = Ghost(engine.reported@.push(progress.stage));
                (engine, ScaffoldStep { progress: Some(progress), action: ScaffoldAction::Report })
            },
        }
    }

    /// Ends the run with `result`, reporting `Complete` or `Error`.
    fn finish_with(&mut self, result: Result<String, ScaffoldError>) -> (step: ScaffoldStep)
        requires
            old(self).wf(),
            !old(self).finished(),
            result is Ok ==> old(self).plan().len() == 0,
        ensures
            final(self).wf(),
            final(self).finished(),
            final(self).history() == after_report(old(self).history(), step.progress),
            finishing_step(step),
            step.action == ScaffoldAction::Finish(result),
            step.progress.unwrap().progress == match result {
                Ok(_) => 1000u32,
                Err(_) => 0u32,
            },
            final(self).full_path() == old(self).full_path(),
            final(self).archive_path() == old(self).archive_path(),
            final(self).plan() == old(self).plan(),
            final(self).cache_hit() == old(self).cache_hit(),
            final(self).progress_floor() == match result {
                Ok(_) => PROGRESS_SCALE,
                Err(_) => old(self).progress_floor(),
            },
    {
        let progress = match &result {
            Ok(_) => TemplateProgress::complete("Project created successfully!".to_owned()),
            Err(e) => TemplateProgress::error(e.message()),
        };
        proof {
            lemma_terminal_count_push(self.reported@, progress.stage);
        }
        self.reported = Ghost(self.reported@.push(progress.stage));
        self.finished = true;
        if result.is_ok() {
            self.last_progress = PROGRESS_SCALE;
        }
        ScaffoldStep { progress: Some(progress), action: ScaffoldAction::Finish(result) }
    }

    /// Removes and returns the next step to hand out (see `next_index`).
    fn take_next(&mut self) -> (r: Option<PlannedStep>)
        ensures
            ({
                let plan = old(self).plan();
                let k = next_index(plan, old(self).cache_hit());
                &&& k < plan.len() ==> r == Some(plan[k]) && final(self).plan() == plan.subrange(k + 1, plan.len() as int)
                &&& k >= plan.len() ==> r is None && final(self).plan() == Seq::<PlannedStep>::empty()
            }),
            final(self).full_path() == old(self).full_path(),
            final(self).archive_path() == old(self).archive_path(),
            final(self).cache_hit() == old(self).cache_hit(),
            final(self).finished() == old(self).finished(),
            final(self).history() == old(self).history(),
            final(self).awaiting() == old(self).awaiting(),
            final(self).awaiting_lookup() == old(self).awaiting_lookup(),
            final(self).progress_floor() == old(self).progress_floor(),
    {
        let ghost orig = self.remaining@;
        let ghost n = orig.len() as int;
        let ghost mut j: int = 0;
        let hit = self.cache_hit;
        while self.remaining.len() > 0
            invariant
                0 <= j <= n,
                n == orig.len(),
                orig == old(self).remaining@,
                hit == self.cache_hit,
                hit == old(self).cache_hit,
                self.remaining@ == orig.subrange(j, n),
                next_index(orig, hit) == j + next_index(self.remaining@, hit),
                self.full_path@ == old(self).full_path@,
                self.archive_path@ == old(self).archive_path@,
                self.last_progress == old(self).last_progress,
                self.finished == old(self).finished,
                self.reported@ == old(self).reported@,
                self.awaiting == old(self).awaiting,
                self.awaiting_lookup == old(self).awaiting_lookup,
            decreases self.remaining@.len(),
        {
            let ghost before = self.remaining@;
            let step = self.remaining.remove(0);
            proof {
                assert(self.remaining@ =~= before.subrange(1, before.len() as int));
                assert(step == orig[j]);
            }
            if !(hit && step.miss_only) {
                proof {
                    assert(self.remaining@ =~= orig.subrange(j + 1, n));
                    assert(next_index(before, hit) == 0);
                }
                return Some(step);
            }
            proof {
                assert(next_index(before, hit) == 1 + next_index(before.subrange(1, before.len() as int), hit));
                assert(self.remaining@ =~= orig.subrange(j + 1, n));
                j = j + 1;
            }
        }
        None
    }

    /// Takes the outcome of the step last handed out and returns the next one.
    ///
    /// A failure of a fatal step ends the run with its error; a cache hit
    /// after a lookup leads to copying the cached archive into place;
    /// anything else moves on to the next step of the plan (passing over
    /// download steps after a cache hit), and past the last one the run
    /// ends with the project path.
    pub fn advance(&mut self, outcome: StepOutcome) -> (step: ScaffoldStep)
        requires
            old(self).wf(),
            !old(self).finished(),
        ensures
            final(self).wf(),
            final(self).finished() == step.action.is_finish(),
            final(self).history() == after_report(old(self).history(), step.progress),
            step.action.is_finish() ==> finishing_step(step),
            !step.action.is_finish() ==> ongoing_step(step),
            terminal_count(final(self).history()) == if final(self).finished() {
                1nat
            } else {
                0nat
            },
            !final(self).finished() ==> final(self).steps_left() < old(self).steps_left(),
            final(self).full_path() == old(self).full_path(),
            aborts(old(self).awaiting(), old(self).awaiting_lookup(), outcome) ==> match (old(self).awaiting(), outcome) {
                (OnFailure::Abort(kind), StepOutcome::Failed(msg)) => match step.action {
                    ScaffoldAction::Finish(Err(e)) => e == error_of(kind, e.spec_message())
                        && e.spec_message()@ == failure_text(kind, msg@, old(self).full_path()),
                    _ => false,
                },
                _ => false,
            },
            !aborts(old(self).awaiting(), old(self).awaiting_lookup(), outcome) && old(self).awaiting_lookup()
                && outcome is CacheHit ==> match (outcome, step.action) {
                (StepOutcome::CacheHit(p), ScaffoldAction::CopyFile { from, to }) => {
                    &&& from == p
                    &&& to@ == old(self).archive_path()
                    &&& final(self).plan() == old(self).plan()
                    &&& final(self).awaiting() == OnFailure::Abort(FailureKind::Io)
                    &&& step.progress is Some
                    &&& step.progress.unwrap().stage == ProgressStage::Downloading
                    &&& step.progress.unwrap().progress == old(self).progress_floor()
                    &&& step.progress.unwrap().message@ == "Using cached template..."@
                },
                _ => false,
            },
            !aborts(old(self).awaiting(), old(self).awaiting_lookup(), outcome) && !(old(self).awaiting_lookup()
                && outcome is CacheHit) ==> {
                let plan = old(self).plan();
                let k = next_index(plan, old(self).cache_hit());
                &&& k < plan.len() ==> step.action == plan[k].action && step.progress == plan[k].progress
                    && final(self).plan() == plan.subrange(k + 1, plan.len() as int)
                    && final(self).awaiting() == plan[k].on_failure
                &&& k >= plan.len() ==> match step.action {
                    ScaffoldAction::Finish(Ok(p)) => p@ == old(self).full_path(),
                    _ => false,
                }
            },
            final(self).cache_hit() ==> !(step.action is Download),
            final(self).cache_hit() == (old(self).cache_hit() || (!step.action.is_finish() && old(self).awaiting_lookup()
                && outcome is CacheHit)),
            !step.action.is_finish() ==> final(self).awaiting_lookup() == (step.action is LookupCache),
            match step.action {
                ScaffoldAction::Finish(Ok(p)) => p@ == old(self).full_path(),
                _ => true,
            },
            plan_well_formed(final(self).plan()),
            plan_sorted(final(self).plan()),
            match step.progress {
                Some(t) => t.stage != ProgressStage::Error ==> old(self).progress_floor() <= t.progress
                    && final(self).progress_floor() == t.progress,
                None => final(self).progress_floor() == old(self).progress_floor(),
            },
            plan_network_free(old(self).plan()) ==> plan_network_free(final(self).plan()) && !step.action.uses_network(),
            plan_tools_tolerated(old(self).plan()) ==> plan_tools_tolerated(final(self).plan()),
    {
        let lookup = self.awaiting_lookup;
        let policy = self.awaiting;
        match outcome {
            StepOutcome::Failed(msg) => {
                if !lookup {
                    match policy {
                        OnFailure::Abort(kind) => {
                            let text = match kind {
                                FailureKind::Postcondition => crate::text::concat2(
                                    "Project directory was not created at expected path: ",
                                    self.full_path.as_str(),
                                ),
                                _ => msg,
                            };
                            let err = make_error(kind, text);
                            return self.finish_with(Err(err));
                        },
                        OnFailure::Ignore => {},
                    }
                }
            },
            StepOutcome::CacheHit(path) => {
                if lookup {
                    self.awaiting_lookup = false;
                    self.cache_hit = true;
                    self.awaiting = OnFailure::Abort(FailureKind::Io);
                    let progress = TemplateProgress::downloading(self.last_progress, "Using cached template...".to_owned());
                    proof {
                        lemma_terminal_count_push(self.reported@, progress.stage);
                    }
                    self.reported = Ghost(self.reported@.push(progress.stage));
                    return ScaffoldStep {
                        progress: Some(progress),
                        action: ScaffoldAction::CopyFile { from: path, to: self.archive_path.clone() },
                    };
                }
            },
            _ => {},
        }
        self.awaiting_lookup = false;
        let ghost plan = self.remaining@;
        proof {
            lemma_next_index(plan, self.cache_hit);
        }
        match self.take_next() {
            Some(ps) => {
                proof {
                    let k = next_index(plan, self.cache_hit);
                    lemma_plan_suffix(plan, k + 1);
                    assert(step_in_plan(plan[k]));
                    lemma_terminal_count_push(self.reported@, ps.progress.unwrap().stage);
                    if ps.progress is Some {
                        assert(plan[k].progress.unwrap().progress >= self.last_progress);
                    }
                }
                self.reported = Ghost(after_report(self.reported@, ps.progress));
                match &ps.progress {
                    Some(t) => {
                        self.last_progress = t.progress;
                    },
                    None => {},
                }
                self.awaiting = ps.on_failure;
                self.awaiting_lookup = match &ps.action {
                    ScaffoldAction::LookupCache { .. } => true,
                    _ => false,
                };
                ScaffoldStep { progress: ps.progress, action: ps.action }
            },
            None => {
                let path = self.full_path.clone();
                self.finish_with(Ok(path))
            },
        }
    }
}

} // verus!
