//! Project scaffolding core of a desktop IDE backend: exponential-backoff
//! retry decisions, a versioned cache of downloaded templates, staged
//! progress reports and the scaffold engine that drives one project
//! creation; together with the editor-side record managers (debug sessions,
//! notifications, shortcuts, snippets, themes, the template catalogue) and
//! readers of `git` output.
//!
//! Everything here is computation on plain values. Performing file,
//! process and network work is left to the caller, who reports back what
//! happened.

pub mod text;
pub mod keyed;

pub mod retry;
pub mod progress;
pub mod version;
pub mod cache;
pub mod template_files;
pub mod scaffold;
pub mod catalog;

pub mod agent;
pub mod code_review;
pub mod debugging;
pub mod git;
pub mod notifications;
pub mod plugins;
pub mod shortcuts;
pub mod snippets;
pub mod themes;
pub mod updater;
