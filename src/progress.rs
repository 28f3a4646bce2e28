//! Staged progress reports of a scaffold run.
//!
//! Progress is carried in thousandths (0 ..= 1000) so that every value is
//! exact; a front end divides by `PROGRESS_SCALE` to show a fraction.
use vstd::prelude::*;

verus! {

/// Thousandths that make up a whole.
pub const PROGRESS_SCALE: u32 = 1000;

/// The phase a scaffold run is in.
#[derive(Clone, Copy, Debug, PartialEq, Eq, Structural)]
pub enum ProgressStage {
    Initializing,
    Downloading,
    Extracting,
    Installing,
    Complete,
    Error,
}

impl ProgressStage {
    /// `Complete` and `Error` end a run.
    pub open spec fn spec_is_terminal(&self) -> bool {
        *self == ProgressStage::Complete || *self == ProgressStage::Error
    }

    #[verifier::when_used_as_spec(spec_is_terminal)]
    pub fn is_terminal(&self) -> (r: bool)
        ensures
            r == self.spec_is_terminal(),
    {
        match self {
            ProgressStage::Complete | ProgressStage::Error => true,
            _ => false,
        }
    }
}

/// One progress report: its stage, how far along (in thousandths) and a
/// human-readable message.
#[derive(Clone, Debug)]
pub struct TemplateProgress {
    pub stage: ProgressStage,
    pub progress: u32,
    pub message: String,
}

pub open spec fn clamp_progress(p: u32) -> u32 {
    if p > PROGRESS_SCALE {
        PROGRESS_SCALE
    } else {
        p
    }
}

impl TemplateProgress {
    /// A report whose progress is clamped into `0 ..= PROGRESS_SCALE`.
    pub fn new(stage: ProgressStage, progress: u32, message: String) -> (r: Self)
        ensures
            r.stage == stage,
            r.progress == clamp_progress(progress),
            r.message == message,
    {
        let p = if progress > PROGRESS_SCALE {
            PROGRESS_SCALE
        } else {
            progress
        };
        TemplateProgress { stage, progress: p, message }
    }

    pub fn initializing(message: String) -> (r: Self)
        ensures
            r.stage == ProgressStage::Initializing,
            r.progress == 0,
            r.message == message,
    {
        Self::new(ProgressStage::Initializing, 0, message)
    }

    pub fn downloading(progress: u32, message: String) -> (r: Self)
        ensures
            r.stage == ProgressStage::Downloading,
            r.progress == clamp_progress(progress),
            r.message == message,
    {
        Self::new(ProgressStage::Downloading, progress, message)
    }

    pub fn extracting(progress: u32, message: String) -> (r: Self)
        ensures
            r.stage == ProgressStage::Extracting,
            r.progress == clamp_progress(progress),
            r.message == message,
    {
        Self::new(ProgressStage::Extracting, progress, message)
    }

    pub fn installing(progress: u32, message: String) -> (r: Self)
        ensures
            r.stage == ProgressStage::Installing,
            r.progress == clamp_progress(progress),
            r.message == message,
    {
        Self::new(ProgressStage::Installing, progress, message)
    }

    /// The success report; it always carries full progress.
    pub fn complete(message: String) -> (r: Self)
        ensures
            r.stage == ProgressStage::Complete,
            r.progress == PROGRESS_SCALE,
            r.message == message,
    {
        Self::new(ProgressStage::Complete, PROGRESS_SCALE, message)
    }

    /// The failure report; it always carries zero progress.
    pub fn error(message: String) -> (r: Self)
        ensures
            r.stage == ProgressStage::Error,
            r.progress == 0,
            r.message == message,
    {
        Self::new(ProgressStage::Error, 0, message)
    }
}

} // verus!
