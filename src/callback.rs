use vstd::prelude::*;
use crate::fetch::FetchAction;

verus! {

/// The phases of a run, in the order they are reported.
#[derive(Debug, Clone, Copy, PartialEq, Eq, Structural)]
pub enum DownloadStep {
    Manifest,
    Checking,
    Downloading,
    Done,
}

impl DownloadStep {
    /// The phase that follows, if any: manifest, checking, downloading, done.
    pub fn next(&self) -> (r: Option<DownloadStep>)
        ensures
            r == match *self {
                DownloadStep::Manifest => Some(DownloadStep::Checking),
                DownloadStep::Checking => Some(DownloadStep::Downloading),
                DownloadStep::Downloading => Some(DownloadStep::Done),
                DownloadStep::Done => None::<DownloadStep>,
            },
    {
        match self {
            DownloadStep::Manifest => Some(DownloadStep::Checking),
            DownloadStep::Checking => Some(DownloadStep::Downloading),
            DownloadStep::Downloading => Some(DownloadStep::Done),
            DownloadStep::Done => None,
        }
    }
}

/// What is happening to one file.
#[derive(Debug, Clone, Copy, PartialEq, Eq, Structural)]
pub enum DownloadFileStep {
    Downloading { current: u64, total: u64 },
    Linking,
    Checking,
    Done,
}

/// An observer of a run. Implementations are supplied by the caller and may
/// be called from several workers.
pub trait DownloadCallback {
    fn on_start(&self);

    fn on_step(&self, step: DownloadStep);

    fn on_file_step(&self, path: &str, step: DownloadFileStep);

    fn on_file_downloaded(&self, path: &str, downloaded: u64, total: u64);

    fn on_finish(&self);
}

/// An observer that ignores every notification.
#[derive(Debug, Default, Clone, Copy)]
pub struct DefaultDownloadCallback;

impl DownloadCallback for DefaultDownloadCallback {
    fn on_start(&self) {
    }

    fn on_step(&self, step: DownloadStep) {
    }

    fn on_file_step(&self, path: &str, step: DownloadFileStep) {
    }

    fn on_file_downloaded(&self, path: &str, downloaded: u64, total: u64) {
    }

    fn on_finish(&self) {
    }
}

/// The file step that a fetch action reports, if it reports one: progress
/// on each write, checking before the digest, done on completion.
pub open spec fn file_step_of(a: FetchAction) -> Option<DownloadFileStep> {
    match a {
        FetchAction::Write { current, total } => Some(DownloadFileStep::Downloading { current, total }),
        FetchAction::Verify => Some(DownloadFileStep::Checking),
        FetchAction::Complete => Some(DownloadFileStep::Done),
        _ => None,
    }
}

/// The file step that a fetch action reports, if it reports one.
pub fn file_step_for(a: FetchAction) -> (r: Option<DownloadFileStep>)
    ensures
        r == file_step_of(a),
{
    match a {
        FetchAction::Write { current, total } => Some(DownloadFileStep::Downloading { current, total }),
        FetchAction::Verify => Some(DownloadFileStep::Checking),
        FetchAction::Complete => Some(DownloadFileStep::Done),
        _ => None,
    }
}

/// Tells the observer the file step that a fetch action reports, if any.
pub fn report_fetch_action<C: DownloadCallback>(callback: &C, path: &str, a: FetchAction) {
    match file_step_for(a) {
        Some(step) => callback.on_file_step(path, step),
        None => {},
    }
}

} // verus!
