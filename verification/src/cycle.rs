//! One cache-and-apply cycle, as a machine that asks and is answered.
//!
//! A cycle learns the identity of the current wallpaper, makes sure that its
//! artifact lies in the store, and has it shown on the desktop. The cycle
//! itself touches nothing: it hands out one `Request` at a time, the caller
//! carries it out and comes back with a `Response`, and the cycle says what is
//! next. A forced cycle never looks at the store and always downloads; an
//! unforced one downloads only what the store lacks.

use vstd::prelude::*;
use crate::artifact::{
    get_wallpaper_path, wallpaper_path, LocalPath, LocalPathView, WallpaperInfo,
    WallpaperInfoView,
};
use crate::mode::RefreshMode;

verus! {

/// Why the wallpaper could not be brought into the store.
#[derive(Clone, Copy, Debug, PartialEq, Eq, Structural)]
pub enum CacheError {
    /// The feed did not say what the current wallpaper is.
    IdentityResolutionFailed,
    /// The image could not be downloaded.
    DownloadFailed,
    /// The image could not be written to the store.
    PersistFailed,
}

/// Why a cycle did not run to its end.
#[derive(Clone, Copy, Debug, PartialEq, Eq, Structural)]
pub enum CycleError {
    Cache(CacheError),
    /// The artifact is in the store, but the desktop did not take it.
    ApplyFailed,
}

/// What a cycle asks its caller to do.
#[derive(Debug, PartialEq, Eq)]
pub enum Request {
    /// Ask the feed of `mode` for the current wallpaper.
    Resolve { mode: RefreshMode },
    /// Look whether `path` exists.
    Probe { path: LocalPath },
    /// Fetch the bytes behind `url`.
    Download { url: String },
    /// Write `bytes` to `path`.
    Persist { path: LocalPath, bytes: Vec<u8> },
    /// Show the image at `path` on the desktop.
    Apply { path: LocalPath },
}

pub ghost enum RequestView {
    Resolve { mode: RefreshMode },
    Probe { path: LocalPathView },
    Download { url: Seq<char> },
    Persist { path: LocalPathView, bytes: Seq<u8> },
    Apply { path: LocalPathView },
}

impl View for Request {
    type V = RequestView;

    open spec fn view(&self) -> RequestView {
        match *self {
            Request::Resolve { mode } => RequestView::Resolve { mode },
            Request::Probe { path } => RequestView::Probe { path: path@ },
            Request::Download { url } => RequestView::Download { url: url@ },
            Request::Persist { path, bytes } => RequestView::Persist { path: path@, bytes: bytes@ },
            Request::Apply { path } => RequestView::Apply { path: path@ },
        }
    }
}

/// What the caller found. `None` and `false` report a failure.
#[derive(Debug, PartialEq, Eq)]
pub enum Response {
    Resolved(Option<WallpaperInfo>),
    Probed(bool),
    Downloaded(Option<Vec<u8>>),
    Persisted(bool),
    Applied(bool),
}

pub ghost enum ResponseView {
    Resolved(Option<WallpaperInfoView>),
    Probed(bool),
    Downloaded(Option<Seq<u8>>),
    Persisted(bool),
    Applied(bool),
}

impl View for Response {
    type V = ResponseView;

    open spec fn view(&self) -> ResponseView {
        match *self {
            Response::Resolved(Some(info)) => ResponseView::Resolved(Some(info@)),
            Response::Resolved(None) => ResponseView::Resolved(None),
            Response::Probed(found) => ResponseView::Probed(found),
            Response::Downloaded(Some(bytes)) => ResponseView::Downloaded(Some(bytes@)),
            Response::Downloaded(None) => ResponseView::Downloaded(None),
            Response::Persisted(done) => ResponseView::Persisted(done),
            Response::Applied(done) => ResponseView::Applied(done),
        }
    }
}

/// How a cycle ended.
#[derive(Debug, PartialEq, Eq)]
pub enum Outcome {
    /// The artifact was in the store already: nothing was downloaded or applied.
    CacheHit(LocalPath),
    /// The image was downloaded, written and applied.
    Refreshed(LocalPath),
    /// The image was downloaded and written, but could not be applied.
    ApplyFailed(LocalPath),
    /// The artifact could not be brought into the store.
    Failed(CacheError),
}

pub ghost enum OutcomeView {
    CacheHit(LocalPathView),
    Refreshed(LocalPathView),
    ApplyFailed(LocalPathView),
    Failed(CacheError),
}

impl View for Outcome {
    type V = OutcomeView;

    open spec fn view(&self) -> OutcomeView {
        match *self {
            Outcome::CacheHit(path) => OutcomeView::CacheHit(path@),
            Outcome::Refreshed(path) => OutcomeView::Refreshed(path@),
            Outcome::ApplyFailed(path) => OutcomeView::ApplyFailed(path@),
            Outcome::Failed(error) => OutcomeView::Failed(error),
        }
    }
}

/// The artifact that an outcome leaves in the store, or why there is none: a
/// failure to apply does not undo the download.
pub open spec fn ensured(outcome: OutcomeView) -> Result<LocalPathView, CacheError> {
    match outcome {
        OutcomeView::CacheHit(path) => Ok(path),
        OutcomeView::Refreshed(path) => Ok(path),
        OutcomeView::ApplyFailed(path) => Ok(path),
        OutcomeView::Failed(error) => Err(error),
    }
}

/// What an outcome gives to report, if anything.
pub open spec fn failure_of(outcome: OutcomeView) -> Option<CycleError> {
    match outcome {
        OutcomeView::CacheHit(_) => None,
        OutcomeView::Refreshed(_) => None,
        OutcomeView::ApplyFailed(_) => Some(CycleError::ApplyFailed),
        OutcomeView::Failed(error) => Some(CycleError::Cache(error)),
    }
}

impl Outcome {
    /// The artifact that is now in the store, or the reason why it is not.
    pub fn wallpaper(&self) -> (artifact: Result<LocalPath, CacheError>)
        ensures
            match artifact {
                Ok(path) => ensured(self@) == Ok::<LocalPathView, CacheError>(path@),
                Err(error) => ensured(self@) == Err::<LocalPathView, CacheError>(error),
            },
    {
        match self {
            Outcome::CacheHit(path) => Ok(path.clone()),
            Outcome::Refreshed(path) => Ok(path.clone()),
            Outcome::ApplyFailed(path) => Ok(path.clone()),
            Outcome::Failed(error) => Err(*error),
        }
    }

    /// The failure to report, if the cycle met one.
    pub fn failure(&self) -> (error: Option<CycleError>)
        ensures
            error == failure_of(self@),
    {
        match self {
            Outcome::CacheHit(_) => None,
            Outcome::Refreshed(_) => None,
            Outcome::ApplyFailed(_) => Some(CycleError::ApplyFailed),
            Outcome::Failed(error) => Some(CycleError::Cache(*error)),
        }
    }
}

/// A cycle that waits for an answer. The variant says which request is open.
#[derive(Debug, PartialEq, Eq)]
pub enum Cycle {
    /// Asked the feed for the current wallpaper.
    Resolving { force: bool, dir: String },
    /// Asked whether the artifact is in the store.
    Probing { dir: String, info: WallpaperInfo },
    /// Asked for the image bytes.
    Downloading { dir: String, info: WallpaperInfo },
    /// Asked to write the artifact.
    Persisting { path: LocalPath },
    /// Asked to show the artifact on the desktop.
    Applying { path: LocalPath },
}

pub ghost enum CycleView {
    Resolving { force: bool, dir: Seq<char> },
    Probing { dir: Seq<char>, info: WallpaperInfoView },
    Downloading { dir: Seq<char>, info: WallpaperInfoView },
    Persisting { path: LocalPathView },
    Applying { path: LocalPathView },
}

impl View for Cycle {
    type V = CycleView;

    open spec fn view(&self) -> CycleView {
        match *self {
            Cycle::Resolving { force, dir } => CycleView::Resolving { force, dir: dir@ },
            Cycle::Probing { dir, info } => CycleView::Probing { dir: dir@, info: info@ },
            Cycle::Downloading { dir, info } => CycleView::Downloading { dir: dir@, info: info@ },
            Cycle::Persisting { path } => CycleView::Persisting { path: path@ },
            Cycle::Applying { path } => CycleView::Applying { path: path@ },
        }
    }
}

/// What a cycle says after an answer: the next request, with the cycle that
/// waits for its answer, or the end.
#[derive(Debug, PartialEq, Eq)]
pub enum Step {
    Ask(Cycle, Request),
    Finish(Outcome),
}

pub ghost enum StepView {
    Ask(CycleView, RequestView),
    Finish(OutcomeView),
}

impl View for Step {
    type V = StepView;

    open spec fn view(&self) -> StepView {
        match *self {
            Step::Ask(cycle, request) => StepView::Ask(cycle@, request@),
            Step::Finish(outcome) => StepView::Finish(outcome@),
        }
    }
}

/// Whether an answer reports the artifact as present. Every other answer,
/// a probe that found nothing included, counts as absent.
pub open spec fn reports_present(response: ResponseView) -> bool {
    response == ResponseView::Probed(true)
}

/// The step that asks for the image of `info`.
pub open spec fn ask_download(dir: Seq<char>, info: WallpaperInfoView) -> StepView {
    StepView::Ask(CycleView::Downloading { dir, info }, RequestView::Download { url: info.url })
}

/// How a cycle in `mode` opens: with the question to the feed. For `Off`,
/// which has no feed, and without a store directory, in which the device
/// identifier for the question would lie, it ends at once with the failure to
/// resolve.
pub open spec fn start(force: bool, mode: RefreshMode, dir: Option<Seq<char>>) -> StepView {
    match dir {
        Some(dir) if mode != RefreshMode::Off => StepView::Ask(
            CycleView::Resolving { force, dir },
            RequestView::Resolve { mode },
        ),
        _ => StepView::Finish(OutcomeView::Failed(CacheError::IdentityResolutionFailed)),
    }
}

/// A store directory as a plain sequence, where there is one.
pub open spec fn dir_view(dir: Option<&str>) -> Option<Seq<char>> {
    match dir {
        Some(dir) => Some(dir@),
        None => None,
    }
}

/// What a waiting cycle does with an answer. An answer that does not bring
/// what was asked for is the failure of the open request; for the probe this
/// means that the artifact is taken as absent.
pub open spec fn next(cycle: CycleView, response: ResponseView) -> StepView {
    match cycle {
        CycleView::Resolving { force, dir } => match response {
            ResponseView::Resolved(Some(info)) => if force {
                ask_download(dir, info)
            } else {
                StepView::Ask(
                    CycleView::Probing { dir, info },
                    RequestView::Probe { path: wallpaper_path(dir, info.identity) },
                )
            },
            _ => StepView::Finish(OutcomeView::Failed(CacheError::IdentityResolutionFailed)),
        },
        CycleView::Probing { dir, info } => if reports_present(response) {
            StepView::Finish(OutcomeView::CacheHit(wallpaper_path(dir, info.identity)))
        } else {
            ask_download(dir, info)
        },
        CycleView::Downloading { dir, info } => match response {
            ResponseView::Downloaded(Some(bytes)) => {
                let path = wallpaper_path(dir, info.identity);
                StepView::Ask(CycleView::Persisting { path }, RequestView::Persist { path, bytes })
            },
            _ => StepView::Finish(OutcomeView::Failed(CacheError::DownloadFailed)),
        },
        CycleView::Persisting { path } => if response == ResponseView::Persisted(true) {
            StepView::Ask(CycleView::Applying { path }, RequestView::Apply { path })
        } else {
            StepView::Finish(OutcomeView::Failed(CacheError::PersistFailed))
        },
        CycleView::Applying { path } => if response == ResponseView::Applied(true) {
            StepView::Finish(OutcomeView::Refreshed(path))
        } else {
            StepView::Finish(OutcomeView::ApplyFailed(path))
        },
    }
}

/// Whether `response` reports the artifact as present in the store.
pub fn is_wallpaper_exists(response: &Response) -> (present: bool)
    ensures
        present == reports_present(response@),
{
    match response {
        Response::Probed(found) => *found,
        _ => false,
    }
}

fn download_step(dir: String, info: WallpaperInfo) -> (step: Step)
    ensures
        step@ == ask_download(dir@, info@),
{
    let url = info.url.clone();
    Step::Ask(Cycle::Downloading { dir, info }, Request::Download { url })
}

impl Cycle {
    /// Opens a cycle for `mode` over the store directory `dir`; `None` says
    /// that the directory could not be had. With `force` the cycle downloads
    /// whatever the store holds.
    pub fn begin(force: bool, mode: RefreshMode, dir: Option<&str>) -> (step: Step)
        ensures
            step@ == start(force, mode, dir_view(dir)),
    {
        match dir {
            Some(dir) if mode.is_active() => Step::Ask(
                Cycle::Resolving { force, dir: String::from_str(dir) },
                Request::Resolve { mode },
            ),
            _ => Step::Finish(Outcome::Failed(CacheError::IdentityResolutionFailed)),
        }
    }

    /// Takes the answer to the open request and says what is next.
    pub fn advance(self, response: Response) -> (step: Step)
        ensures
            step@ == next(self@, response@),
    {
        match self {
            Cycle::Resolving { force, dir } => match response {
                Response::Resolved(Some(info)) => {
                    if force {
                        download_step(dir, info)
                    } else {
                        let path = get_wallpaper_path(dir.as_str(), info.file_name.as_str());
                        Step::Ask(Cycle::Probing { dir, info }, Request::Probe { path })
                    }
                },
                _ => Step::Finish(Outcome::Failed(CacheError::IdentityResolutionFailed)),
            },
            Cycle::Probing { dir, info } => {
                if is_wallpaper_exists(&response) {
                    Step::Finish(
                        Outcome::CacheHit(
                            get_wallpaper_path(dir.as_str(), info.file_name.as_str()),
                        ),
                    )
                } else {
                    download_step(dir, info)
                }
            },
            Cycle::Downloading { dir, info } => match response {
                Response::Downloaded(Some(bytes)) => {
                    let path = get_wallpaper_path(dir.as_str(), info.file_name.as_str());
                    let target = path.clone();
                    Step::Ask(Cycle::Persisting { path }, Request::Persist { path: target, bytes })
                },
                _ => Step::Finish(Outcome::Failed(CacheError::DownloadFailed)),
            },
            Cycle::Persisting { path } => match response {
                Response::Persisted(true) => {
                    let target = path.clone();
                    Step::Ask(Cycle::Applying { path }, Request::Apply { path: target })
                },
                _ => Step::Finish(Outcome::Failed(CacheError::PersistFailed)),
            },
            Cycle::Applying { path } => match response {
                Response::Applied(true) => Step::Finish(Outcome::Refreshed(path)),
                _ => Step::Finish(Outcome::ApplyFailed(path)),
            },
        }
    }
}

} // verus!
