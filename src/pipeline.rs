//! The download-and-install pipeline as a state machine: each step takes
//! what the caller observed and names the next piece of work, so that the
//! order of the stages and their failures are decided here.

use vstd::prelude::*;
use crate::error::{Platform, WallpaperError};
use crate::fetch::{check_response, check_url, is_image_type, is_success_status, response_verdict, FetchResult};
use crate::install::install_request;
use crate::text::{is_blank, is_header_text, lowered_text};

verus! {

/// Where a pipeline run stands, with what it carries to the next stage.
#[derive(Debug)]
pub enum Phase {
    AwaitResponse,
    AwaitBody(String),
    AwaitDirectory(FetchResult),
    AwaitStaged,
    AwaitCommit,
    AwaitInstall(String),
    Done,
}

/// What the caller observed after doing the last action's work.
#[derive(Debug)]
pub enum PipelineEvent {
    /// The response's status and its raw Content-Type header, if any.
    Response { status: u16, content_type: Option<Vec<u8>> },
    RequestFailed(String),
    Body(Vec<u8>),
    BodyFailed(String),
    DirectoryReady,
    DirectoryFailed(String),
    Staged,
    StageFailed(String),
    /// The staging file now stands at the canonical path, given as text.
    Committed(String),
    /// The commit succeeded but the canonical path has no text form; the
    /// value is a lossy rendering of it for the message.
    CommittedNotText(String),
    CommitFailed(String),
    Installed,
    InstallFailed(String),
}

/// The work that the caller is asked to do next.
#[derive(Debug, PartialEq, Eq)]
pub enum PipelineAction {
    /// One HTTP GET of the URL.
    Get(String),
    ReadBody,
    /// Create the private data directory, with its parents.
    PrepareDirectory,
    /// Create the staging file, write exactly these bytes and close it.
    WriteStaging(Vec<u8>),
    /// Rename the staging file onto the canonical wallpaper path.
    Commit,
    /// Point the desktop background at this path.
    Install(String),
    /// The run is over: the installed path, or the first failure.
    Finish(Result<String, WallpaperError>),
}

#[derive(Debug)]
pub struct Pipeline {
    pub phase: Phase,
    pub platform: Platform,
}

/// The events that each phase expects; a finished run expects none.
pub open spec fn accepts(phase: Phase, ev: PipelineEvent) -> bool {
    match phase {
        Phase::AwaitResponse => ev is Response || ev is RequestFailed,
        Phase::AwaitBody(_) => ev is Body || ev is BodyFailed,
        Phase::AwaitDirectory(_) => ev is DirectoryReady || ev is DirectoryFailed,
        Phase::AwaitStaged => ev is Staged || ev is StageFailed,
        Phase::AwaitCommit => ev is Committed || ev is CommittedNotText || ev is CommitFailed,
        Phase::AwaitInstall(_) => ev is Installed || ev is InstallFailed,
        Phase::Done => false,
    }
}

pub open spec fn fails(a: PipelineAction, e: WallpaperError) -> bool {
    a == PipelineAction::Finish(Err::<String, WallpaperError>(e))
}

/// How a run starts: a blank URL ends it at once, any other is fetched.
pub open spec fn started(url: String, platform: Platform, p: Pipeline, a: PipelineAction) -> bool {
    &&& p.platform == platform
    &&& if is_blank(url@) {
        p.phase is Done && fails(a, WallpaperError::InvalidInput)
    } else {
        p.phase is AwaitResponse && a == PipelineAction::Get(url)
    }
}

/// One step of a run: from `p`, on `ev`, the run moves to `q` and asks for `a`.
pub open spec fn transition(p: Pipeline, ev: PipelineEvent, q: Pipeline, a: PipelineAction) -> bool {
    &&& q.platform == p.platform
    &&& match (p.phase, ev) {
        (Phase::AwaitResponse, PipelineEvent::Response { status, content_type }) => match a {
            PipelineAction::ReadBody => q.phase matches Phase::AwaitBody(t) && response_verdict(
                status,
                content_type,
                Ok(t),
            ),
            PipelineAction::Finish(Err(e)) => q.phase is Done && response_verdict(
                status,
                content_type,
                Err(e),
            ),
            _ => false,
        },
        (Phase::AwaitResponse, PipelineEvent::RequestFailed(m)) => q.phase is Done && fails(
            a,
            WallpaperError::TransferError(m),
        ),
        (Phase::AwaitBody(t), PipelineEvent::Body(b)) => q.phase == Phase::AwaitDirectory(
            FetchResult { bytes: b, declared_media_type: t },
        ) && a == PipelineAction::PrepareDirectory,
        (Phase::AwaitBody(_), PipelineEvent::BodyFailed(m)) => q.phase is Done && fails(
            a,
            WallpaperError::TransferError(m),
        ),
        (Phase::AwaitDirectory(f), PipelineEvent::DirectoryReady) => q.phase is AwaitStaged && a
            == PipelineAction::WriteStaging(f.bytes),
        (Phase::AwaitDirectory(_), PipelineEvent::DirectoryFailed(m)) => q.phase is Done && fails(
            a,
            WallpaperError::DirectoryError(m),
        ),
        (Phase::AwaitStaged, PipelineEvent::Staged) => q.phase is AwaitCommit && a
            == PipelineAction::Commit,
        (Phase::AwaitStaged, PipelineEvent::StageFailed(m)) => q.phase is Done && fails(
            a,
            WallpaperError::WriteError(m),
        ),
        (Phase::AwaitCommit, PipelineEvent::Committed(path)) => if p.platform == Platform::Windows {
            q.phase == Phase::AwaitInstall(path) && a == PipelineAction::Install(path)
        } else {
            q.phase is Done && fails(a, WallpaperError::UnsupportedPlatform)
        },
        (Phase::AwaitCommit, PipelineEvent::CommittedNotText(shown)) => q.phase is Done && fails(
            a,
            WallpaperError::EncodingError(shown),
        ),
        (Phase::AwaitCommit, PipelineEvent::CommitFailed(m)) => q.phase is Done && fails(
            a,
            WallpaperError::CommitError(m),
        ),
        (Phase::AwaitInstall(path), PipelineEvent::Installed) => q.phase is Done && a
            == PipelineAction::Finish(Ok::<String, WallpaperError>(path)),
        (Phase::AwaitInstall(_), PipelineEvent::InstallFailed(m)) => q.phase is Done && fails(
            a,
            WallpaperError::InstallError(m),
        ),
        _ => false,
    }
}

impl Pipeline {
    /// Starts a run for `url`.
    pub fn begin(url: String, platform: Platform) -> (r: (Pipeline, PipelineAction))
        ensures
            started(url, platform, r.0, r.1),
    {
        match check_url(url.as_str()) {
            Err(e) => (Pipeline { phase: Phase::Done, platform }, PipelineAction::Finish(Err(e))),
            Ok(()) => (
                Pipeline { phase: Phase::AwaitResponse, platform },
                PipelineAction::Get(url),
            ),
        }
    }

    /// Whether the run expects `ev` now.
    pub fn expects(&self, ev: &PipelineEvent) -> (r: bool)
        ensures
            r == accepts(self.phase, *ev),
    {
        match (&self.phase, ev) {
            (Phase::AwaitResponse, PipelineEvent::Response { .. }) => true,
            (Phase::AwaitResponse, PipelineEvent::RequestFailed(_)) => true,
            (Phase::AwaitBody(_), PipelineEvent::Body(_)) => true,
            (Phase::AwaitBody(_), PipelineEvent::BodyFailed(_)) => true,
            (Phase::AwaitDirectory(_), PipelineEvent::DirectoryReady) => true,
            (Phase::AwaitDirectory(_), PipelineEvent::DirectoryFailed(_)) => true,
            (Phase::AwaitStaged, PipelineEvent::Staged) => true,
            (Phase::AwaitStaged, PipelineEvent::StageFailed(_)) => true,
            (Phase::AwaitCommit, PipelineEvent::Committed(_)) => true,
            (Phase::AwaitCommit, PipelineEvent::CommittedNotText(_)) => true,
            (Phase::AwaitCommit, PipelineEvent::CommitFailed(_)) => true,
            (Phase::AwaitInstall(_), PipelineEvent::Installed) => true,
            (Phase::AwaitInstall(_), PipelineEvent::InstallFailed(_)) => true,
            _ => false,
        }
    }

    /// Whether the run is over.
    pub fn is_done(&self) -> (r: bool)
        ensures
            r == (self.phase is Done),
    {
        match self.phase {
            Phase::Done => true,
            _ => false,
        }
    }

    /// Takes the observation of the last action's work and names the next.
    pub fn step(self, ev: PipelineEvent) -> (r: (Pipeline, PipelineAction))
        requires
            accepts(self.phase, ev),
        ensures
            transition(self, ev, r.0, r.1),
    {
        let platform = self.platform;
        let done = Pipeline { phase: Phase::Done, platform };
        match (self.phase, ev) {
            (Phase::AwaitResponse, PipelineEvent::Response { status, content_type }) => {
                match check_response(status, &content_type) {
                    Ok(t) => (
                        Pipeline { phase: Phase::AwaitBody(t), platform },
                        PipelineAction::ReadBody,
                    ),
                    Err(e) => (done, PipelineAction::Finish(Err(e))),
                }
            },
            (Phase::AwaitResponse, PipelineEvent::RequestFailed(m)) => (
                done,
                PipelineAction::Finish(Err(WallpaperError::TransferError(m))),
            ),
            (Phase::AwaitBody(t), PipelineEvent::Body(b)) => (
                Pipeline {
                    phase: Phase::AwaitDirectory(FetchResult { bytes: b, declared_media_type: t }),
                    platform,
                },
                PipelineAction::PrepareDirectory,
            ),
            (Phase::AwaitBody(_), PipelineEvent::BodyFailed(m)) => (
                done,
                PipelineAction::Finish(Err(WallpaperError::TransferError(m))),
            ),
            (Phase::AwaitDirectory(f), PipelineEvent::DirectoryReady) => (
                Pipeline { phase: Phase::AwaitStaged, platform },
                PipelineAction::WriteStaging(f.bytes),
            ),
            (Phase::AwaitDirectory(_), PipelineEvent::DirectoryFailed(m)) => (
                done,
                PipelineAction::Finish(Err(WallpaperError::DirectoryError(m))),
            ),
            (Phase::AwaitStaged, PipelineEvent::Staged) => (
                Pipeline { phase: Phase::AwaitCommit, platform },
                PipelineAction::Commit,
            ),
            (Phase::AwaitStaged, PipelineEvent::StageFailed(m)) => (
                done,
                PipelineAction::Finish(Err(WallpaperError::WriteError(m))),
            ),
            (Phase::AwaitCommit, PipelineEvent::Committed(path)) => {
                match install_request(platform) {
                    Ok(()) => {
                        let shown = path.clone();
                        (
                            Pipeline { phase: Phase::AwaitInstall(path), platform },
                            PipelineAction::Install(shown),
                        )
                    },
                    Err(e) => (done, PipelineAction::Finish(Err(e))),
                }
            },
            (Phase::AwaitCommit, PipelineEvent::CommittedNotText(shown)) => (
                done,
                PipelineAction::Finish(Err(WallpaperError::EncodingError(shown))),
            ),
            (Phase::AwaitCommit, PipelineEvent::CommitFailed(m)) => (
                done,
                PipelineAction::Finish(Err(WallpaperError::CommitError(m))),
            ),
            (Phase::AwaitInstall(path), PipelineEvent::Installed) => (
                done,
                PipelineAction::Finish(Ok(path)),
            ),
            (Phase::AwaitInstall(_), PipelineEvent::InstallFailed(m)) => (
                done,
                PipelineAction::Finish(Err(WallpaperError::InstallError(m))),
            ),
            (_, _) => unreached(),
        }
    }
}

/// A finished run expects nothing more, so it asks for no further work.
pub open spec fn is_over(p: Pipeline) -> bool {
    forall|ev: PipelineEvent| !#[trigger] accepts(p.phase, ev)
}

/// A blank URL ends the run with `InvalidInput` before any request: the first
/// action is no `Get`, and no action follows.
pub proof fn blank_url_makes_no_request(
    url: String,
    platform: Platform,
    p: Pipeline,
    a: PipelineAction,
)
    requires
        is_blank(url@),
        started(url, platform, p, a),
    ensures
        fails(a, WallpaperError::InvalidInput),
        a !is Get,
        is_over(p),
{
}

/// A successful response whose Content-Type is readable but not `image/...`
/// ends the run with `NotAnImage`, carrying the declared type; the run then
/// asks for nothing more, so no byte is read, staged or written.
pub proof fn non_image_stages_nothing(
    p: Pipeline,
    status: u16,
    raw: Vec<u8>,
    q: Pipeline,
    a: PipelineAction,
)
    requires
        p.phase is AwaitResponse,
        is_success_status(status),
        is_header_text(raw@),
        !is_image_type(lowered_text(raw@)),
        transition(p, PipelineEvent::Response { status, content_type: Some(raw) }, q, a),
    ensures
        a matches PipelineAction::Finish(Err(WallpaperError::NotAnImage(t))) && t@ == lowered_text(
            raw@,
        ),
        is_over(q),
{
}

/// A run makes a single request: only its start asks for a `Get`, and no
/// step asks again, whatever went wrong.
pub proof fn no_step_retries_the_request(
    p: Pipeline,
    ev: PipelineEvent,
    q: Pipeline,
    a: PipelineAction,
)
    requires
        transition(p, ev, q, a),
    ensures
        a !is Get,
{
}

/// The bytes written to the staging file are exactly the fetched body.
pub proof fn staged_bytes_are_fetched_bytes(
    awaiting: Pipeline,
    body: Vec<u8>,
    fetched: Pipeline,
    first: PipelineAction,
    ready: Pipeline,
    second: PipelineAction,
)
    requires
        awaiting.phase is AwaitBody,
        transition(awaiting, PipelineEvent::Body(body), fetched, first),
        transition(fetched, PipelineEvent::DirectoryReady, ready, second),
    ensures
        second == PipelineAction::WriteStaging(body),
{
}

/// The canonical file is replaced only by the rename, and the rename is asked
/// for only once the staging file has been written in full.
pub proof fn commit_follows_complete_staging(
    p: Pipeline,
    ev: PipelineEvent,
    q: Pipeline,
    a: PipelineAction,
)
    requires
        transition(p, ev, q, a),
        a is Commit,
    ensures
        p.phase is AwaitStaged,
        ev is Staged,
{
}

/// A run that succeeds reports the very path that was installed.
pub proof fn success_reports_installed_path(
    p: Pipeline,
    ev: PipelineEvent,
    q: Pipeline,
    a: PipelineAction,
    path: String,
)
    requires
        transition(p, ev, q, a),
        a == PipelineAction::Finish(Ok::<String, WallpaperError>(path)),
    ensures
        p.phase == Phase::AwaitInstall(path),
        ev is Installed,
        is_over(q),
{
}

} // verus!
