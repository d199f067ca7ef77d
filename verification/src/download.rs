//! The download of one attachment into the scratch directory.
//!
//! The caller issues the request, holds the body in memory, writes it and
//! makes it durable; this module names the destination, fixes the order of
//! those steps and classifies their failures.

use vstd::prelude::*;
use crate::clock::micros_since_epoch;
use crate::entropy::{is_token, random_token};
use crate::error::PipelineError;
use crate::scratch::{scratch_path, ScratchFile, ScratchStorage};

verus! {

/// Where a download stands.
#[derive(Clone, Debug, PartialEq, Eq)]
pub enum DownloadState {
    /// The request is under way; no file exists yet.
    Requesting { url: String },
    /// The whole body has arrived and is being written to `file`.
    Writing { file: ScratchFile },
    /// The body is written and is being forced to stable storage.
    Syncing { file: ScratchFile },
    /// The download is over and `file` holds the whole body, durably.
    Stored { file: ScratchFile },
    /// The download was given up.
    Failed(PipelineError),
}

pub enum DownloadStateView {
    Requesting { url: Seq<char> },
    Writing { path: Seq<char> },
    Syncing { path: Seq<char> },
    Stored { path: Seq<char> },
    Failed(PipelineError),
}

impl View for DownloadState {
    type V = DownloadStateView;

    open spec fn view(&self) -> DownloadStateView {
        match self {
            DownloadState::Requesting { url } => DownloadStateView::Requesting { url: url@ },
            DownloadState::Writing { file } => DownloadStateView::Writing { path: file@ },
            DownloadState::Syncing { file } => DownloadStateView::Syncing { path: file@ },
            DownloadState::Stored { file } => DownloadStateView::Stored { path: file@ },
            DownloadState::Failed(e) => DownloadStateView::Failed(*e),
        }
    }
}

/// What the caller is asked to do next.
#[derive(Clone, Debug, PartialEq, Eq)]
pub enum DownloadAction {
    /// Issue a GET request for `url` and read the whole body into memory.
    Get { url: String },
    /// Create the file at `path` and write the whole body to it.
    Write { path: String },
    /// Force the file at `path` to stable storage and close it.
    Sync { path: String },
    /// Nothing is left to do.
    Idle,
}

pub enum DownloadActionView {
    Get { url: Seq<char> },
    Write { path: Seq<char> },
    Sync { path: Seq<char> },
    Idle,
}

impl View for DownloadAction {
    type V = DownloadActionView;

    open spec fn view(&self) -> DownloadActionView {
        match self {
            DownloadAction::Get { url } => DownloadActionView::Get { url: url@ },
            DownloadAction::Write { path } => DownloadActionView::Write { path: path@ },
            DownloadAction::Sync { path } => DownloadActionView::Sync { path: path@ },
            DownloadAction::Idle => DownloadActionView::Idle,
        }
    }
}

/// What the caller reports back.
#[derive(Clone, Copy, Debug, PartialEq, Eq, Structural)]
pub enum DownloadEvent {
    /// The response arrived and its body is complete.
    Received,
    /// The request or the reading of the body failed.
    RequestFailed,
    /// The body was written in full.
    Written,
    /// The file could not be created or written.
    WriteFailed,
    /// The file is durable.
    Synced,
    /// The file could not be made durable.
    SyncFailed,
}

/// The new state together with the action it asks for.
#[derive(Clone, Debug, PartialEq, Eq)]
pub struct DownloadStep {
    pub state: DownloadState,
    pub action: DownloadAction,
}

pub struct DownloadStepView {
    pub state: DownloadStateView,
    pub action: DownloadActionView,
}

impl View for DownloadStep {
    type V = DownloadStepView;

    open spec fn view(&self) -> DownloadStepView {
        DownloadStepView { state: self.state@, action: self.action@ }
    }
}

/// The first step of a download of `url`: issue the request.
pub open spec fn download_first(url: Seq<char>) -> DownloadStepView {
    DownloadStepView {
        state: DownloadStateView::Requesting { url },
        action: DownloadActionView::Get { url },
    }
}

/// The step that gives a download up over `error`.
pub open spec fn download_fail(error: PipelineError) -> DownloadStepView {
    DownloadStepView { state: DownloadStateView::Failed(error), action: DownloadActionView::Idle }
}

/// What a download has to show once it is over.
pub open spec fn download_result(state: DownloadStateView) -> Option<Result<Seq<char>, PipelineError>> {
    match state {
        DownloadStateView::Stored { path } => Some(Ok(path)),
        DownloadStateView::Failed(error) => Some(Err(error)),
        _ => None,
    }
}

/// The step taken from `state` when `event` is reported, where a file
/// created in this step is named with `token` and `micros` in the directory
/// `dir`. An event that the state does not wait for changes nothing.
pub open spec fn download_next(
    state: DownloadStateView,
    event: DownloadEvent,
    dir: Seq<char>,
    token: Seq<char>,
    micros: nat,
) -> DownloadStepView {
    match (state, event) {
        (DownloadStateView::Requesting { url }, DownloadEvent::Received) => {
            let path = scratch_path(dir, url, token, micros);
            DownloadStepView {
                state: DownloadStateView::Writing { path },
                action: DownloadActionView::Write { path },
            }
        },
        (DownloadStateView::Requesting { .. }, DownloadEvent::RequestFailed) => download_fail(
            PipelineError::Network,
        ),
        (DownloadStateView::Writing { path }, DownloadEvent::Written) => DownloadStepView {
            state: DownloadStateView::Syncing { path },
            action: DownloadActionView::Sync { path },
        },
        (DownloadStateView::Writing { .. }, DownloadEvent::WriteFailed) => download_fail(
            PipelineError::Io,
        ),
        (DownloadStateView::Syncing { path }, DownloadEvent::Synced) => DownloadStepView {
            state: DownloadStateView::Stored { path },
            action: DownloadActionView::Idle,
        },
        (DownloadStateView::Syncing { .. }, DownloadEvent::SyncFailed) => download_fail(
            PipelineError::Io,
        ),
        _ => DownloadStepView { state, action: DownloadActionView::Idle },
    }
}

fn fail(error: PipelineError) -> (step: DownloadStep)
    ensures
        step@ == download_fail(error),
{
    DownloadStep { state: DownloadState::Failed(error), action: DownloadAction::Idle }
}

fn stay(state: DownloadState) -> (step: DownloadStep)
    ensures
        step.state == state,
        step.action == DownloadAction::Idle,
{
    DownloadStep { state, action: DownloadAction::Idle }
}

impl DownloadState {
    /// Begins the download of `url`.
    pub fn start(url: String) -> (step: DownloadStep)
        ensures
            step@ == download_first(url@),
    {
        let target = url.clone();
        DownloadStep {
            state: DownloadState::Requesting { url },
            action: DownloadAction::Get { url: target },
        }
    }

    /// Takes in what the caller reports and says what to do next. A file
    /// that this step creates is named with `token` and `micros`.
    pub fn advance_with(
        self,
        event: DownloadEvent,
        storage: &ScratchStorage,
        token: &str,
        micros: u128,
    ) -> (step: DownloadStep)
        ensures
            step@ == download_next(self@, event, storage@, token@, micros as nat),
    {
        match self {
            DownloadState::Requesting { url } => match event {
                DownloadEvent::Received => {
                    let file = storage.file_for(url.as_str(), token, micros);
                    let path = file.path.clone();
                    DownloadStep {
                        state: DownloadState::Writing { file },
                        action: DownloadAction::Write { path },
                    }
                },
                DownloadEvent::RequestFailed => fail(PipelineError::Network),
                _ => stay(DownloadState::Requesting { url }),
            },
            DownloadState::Writing { file } => match event {
                DownloadEvent::Written => {
                    let path = file.path.clone();
                    DownloadStep {
                        state: DownloadState::Syncing { file },
                        action: DownloadAction::Sync { path },
                    }
                },
                DownloadEvent::WriteFailed => fail(PipelineError::Io),
                _ => stay(DownloadState::Writing { file }),
            },
            DownloadState::Syncing { file } => match event {
                DownloadEvent::Synced => stay(DownloadState::Stored { file }),
                DownloadEvent::SyncFailed => fail(PipelineError::Io),
                _ => stay(DownloadState::Syncing { file }),
            },
            DownloadState::Stored { file } => stay(DownloadState::Stored { file }),
            DownloadState::Failed(error) => stay(DownloadState::Failed(error)),
        }
    }

    /// Takes in what the caller reports and says what to do next. A file
    /// that this step creates is named with a fresh random token and the
    /// current time; whatever those were, the step is the one that
    /// `advance_with` takes for them.
    pub fn advance(self, event: DownloadEvent, storage: &ScratchStorage) -> (step: DownloadStep)
        ensures
            exists|token: Seq<char>, micros: nat|
                is_token(token) && micros <= u128::MAX && step@ == #[trigger] download_next(
                    self@,
                    event,
                    storage@,
                    token,
                    micros,
                ),
    {
        let token = random_token();
        let micros = micros_since_epoch();
        self.advance_with(event, storage, token.as_str(), micros)
    }

    /// The result, once the download is over.
    pub fn result(self) -> (result: Option<Result<ScratchFile, PipelineError>>)
        ensures
            download_result(self@) == match result {
                Some(Ok(file)) => Some(Ok(file@)),
                Some(Err(error)) => Some(Err(error)),
                None => None,
            },
    {
        match self {
            DownloadState::Stored { file } => Some(Ok(file)),
            DownloadState::Failed(error) => Some(Err(error)),
            _ => None,
        }
    }
}

} // verus!
