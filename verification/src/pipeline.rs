//! The run of one attachment through triage, download, encoding, reply and
//! cleanup.
//!
//! Attachments of one message are run one after the other, each to its end;
//! runs for different messages know nothing of each other. A failure ends
//! the run it occurred in and nothing else.

use vstd::prelude::*;
use crate::attachment::{needs_transcode, Attachment, AttachmentView};
use crate::error::PipelineError;
use crate::scratch::ScratchFile;
use crate::transcode::{TranscodeOutcome, TranscodeOutcomeView};

verus! {

/// The two halves of the reply stage.
#[derive(Clone, Copy, Debug, PartialEq, Eq, Structural)]
pub enum ReplyPhase {
    /// The reply is being delivered.
    Sending,
    /// Delivery is over, well or badly, and the output file is being removed.
    Cleaning,
}

/// Where the run of one attachment stands.
#[derive(Clone, Debug, PartialEq, Eq)]
pub enum PipelineState {
    /// The attachment was seen in a message; nothing has been decided.
    Detected { attachment: Attachment },
    /// The attachment is being downloaded from `url`.
    Downloading { url: String },
    /// The downloaded file `input` is being re-encoded.
    Transcoding { input: String },
    /// The re-encoded file `output` is being sent back, then removed.
    Replying { output: String, phase: ReplyPhase },
    /// Nothing is left to do, and no scratch file of this run is known to
    /// remain.
    Done,
    /// The run was given up.
    Failed(PipelineError),
}

pub enum PipelineStateView {
    Detected { attachment: AttachmentView },
    Downloading { url: Seq<char> },
    Transcoding { input: Seq<char> },
    Replying { output: Seq<char>, phase: ReplyPhase },
    Done,
    Failed(PipelineError),
}

impl View for PipelineState {
    type V = PipelineStateView;

    open spec fn view(&self) -> PipelineStateView {
        match self {
            PipelineState::Detected { attachment } => PipelineStateView::Detected {
                attachment: attachment@,
            },
            PipelineState::Downloading { url } => PipelineStateView::Downloading { url: url@ },
            PipelineState::Transcoding { input } => PipelineStateView::Transcoding { input: input@ },
            PipelineState::Replying { output, phase } => PipelineStateView::Replying {
                output: output@,
                phase: *phase,
            },
            PipelineState::Done => PipelineStateView::Done,
            PipelineState::Failed(error) => PipelineStateView::Failed(*error),
        }
    }
}

/// What the caller is asked to do next.
#[derive(Clone, Debug, PartialEq, Eq)]
pub enum PipelineAction {
    /// Download `url` into the scratch directory.
    Fetch { url: String },
    /// Run the encoder on the file at `input`.
    Transcode { input: String },
    /// Publish the file at `path` to the conversation the message came from,
    /// as a reply to that message, without notifying anyone mentioned.
    Reply { path: String },
    /// Remove the file at `path`.
    RemoveOutput { path: String },
    /// Nothing is left to do.
    Idle,
}

pub enum PipelineActionView {
    Fetch { url: Seq<char> },
    Transcode { input: Seq<char> },
    Reply { path: Seq<char> },
    RemoveOutput { path: Seq<char> },
    Idle,
}

impl View for PipelineAction {
    type V = PipelineActionView;

    open spec fn view(&self) -> PipelineActionView {
        match self {
            PipelineAction::Fetch { url } => PipelineActionView::Fetch { url: url@ },
            PipelineAction::Transcode { input } => PipelineActionView::Transcode { input: input@ },
            PipelineAction::Reply { path } => PipelineActionView::Reply { path: path@ },
            PipelineAction::RemoveOutput { path } => PipelineActionView::RemoveOutput { path: path@ },
            PipelineAction::Idle => PipelineActionView::Idle,
        }
    }
}

/// What the caller reports back.
#[derive(Clone, Debug, PartialEq, Eq)]
pub enum PipelineEvent {
    /// The run may begin.
    Begin,
    /// The download left the attachment in this file.
    Fetched(ScratchFile),
    /// The download failed.
    FetchFailed(PipelineError),
    /// The encoder run ended.
    Transcoded(TranscodeOutcome),
    /// The reply was published.
    ReplySent,
    /// The reply could not be published.
    ReplyFailed,
    /// The output file was removed.
    OutputRemoved,
    /// The output file could not be removed.
    RemoveFailed,
}

pub enum PipelineEventView {
    Begin,
    Fetched(Seq<char>),
    FetchFailed(PipelineError),
    Transcoded(TranscodeOutcomeView),
    ReplySent,
    ReplyFailed,
    OutputRemoved,
    RemoveFailed,
}

impl View for PipelineEvent {
    type V = PipelineEventView;

    open spec fn view(&self) -> PipelineEventView {
        match self {
            PipelineEvent::Begin => PipelineEventView::Begin,
            PipelineEvent::Fetched(file) => PipelineEventView::Fetched(file@),
            PipelineEvent::FetchFailed(error) => PipelineEventView::FetchFailed(*error),
            PipelineEvent::Transcoded(outcome) => PipelineEventView::Transcoded(outcome@),
            PipelineEvent::ReplySent => PipelineEventView::ReplySent,
            PipelineEvent::ReplyFailed => PipelineEventView::ReplyFailed,
            PipelineEvent::OutputRemoved => PipelineEventView::OutputRemoved,
            PipelineEvent::RemoveFailed => PipelineEventView::RemoveFailed,
        }
    }
}

/// The new state, the action it asks for, and the failure to put in the log,
/// if the step met one.
#[derive(Clone, Debug, PartialEq, Eq)]
pub struct PipelineStep {
    pub state: PipelineState,
    pub action: PipelineAction,
    pub report: Option<PipelineError>,
}

pub struct PipelineStepView {
    pub state: PipelineStateView,
    pub action: PipelineActionView,
    pub report: Option<PipelineError>,
}

impl View for PipelineStep {
    type V = PipelineStepView;

    open spec fn view(&self) -> PipelineStepView {
        PipelineStepView { state: self.state@, action: self.action@, report: self.report }
    }
}

/// The step that gives the run up over `error` and has it logged.
pub open spec fn pipeline_fail(error: PipelineError) -> PipelineStepView {
    PipelineStepView {
        state: PipelineStateView::Failed(error),
        action: PipelineActionView::Idle,
        report: Some(error),
    }
}

/// The step that leaves the run in `state` with nothing to do.
pub open spec fn pipeline_rest(state: PipelineStateView) -> PipelineStepView {
    PipelineStepView { state, action: PipelineActionView::Idle, report: None }
}

/// The failure that an encoder run without success stands for.
pub open spec fn transcode_failure(outcome: TranscodeOutcomeView) -> PipelineError {
    match outcome {
        TranscodeOutcomeView::ProcessSpawnFailure => PipelineError::ProcessSpawn,
        TranscodeOutcomeView::UtilityReportedFailure => PipelineError::ProcessExecution,
        _ => PipelineError::Io,
    }
}

/// The step taken from `state` when `event` is reported. An event that the
/// state does not wait for changes nothing.
pub open spec fn pipeline_next(state: PipelineStateView, event: PipelineEventView) -> PipelineStepView {
    match (state, event) {
        (PipelineStateView::Detected { attachment }, PipelineEventView::Begin) => if needs_transcode(
            attachment,
        ) {
            PipelineStepView {
                state: PipelineStateView::Downloading { url: attachment.url },
                action: PipelineActionView::Fetch { url: attachment.url },
                report: None,
            }
        } else {
            pipeline_rest(PipelineStateView::Done)
        },
        (PipelineStateView::Downloading { .. }, PipelineEventView::Fetched(path)) => PipelineStepView {
            state: PipelineStateView::Transcoding { input: path },
            action: PipelineActionView::Transcode { input: path },
            report: None,
        },
        (PipelineStateView::Downloading { .. }, PipelineEventView::FetchFailed(error)) => pipeline_fail(
            error,
        ),
        (PipelineStateView::Transcoding { .. }, PipelineEventView::Transcoded(outcome)) => match outcome {
            TranscodeOutcomeView::Success(output) => PipelineStepView {
                state: PipelineStateView::Replying { output, phase: ReplyPhase::Sending },
                action: PipelineActionView::Reply { path: output },
                report: None,
            },
            _ => pipeline_fail(transcode_failure(outcome)),
        },
        (
            PipelineStateView::Replying { output, phase: ReplyPhase::Sending },
            PipelineEventView::ReplySent,
        ) => PipelineStepView {
            state: PipelineStateView::Replying { output, phase: ReplyPhase::Cleaning },
            action: PipelineActionView::RemoveOutput { path: output },
            report: None,
        },
        (
            PipelineStateView::Replying { output, phase: ReplyPhase::Sending },
            PipelineEventView::ReplyFailed,
        ) => PipelineStepView {
            state: PipelineStateView::Replying { output, phase: ReplyPhase::Cleaning },
            action: PipelineActionView::RemoveOutput { path: output },
            report: Some(PipelineError::Delivery),
        },
        (
            PipelineStateView::Replying { phase: ReplyPhase::Cleaning, .. },
            PipelineEventView::OutputRemoved,
        ) => pipeline_rest(PipelineStateView::Done),
        (
            PipelineStateView::Replying { phase: ReplyPhase::Cleaning, .. },
            PipelineEventView::RemoveFailed,
        ) => pipeline_fail(PipelineError::Io),
        _ => pipeline_rest(state),
    }
}

fn fail(error: PipelineError) -> (step: PipelineStep)
    ensures
        step@ == pipeline_fail(error),
{
    PipelineStep {
        state: PipelineState::Failed(error),
        action: PipelineAction::Idle,
        report: Some(error),
    }
}

fn rest(state: PipelineState) -> (step: PipelineStep)
    ensures
        step@ == pipeline_rest(state@),
{
    PipelineStep { state, action: PipelineAction::Idle, report: None }
}

fn clean(output: String, report: Option<PipelineError>) -> (step: PipelineStep)
    ensures
        step@ == (PipelineStepView {
            state: PipelineStateView::Replying { output: output@, phase: ReplyPhase::Cleaning },
            action: PipelineActionView::RemoveOutput { path: output@ },
            report,
        }),
{
    let path = output.clone();
    PipelineStep {
        state: PipelineState::Replying { output, phase: ReplyPhase::Cleaning },
        action: PipelineAction::RemoveOutput { path },
        report,
    }
}

impl PipelineState {
    /// Takes up `attachment` and makes the first step of its run.
    pub fn start(attachment: Attachment) -> (step: PipelineStep)
        ensures
            step@ == pipeline_next(
                PipelineStateView::Detected { attachment: attachment@ },
                PipelineEventView::Begin,
            ),
    {
        (PipelineState::Detected { attachment }).advance(PipelineEvent::Begin)
    }

    /// Takes in what the caller reports and says what to do next.
    pub fn advance(self, event: PipelineEvent) -> (step: PipelineStep)
        ensures
            step@ == pipeline_next(self@, event@),
    {
        match self {
            PipelineState::Detected { attachment } => match event {
                PipelineEvent::Begin => if attachment.needs_transcode() {
                    let url = attachment.url;
                    let target = url.clone();
                    PipelineStep {
                        state: PipelineState::Downloading { url },
                        action: PipelineAction::Fetch { url: target },
                        report: None,
                    }
                } else {
                    rest(PipelineState::Done)
                },
                _ => rest(PipelineState::Detected { attachment }),
            },
            PipelineState::Downloading { url } => match event {
                PipelineEvent::Fetched(file) => {
                    let input = file.path;
                    let target = input.clone();
                    PipelineStep {
                        state: PipelineState::Transcoding { input },
                        action: PipelineAction::Transcode { input: target },
                        report: None,
                    }
                },
                PipelineEvent::FetchFailed(error) => fail(error),
                _ => rest(PipelineState::Downloading { url }),
            },
            PipelineState::Transcoding { input } => match event {
                PipelineEvent::Transcoded(outcome) => match outcome {
                    TranscodeOutcome::Success(output) => {
                        let path = output.clone();
                        PipelineStep {
                            state: PipelineState::Replying { output, phase: ReplyPhase::Sending },
                            action: PipelineAction::Reply { path },
                            report: None,
                        }
                    },
                    TranscodeOutcome::ProcessSpawnFailure => fail(PipelineError::ProcessSpawn),
                    TranscodeOutcome::UtilityReportedFailure => fail(
                        PipelineError::ProcessExecution,
                    ),
                    TranscodeOutcome::IoFailure => fail(PipelineError::Io),
                },
                _ => rest(PipelineState::Transcoding { input }),
            },
            PipelineState::Replying { output, phase } => match (phase, event) {
                (ReplyPhase::Sending, PipelineEvent::ReplySent) => clean(output, None),
                (ReplyPhase::Sending, PipelineEvent::ReplyFailed) => clean(
                    output,
                    Some(PipelineError::Delivery),
                ),
                (ReplyPhase::Cleaning, PipelineEvent::OutputRemoved) => rest(PipelineState::Done),
                (ReplyPhase::Cleaning, PipelineEvent::RemoveFailed) => fail(PipelineError::Io),
                _ => rest(PipelineState::Replying { output, phase }),
            },
            PipelineState::Done => rest(PipelineState::Done),
            PipelineState::Failed(error) => rest(PipelineState::Failed(error)),
        }
    }

    /// Whether the run is over.
    pub fn is_terminal(&self) -> (over: bool)
        ensures
            over == (self@ is Done || self@ is Failed),
    {
        match self {
            PipelineState::Done => true,
            PipelineState::Failed(_) => true,
            _ => false,
        }
    }
}

} // verus!
