//! The encoder run: how the encoder is invoked, and what its behaviour means
//! for the attachment.
//!
//! The caller starts the child process, waits for it and removes files; this
//! module decides what to do next after each of those steps.
//!
//! The encoder is invoked once per run and never retried. An encoder that
//! cannot be started ends the run like any other failure and nothing else.
//! The input file is removed only after the encoder has succeeded; after a
//! failure it is deliberately left in the scratch directory, and so is
//! whatever the encoder may have written of the output.

use vstd::prelude::*;
use vstd::string::*;

verus! {

/// How an encoder run ended.
#[derive(Clone, Debug, PartialEq, Eq)]
pub enum TranscodeOutcome {
    /// The encoder succeeded; the re-encoded video lies at this path and the
    /// input file is gone.
    Success(String),
    /// The encoder ran and reported a status other than success.
    UtilityReportedFailure,
    /// The encoder could not be started.
    ProcessSpawnFailure,
    /// Waiting for the encoder or removing the input failed.
    IoFailure,
}

pub enum TranscodeOutcomeView {
    Success(Seq<char>),
    UtilityReportedFailure,
    ProcessSpawnFailure,
    IoFailure,
}

impl View for TranscodeOutcome {
    type V = TranscodeOutcomeView;

    open spec fn view(&self) -> TranscodeOutcomeView {
        match self {
            TranscodeOutcome::Success(path) => TranscodeOutcomeView::Success(path@),
            TranscodeOutcome::UtilityReportedFailure => TranscodeOutcomeView::UtilityReportedFailure,
            TranscodeOutcome::ProcessSpawnFailure => TranscodeOutcomeView::ProcessSpawnFailure,
            TranscodeOutcome::IoFailure => TranscodeOutcomeView::IoFailure,
        }
    }
}

/// Where an encoder run stands.
#[derive(Clone, Debug, PartialEq, Eq)]
pub enum TranscodeState {
    /// The child process has been requested and has not started yet.
    Spawning { input: String },
    /// The child process runs.
    Running { input: String },
    /// The encoder succeeded and the input file is being removed.
    RemovingInput { input: String },
    /// The run is over.
    Finished(TranscodeOutcome),
}

pub enum TranscodeStateView {
    Spawning { input: Seq<char> },
    Running { input: Seq<char> },
    RemovingInput { input: Seq<char> },
    Finished(TranscodeOutcomeView),
}

impl View for TranscodeState {
    type V = TranscodeStateView;

    open spec fn view(&self) -> TranscodeStateView {
        match self {
            TranscodeState::Spawning { input } => TranscodeStateView::Spawning { input: input@ },
            TranscodeState::Running { input } => TranscodeStateView::Running { input: input@ },
            TranscodeState::RemovingInput { input } => TranscodeStateView::RemovingInput {
                input: input@,
            },
            TranscodeState::Finished(outcome) => TranscodeStateView::Finished(outcome@),
        }
    }
}

/// What the caller is asked to do next.
#[derive(Clone, Debug, PartialEq, Eq)]
pub enum TranscodeAction {
    /// Start `program` as a child process with exactly these arguments.
    Spawn { program: String, args: Vec<String> },
    /// Wait until the child process has ended, without blocking other work.
    AwaitExit,
    /// Remove the file at `path`.
    RemoveInput { path: String },
    /// Nothing is left to do.
    Idle,
}

pub enum TranscodeActionView {
    Spawn { program: Seq<char>, args: Seq<Seq<char>> },
    AwaitExit,
    RemoveInput { path: Seq<char> },
    Idle,
}

impl View for TranscodeAction {
    type V = TranscodeActionView;

    open spec fn view(&self) -> TranscodeActionView {
        match self {
            TranscodeAction::Spawn { program, args } => TranscodeActionView::Spawn {
                program: program@,
                args: args.deep_view(),
            },
            TranscodeAction::AwaitExit => TranscodeActionView::AwaitExit,
            TranscodeAction::RemoveInput { path } => TranscodeActionView::RemoveInput { path: path@ },
            TranscodeAction::Idle => TranscodeActionView::Idle,
        }
    }
}

/// What the caller reports back.
#[derive(Clone, Copy, Debug, PartialEq, Eq, Structural)]
pub enum TranscodeEvent {
    /// The child process was started.
    Spawned,
    /// The child process could not be started.
    SpawnFailed,
    /// The child process ended, with this exit code if it has one.
    Exited(Option<i32>),
    /// Waiting for the child process failed.
    WaitFailed,
    /// The input file was removed.
    InputRemoved,
    /// The input file could not be removed.
    RemoveFailed,
}

/// The new state together with the action it asks for.
#[derive(Clone, Debug, PartialEq, Eq)]
pub struct TranscodeStep {
    pub state: TranscodeState,
    pub action: TranscodeAction,
}

pub struct TranscodeStepView {
    pub state: TranscodeStateView,
    pub action: TranscodeActionView,
}

impl View for TranscodeStep {
    type V = TranscodeStepView;

    open spec fn view(&self) -> TranscodeStepView {
        TranscodeStepView { state: self.state@, action: self.action@ }
    }
}

/// The encoder's executable.
pub open spec fn encoder_program() -> Seq<char> {
    "ffmpeg"@
}

/// The output lies beside the input, under the input's name with a fixed
/// ending.
pub open spec fn output_path(input: Seq<char>) -> Seq<char> {
    input + "-output.mp4"@
}

/// The encoder's arguments: read `input`, copy the audio stream, encode the
/// video stream as H.264 at constant quality 18, write an MP4 container to
/// the output path, overwrite what is there, and abort rather than leave an
/// empty stream.
pub open spec fn encoder_arguments(input: Seq<char>) -> Seq<Seq<char>> {
    seq![
        "-i"@,
        input,
        "-c:a"@,
        "copy"@,
        "-c:v"@,
        "h264"@,
        "-crf"@,
        "18"@,
        "-f"@,
        "mp4"@,
        "-y"@,
        "-abort_on"@,
        "empty_output"@,
        output_path(input),
    ]
}

/// Only exit code zero counts as success; any other code, and an end
/// without a code, is a failure.
pub open spec fn exit_is_success(code: Option<i32>) -> bool {
    code == Some(0i32)
}

/// The first step of a run on `input`: start the encoder.
pub open spec fn transcode_first(input: Seq<char>) -> TranscodeStepView {
    TranscodeStepView {
        state: TranscodeStateView::Spawning { input },
        action: TranscodeActionView::Spawn {
            program: encoder_program(),
            args: encoder_arguments(input),
        },
    }
}

/// The step taken from `state` when `event` is reported. An event that the
/// state does not wait for changes nothing.
pub open spec fn transcode_next(state: TranscodeStateView, event: TranscodeEvent) -> TranscodeStepView {
    match (state, event) {
        (TranscodeStateView::Spawning { input }, TranscodeEvent::Spawned) => TranscodeStepView {
            state: TranscodeStateView::Running { input },
            action: TranscodeActionView::AwaitExit,
        },
        (TranscodeStateView::Spawning { .. }, TranscodeEvent::SpawnFailed) => transcode_end(
            TranscodeOutcomeView::ProcessSpawnFailure,
        ),
        (TranscodeStateView::Running { input }, TranscodeEvent::Exited(code)) => if exit_is_success(
            code,
        ) {
            TranscodeStepView {
                state: TranscodeStateView::RemovingInput { input },
                action: TranscodeActionView::RemoveInput { path: input },
            }
        } else {
            transcode_end(TranscodeOutcomeView::UtilityReportedFailure)
        },
        (TranscodeStateView::Running { .. }, TranscodeEvent::WaitFailed) => transcode_end(
            TranscodeOutcomeView::IoFailure,
        ),
        (TranscodeStateView::RemovingInput { input }, TranscodeEvent::InputRemoved) => transcode_end(
            TranscodeOutcomeView::Success(output_path(input)),
        ),
        (TranscodeStateView::RemovingInput { .. }, TranscodeEvent::RemoveFailed) => transcode_end(
            TranscodeOutcomeView::IoFailure,
        ),
        _ => TranscodeStepView { state, action: TranscodeActionView::Idle },
    }
}

/// The step that ends a run with `outcome`.
pub open spec fn transcode_end(outcome: TranscodeOutcomeView) -> TranscodeStepView {
    TranscodeStepView {
        state: TranscodeStateView::Finished(outcome),
        action: TranscodeActionView::Idle,
    }
}

/// What a run has to show once it is over.
pub open spec fn transcode_outcome(state: TranscodeStateView) -> Option<TranscodeOutcomeView> {
    match state {
        TranscodeStateView::Finished(outcome) => Some(outcome),
        _ => None,
    }
}

/// The path at which the encoder leaves the re-encoded copy of `input`.
pub fn output_path_of(input: &str) -> (output: String)
    ensures
        output@ == output_path(input@),
{
    String::from_str(input).concat("-output.mp4")
}

/// The argument list with which the encoder is started on `input`.
pub fn encoder_arguments_for(input: &str) -> (args: Vec<String>)
    ensures
        args.deep_view() == encoder_arguments(input@),
{
    let mut args: Vec<String> = Vec::new();
    args.push(String::from_str("-i"));
    args.push(String::from_str(input));
    args.push(String::from_str("-c:a"));
    args.push(String::from_str("copy"));
    args.push(String::from_str("-c:v"));
    args.push(String::from_str("h264"));
    args.push(String::from_str("-crf"));
    args.push(String::from_str("18"));
    args.push(String::from_str("-f"));
    args.push(String::from_str("mp4"));
    args.push(String::from_str("-y"));
    args.push(String::from_str("-abort_on"));
    args.push(String::from_str("empty_output"));
    args.push(output_path_of(input));
    assert(args.deep_view() =~= encoder_arguments(input@));
    args
}

fn finish(outcome: TranscodeOutcome) -> (step: TranscodeStep)
    ensures
        step@ == transcode_end(outcome@),
{
    TranscodeStep { state: TranscodeState::Finished(outcome), action: TranscodeAction::Idle }
}

fn stay(state: TranscodeState) -> (step: TranscodeStep)
    ensures
        step@ == (TranscodeStepView { state: state@, action: TranscodeActionView::Idle }),
{
    TranscodeStep { state, action: TranscodeAction::Idle }
}

impl TranscodeState {
    /// Begins a run on the file at `input`.
    pub fn start(input: String) -> (step: TranscodeStep)
        ensures
            step@ == transcode_first(input@),
    {
        let args = encoder_arguments_for(input.as_str());
        TranscodeStep {
            state: TranscodeState::Spawning { input },
            action: TranscodeAction::Spawn { program: String::from_str("ffmpeg"), args },
        }
    }

    /// Takes in what the caller reports and says what to do next.
    pub fn advance(self, event: TranscodeEvent) -> (step: TranscodeStep)
        ensures
            step@ == transcode_next(self@, event),
    {
        match self {
            TranscodeState::Spawning { input } => match event {
                TranscodeEvent::Spawned => TranscodeStep {
                    state: TranscodeState::Running { input },
                    action: TranscodeAction::AwaitExit,
                },
                TranscodeEvent::SpawnFailed => finish(TranscodeOutcome::ProcessSpawnFailure),
                _ => stay(TranscodeState::Spawning { input }),
            },
            TranscodeState::Running { input } => match event {
                TranscodeEvent::Exited(Some(code)) => if code == 0 {
                    let path = input.clone();
                    TranscodeStep {
                        state: TranscodeState::RemovingInput { input },
                        action: TranscodeAction::RemoveInput { path },
                    }
                } else {
                    finish(TranscodeOutcome::UtilityReportedFailure)
                },
                TranscodeEvent::Exited(None) => finish(TranscodeOutcome::UtilityReportedFailure),
                TranscodeEvent::WaitFailed => finish(TranscodeOutcome::IoFailure),
                _ => stay(TranscodeState::Running { input }),
            },
            TranscodeState::RemovingInput { input } => match event {
                TranscodeEvent::InputRemoved => finish(
                    TranscodeOutcome::Success(output_path_of(input.as_str())),
                ),
                TranscodeEvent::RemoveFailed => finish(TranscodeOutcome::IoFailure),
                _ => stay(TranscodeState::RemovingInput { input }),
            },
            TranscodeState::Finished(outcome) => stay(TranscodeState::Finished(outcome)),
        }
    }

    /// The outcome, once the run is over.
    pub fn outcome(self) -> (outcome: Option<TranscodeOutcome>)
        ensures
            transcode_outcome(self@) == match outcome {
                Some(o) => Some(o@),
                None => None,
            },
    {
        match self {
            TranscodeState::Finished(outcome) => Some(outcome),
            _ => None,
        }
    }
}

} // verus!
