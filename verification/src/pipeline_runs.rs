//! What holds of every run of an attachment through the pipeline, whatever
//! the caller reports and in whatever order.

use vstd::prelude::*;
use crate::attachment::{is_video, needs_transcode, AttachmentView};
use crate::error::PipelineError;
use crate::pipeline::{
    pipeline_next, transcode_failure, PipelineActionView, PipelineEventView, PipelineStateView,
    ReplyPhase,
};
use crate::trace::{count, lemma_contains_push, lemma_count_push, lemma_count_zero};
use crate::transcode::TranscodeOutcomeView;

verus! {

/// The state of the run of `attachment` after the caller has reported
/// `events`.
pub open spec fn pipeline_state_after(attachment: AttachmentView, events: Seq<PipelineEventView>) -> PipelineStateView
    decreases events.len(),
{
    if events.len() == 0 {
        PipelineStateView::Detected { attachment }
    } else {
        pipeline_next(pipeline_state_after(attachment, events.drop_last()), events.last()).state
    }
}

/// The actions that the run of `attachment` has asked for, one in answer to
/// each of `events`.
pub open spec fn pipeline_actions(attachment: AttachmentView, events: Seq<PipelineEventView>) -> Seq<
    PipelineActionView,
>
    decreases events.len(),
{
    if events.len() == 0 {
        Seq::empty()
    } else {
        pipeline_actions(attachment, events.drop_last()).push(
            pipeline_next(pipeline_state_after(attachment, events.drop_last()), events.last()).action,
        )
    }
}

/// What the run of `attachment` has handed to the log, one entry in answer
/// to each of `events`.
pub open spec fn pipeline_reports(attachment: AttachmentView, events: Seq<PipelineEventView>) -> Seq<
    Option<PipelineError>,
>
    decreases events.len(),
{
    if events.len() == 0 {
        Seq::empty()
    } else {
        pipeline_reports(attachment, events.drop_last()).push(
            pipeline_next(pipeline_state_after(attachment, events.drop_last()), events.last()).report,
        )
    }
}

/// The action starts a download.
pub open spec fn is_fetch(action: PipelineActionView) -> bool {
    action is Fetch
}

/// The action starts an encoder run.
pub open spec fn is_transcode(action: PipelineActionView) -> bool {
    action is Transcode
}

/// The action publishes a reply.
pub open spec fn is_reply(action: PipelineActionView) -> bool {
    action is Reply
}

/// The action removes an output file.
pub open spec fn is_cleanup(action: PipelineActionView) -> bool {
    action is RemoveOutput
}

/// The action does anything at all.
pub open spec fn is_work(action: PipelineActionView) -> bool {
    !(action is Idle)
}

/// The number of downloads started.
pub open spec fn fetches(actions: Seq<PipelineActionView>) -> nat {
    count(actions, |a: PipelineActionView| is_fetch(a))
}

/// The number of encoder runs started.
pub open spec fn transcodes(actions: Seq<PipelineActionView>) -> nat {
    count(actions, |a: PipelineActionView| is_transcode(a))
}

/// The number of replies published.
pub open spec fn replies(actions: Seq<PipelineActionView>) -> nat {
    count(actions, |a: PipelineActionView| is_reply(a))
}

/// The number of output files ordered to be removed.
pub open spec fn cleanups(actions: Seq<PipelineActionView>) -> nat {
    count(actions, |a: PipelineActionView| is_cleanup(a))
}

/// The number of actions other than idling.
pub open spec fn work(actions: Seq<PipelineActionView>) -> nat {
    count(actions, |a: PipelineActionView| is_work(a))
}

/// Some event reports an encoder run that succeeded.
pub open spec fn reports_success(events: Seq<PipelineEventView>) -> bool {
    exists|i: int|
        0 <= i < events.len() && (#[trigger] events[i] matches PipelineEventView::Transcoded(outcome)
            && outcome is Success)
}

/// Some event reports an encoder run that stands for the failure `error`.
pub open spec fn reports_failure(events: Seq<PipelineEventView>, error: PipelineError) -> bool {
    exists|i: int|
        0 <= i < events.len() && (#[trigger] events[i] matches PipelineEventView::Transcoded(outcome)
            && !(outcome is Success) && transcode_failure(outcome) == error)
}

/// The file `output` was reported as the result of a successful encoder
/// run, was offered as a reply, and was then ordered to be removed.
pub open spec fn replied_and_cleaned(
    actions: Seq<PipelineActionView>,
    events: Seq<PipelineEventView>,
    output: Seq<char>,
) -> bool {
    &&& events.contains(PipelineEventView::Transcoded(TranscodeOutcomeView::Success(output)))
    &&& actions.contains(PipelineActionView::Reply { path: output })
    &&& actions.contains(PipelineActionView::RemoveOutput { path: output })
}

/// What the state of a run says of its past, for an attachment that needs
/// re-encoding.
pub open spec fn pipeline_invariant(attachment: AttachmentView, events: Seq<PipelineEventView>) -> bool {
    let actions = pipeline_actions(attachment, events);
    let reports = pipeline_reports(attachment, events);
    &&& actions.len() == events.len()
    &&& replies(actions) > 0 ==> reports_success(events)
    &&& match pipeline_state_after(attachment, events) {
        PipelineStateView::Detected { attachment: seen } => {
            &&& seen == attachment
            &&& !events.contains(PipelineEventView::Begin)
            &&& work(actions) == 0
        },
        PipelineStateView::Downloading { url } => {
            &&& url == attachment.url
            &&& actions.contains(PipelineActionView::Fetch { url })
            &&& events.contains(PipelineEventView::Begin)
            &&& work(actions) == 1
            &&& fetches(actions) == 1
        },
        PipelineStateView::Transcoding { input } => {
            &&& actions.contains(PipelineActionView::Transcode { input })
            &&& events.contains(PipelineEventView::Begin)
            &&& events.contains(PipelineEventView::Fetched(input))
            &&& work(actions) == 2
            &&& fetches(actions) == 1
            &&& transcodes(actions) == 1
        },
        PipelineStateView::Replying { output, phase: ReplyPhase::Sending } => {
            &&& actions.contains(PipelineActionView::Reply { path: output })
            &&& events.contains(PipelineEventView::Begin)
            &&& events.contains(
                PipelineEventView::Transcoded(TranscodeOutcomeView::Success(output)),
            )
            &&& work(actions) == 3
            &&& fetches(actions) == 1
            &&& transcodes(actions) == 1
            &&& replies(actions) == 1
        },
        PipelineStateView::Replying { output, phase: ReplyPhase::Cleaning } => {
            &&& replied_and_cleaned(actions, events, output)
            &&& events.contains(PipelineEventView::Begin)
            &&& work(actions) == 4
            &&& fetches(actions) == 1
            &&& transcodes(actions) == 1
            &&& replies(actions) == 1
            &&& cleanups(actions) == 1
        },
        PipelineStateView::Done => {
            &&& exists|output: Seq<char>| #[trigger] replied_and_cleaned(actions, events, output)
            &&& events.contains(PipelineEventView::Begin)
            &&& events.contains(PipelineEventView::OutputRemoved)
            &&& work(actions) == 4
            &&& fetches(actions) == 1
            &&& transcodes(actions) == 1
            &&& replies(actions) == 1
            &&& cleanups(actions) == 1
        },
        PipelineStateView::Failed(error) => {
            &&& reports.contains(Some(error))
            &&& events.contains(PipelineEventView::Begin)
            &&& fetches(actions) == 1
            &&& {
                ||| {
                    &&& events.contains(PipelineEventView::FetchFailed(error))
                    &&& work(actions) == 1
                }
                ||| {
                    &&& reports_failure(events, error)
                    &&& work(actions) == 2
                    &&& transcodes(actions) == 1
                }
                ||| {
                    &&& error == PipelineError::Io
                    &&& events.contains(PipelineEventView::RemoveFailed)
                    &&& work(actions) == 4
                    &&& transcodes(actions) == 1
                    &&& replies(actions) == 1
                    &&& cleanups(actions) == 1
                }
            }
        },
    }
}

/// Every action that is work is a download, an encoder run, a reply or a
/// cleanup.
proof fn lemma_work_bounds(actions: Seq<PipelineActionView>)
    ensures
        fetches(actions) + transcodes(actions) + replies(actions) + cleanups(actions) == work(
            actions,
        ),
    decreases actions.len(),
{
    if actions.len() > 0 {
        lemma_work_bounds(actions.drop_last());
    }
}

/// The invariant holds of every run of an attachment that needs re-encoding.
pub proof fn lemma_pipeline_invariant(attachment: AttachmentView, events: Seq<PipelineEventView>)
    requires
        needs_transcode(attachment),
    ensures
        pipeline_invariant(attachment, events),
    decreases events.len(),
{
    let actions = pipeline_actions(attachment, events);
    let reports = pipeline_reports(attachment, events);
    if events.len() == 0 {
        assert(!events.contains(PipelineEventView::Begin));
    } else {
        let before = events.drop_last();
        let event = events.last();
        lemma_pipeline_invariant(attachment, before);
        let earlier = pipeline_actions(attachment, before);
        let state = pipeline_state_after(attachment, before);
        let step = pipeline_next(state, event);
        assert(events == before.push(event));
        lemma_count_push(earlier, step.action, |a: PipelineActionView| is_work(a));
        lemma_count_push(earlier, step.action, |a: PipelineActionView| is_fetch(a));
        lemma_count_push(earlier, step.action, |a: PipelineActionView| is_transcode(a));
        lemma_count_push(earlier, step.action, |a: PipelineActionView| is_reply(a));
        lemma_count_push(earlier, step.action, |a: PipelineActionView| is_cleanup(a));
        lemma_contains_push(before, event, PipelineEventView::Begin);
        lemma_contains_push(before, event, PipelineEventView::OutputRemoved);
        lemma_contains_push(before, event, PipelineEventView::RemoveFailed);
        lemma_contains_push(before, event, event);
        lemma_contains_push(earlier, step.action, step.action);
        lemma_contains_push(pipeline_reports(attachment, before), step.report, step.report);
        if reports_success(before) {
            let i = choose|i: int|
                0 <= i < before.len() && (#[trigger] before[i] matches PipelineEventView::Transcoded(
                    outcome,
                ) && outcome is Success);
            assert(events[i] == before[i]);
        }
        lemma_work_bounds(earlier);
        match state {
            PipelineStateView::Downloading { url } => {
                lemma_contains_push(earlier, step.action, PipelineActionView::Fetch { url });
            },
            PipelineStateView::Transcoding { input } => {
                lemma_contains_push(earlier, step.action, PipelineActionView::Transcode { input });
                lemma_contains_push(before, event, PipelineEventView::Fetched(input));
                assert(events[events.len() - 1] == event);
            },
            PipelineStateView::Replying { output, phase } => {
                lemma_contains_push(
                    before,
                    event,
                    PipelineEventView::Transcoded(TranscodeOutcomeView::Success(output)),
                );
                lemma_contains_push(earlier, step.action, PipelineActionView::Reply { path: output });
                if phase == ReplyPhase::Cleaning {
                    lemma_contains_push(
                        earlier,
                        step.action,
                        PipelineActionView::RemoveOutput { path: output },
                    );
                    assert(replied_and_cleaned(earlier, before, output));
                    if step.state is Done {
                        assert(replied_and_cleaned(actions, events, output));
                    }
                }
            },
            PipelineStateView::Done => {
                let output = choose|output: Seq<char>| #[trigger]
                    replied_and_cleaned(earlier, before, output);
                lemma_contains_push(
                    before,
                    event,
                    PipelineEventView::Transcoded(TranscodeOutcomeView::Success(output)),
                );
                lemma_contains_push(earlier, step.action, PipelineActionView::Reply { path: output });
                lemma_contains_push(
                    earlier,
                    step.action,
                    PipelineActionView::RemoveOutput { path: output },
                );
                assert(replied_and_cleaned(actions, events, output));
            },
            PipelineStateView::Failed(error) => {
                lemma_contains_push(
                    pipeline_reports(attachment, before),
                    step.report,
                    Some(error),
                );
                lemma_contains_push(before, event, PipelineEventView::FetchFailed(error));
                if reports_failure(before, error) {
                    let i = choose|i: int|
                        0 <= i < before.len() && (#[trigger] before[i] matches PipelineEventView::Transcoded(
                            outcome,
                        ) && !(outcome is Success) && transcode_failure(outcome) == error);
                    assert(events[i] == before[i]);
                }
            },
            _ => {},
        }
    }
}

/// An attachment that needs no re-encoding is never worked on: its run asks
/// for nothing and ends at the first step.
pub proof fn lemma_unneeded_attachment_is_left_alone(
    attachment: AttachmentView,
    events: Seq<PipelineEventView>,
)
    requires
        !needs_transcode(attachment),
    ensures
        forall|i: int|
            0 <= i < pipeline_actions(attachment, events).len() ==> #[trigger] pipeline_actions(
                attachment,
                events,
            )[i] == PipelineActionView::Idle,
        pipeline_state_after(attachment, events) == (PipelineStateView::Detected { attachment })
            || pipeline_state_after(attachment, events) == PipelineStateView::Done,
    decreases events.len(),
{
    if events.len() > 0 {
        let before = events.drop_last();
        lemma_unneeded_attachment_is_left_alone(attachment, before);
        let earlier = pipeline_actions(attachment, before);
        let actions = pipeline_actions(attachment, events);
        assert forall|i: int| 0 <= i < actions.len() implies #[trigger] actions[i]
            == PipelineActionView::Idle by {
            if i < earlier.len() {
                assert(actions[i] == earlier[i]);
            }
        }
    }
}

/// For an attachment whose media type is absent or names no video, the
/// pipeline starts no download, no encoder run and no reply.
pub proof fn lemma_other_media_are_left_alone(
    attachment: AttachmentView,
    events: Seq<PipelineEventView>,
)
    requires
        !is_video(attachment.content_type),
    ensures
        forall|i: int|
            0 <= i < pipeline_actions(attachment, events).len() ==> #[trigger] pipeline_actions(
                attachment,
                events,
            )[i] == PipelineActionView::Idle,
{
    lemma_unneeded_attachment_is_left_alone(attachment, events);
}

/// For a video whose width and height are both known, the pipeline does
/// nothing.
pub proof fn lemma_sized_video_is_left_alone(
    attachment: AttachmentView,
    events: Seq<PipelineEventView>,
)
    requires
        is_video(attachment.content_type),
        attachment.width is Some,
        attachment.height is Some,
    ensures
        forall|i: int|
            0 <= i < pipeline_actions(attachment, events).len() ==> #[trigger] pipeline_actions(
                attachment,
                events,
            )[i] == PipelineActionView::Idle,
{
    lemma_unneeded_attachment_is_left_alone(attachment, events);
}

/// For a video that lacks a dimension, a run that has begun has started
/// exactly one download, and no run starts more than one encoder run, one
/// reply or one cleanup.
pub proof fn lemma_one_download_one_encoder_run(
    attachment: AttachmentView,
    events: Seq<PipelineEventView>,
)
    requires
        needs_transcode(attachment),
    ensures
        fetches(pipeline_actions(attachment, events)) == if events.contains(
            PipelineEventView::Begin,
        ) {
            1nat
        } else {
            0nat
        },
        transcodes(pipeline_actions(attachment, events)) <= 1,
        replies(pipeline_actions(attachment, events)) <= 1,
        cleanups(pipeline_actions(attachment, events)) <= 1,
{
    lemma_pipeline_invariant(attachment, events);
    let actions = pipeline_actions(attachment, events);
    lemma_work_bounds(actions);
}

/// A reply is published only for an encoder run that reported success: after
/// any other outcome the run of the attachment has failed, and no reply is
/// sent.
pub proof fn lemma_no_reply_without_success(
    attachment: AttachmentView,
    events: Seq<PipelineEventView>,
)
    requires
        needs_transcode(attachment),
        !reports_success(events),
    ensures
        forall|i: int|
            0 <= i < pipeline_actions(attachment, events).len() ==> !is_reply(
                #[trigger] pipeline_actions(attachment, events)[i],
            ),
{
    lemma_pipeline_invariant(attachment, events);
    lemma_count_zero(pipeline_actions(attachment, events), |a: PipelineActionView| is_reply(a));
}

/// A run that is done was handed its output file by a successful encoder
/// run, has offered that file as a reply, has then ordered it to be removed,
/// and has seen the removal confirmed.
pub proof fn lemma_done_run_has_cleaned_up(attachment: AttachmentView, events: Seq<PipelineEventView>)
    requires
        needs_transcode(attachment),
        pipeline_state_after(attachment, events) == PipelineStateView::Done,
    ensures
        exists|output: Seq<char>| #[trigger]
            replied_and_cleaned(pipeline_actions(attachment, events), events, output),
        events.contains(PipelineEventView::OutputRemoved),
{
    lemma_pipeline_invariant(attachment, events);
}

/// A run that has failed has handed its failure to the log.
pub proof fn lemma_failure_is_logged(
    attachment: AttachmentView,
    events: Seq<PipelineEventView>,
    error: PipelineError,
)
    requires
        pipeline_state_after(attachment, events) == PipelineStateView::Failed(error),
    ensures
        pipeline_reports(attachment, events).contains(Some(error)),
{
    if needs_transcode(attachment) {
        lemma_pipeline_invariant(attachment, events);
    } else {
        lemma_unneeded_attachment_is_left_alone(attachment, events);
    }
}

/// Once the reply has been attempted, the output file is ordered to be
/// removed, whether the reply was published or not; only a failed reply is
/// logged.
pub proof fn lemma_cleanup_follows_reply(output: Seq<char>)
    ensures
        pipeline_next(
            PipelineStateView::Replying { output, phase: ReplyPhase::Sending },
            PipelineEventView::ReplySent,
        ).action == (PipelineActionView::RemoveOutput { path: output }),
        pipeline_next(
            PipelineStateView::Replying { output, phase: ReplyPhase::Sending },
            PipelineEventView::ReplyFailed,
        ).action == (PipelineActionView::RemoveOutput { path: output }),
        pipeline_next(
            PipelineStateView::Replying { output, phase: ReplyPhase::Sending },
            PipelineEventView::ReplyFailed,
        ).report == Some(PipelineError::Delivery),
{
}

/// A run that is done or has failed stays as it is and asks for nothing
/// more.
pub proof fn lemma_terminal_states_absorb(state: PipelineStateView, event: PipelineEventView)
    requires
        state is Done || state is Failed,
    ensures
        pipeline_next(state, event).state == state,
        pipeline_next(state, event).action == PipelineActionView::Idle,
        pipeline_next(state, event).report is None,
{
}

} // verus!
