//! What holds of every encoder run, whatever the caller reports and in
//! whatever order.

use vstd::prelude::*;
use crate::trace::{count, lemma_contains_push, lemma_count_push, lemma_count_zero};
use crate::transcode::{
    encoder_arguments, encoder_program, exit_is_success, output_path, transcode_first,
    transcode_next, TranscodeActionView, TranscodeEvent, TranscodeOutcomeView, TranscodeStateView,
};

verus! {

/// The state of a run on `input` after the caller has reported `events`.
pub open spec fn transcode_state_after(input: Seq<char>, events: Seq<TranscodeEvent>) -> TranscodeStateView
    decreases events.len(),
{
    if events.len() == 0 {
        transcode_first(input).state
    } else {
        transcode_next(transcode_state_after(input, events.drop_last()), events.last()).state
    }
}

/// The actions that a run on `input` has asked for by the time the caller
/// has reported `events`: the first one, then one in answer to each event.
pub open spec fn transcode_actions(input: Seq<char>, events: Seq<TranscodeEvent>) -> Seq<
    TranscodeActionView,
>
    decreases events.len(),
{
    if events.len() == 0 {
        seq![transcode_first(input).action]
    } else {
        transcode_actions(input, events.drop_last()).push(
            transcode_next(transcode_state_after(input, events.drop_last()), events.last()).action,
        )
    }
}

/// The action starts the encoder.
pub open spec fn is_spawn(action: TranscodeActionView) -> bool {
    action is Spawn
}

/// The action removes a file.
pub open spec fn is_removal(action: TranscodeActionView) -> bool {
    action is RemoveInput
}

/// The number of times the encoder was started.
pub open spec fn spawns(actions: Seq<TranscodeActionView>) -> nat {
    count(actions, |a: TranscodeActionView| is_spawn(a))
}

/// The number of times a file was ordered to be removed.
pub open spec fn removals(actions: Seq<TranscodeActionView>) -> nat {
    count(actions, |a: TranscodeActionView| is_removal(a))
}

/// Some event reports an end of the encoder that is no success.
pub open spec fn reports_failed_exit(events: Seq<TranscodeEvent>) -> bool {
    exists|i: int|
        0 <= i < events.len() && (#[trigger] events[i] matches TranscodeEvent::Exited(code)
            && !exit_is_success(code))
}

/// What the state of a run says of its past.
pub open spec fn transcode_invariant(input: Seq<char>, events: Seq<TranscodeEvent>) -> bool {
    let actions = transcode_actions(input, events);
    &&& actions.len() == events.len() + 1
    &&& actions[0] == transcode_first(input).action
    &&& spawns(actions) == 1
    &&& match transcode_state_after(input, events) {
        TranscodeStateView::Spawning { input: file } => file == input && removals(actions) == 0,
        TranscodeStateView::Running { input: file } => {
            &&& file == input
            &&& removals(actions) == 0
            &&& events.contains(TranscodeEvent::Spawned)
        },
        TranscodeStateView::RemovingInput { input: file } => {
            &&& file == input
            &&& removals(actions) == 1
            &&& actions.contains(TranscodeActionView::RemoveInput { path: input })
            &&& events.contains(TranscodeEvent::Exited(Some(0i32)))
        },
        TranscodeStateView::Finished(TranscodeOutcomeView::Success(output)) => {
            &&& output == output_path(input)
            &&& removals(actions) == 1
            &&& actions.contains(TranscodeActionView::RemoveInput { path: input })
            &&& events.contains(TranscodeEvent::Exited(Some(0i32)))
            &&& events.contains(TranscodeEvent::InputRemoved)
        },
        TranscodeStateView::Finished(TranscodeOutcomeView::UtilityReportedFailure) => {
            &&& removals(actions) == 0
            &&& reports_failed_exit(events)
        },
        TranscodeStateView::Finished(TranscodeOutcomeView::ProcessSpawnFailure) => {
            &&& removals(actions) == 0
            &&& events.contains(TranscodeEvent::SpawnFailed)
        },
        TranscodeStateView::Finished(TranscodeOutcomeView::IoFailure) => {
            ||| removals(actions) == 0 && events.contains(TranscodeEvent::WaitFailed)
            ||| removals(actions) == 1 && events.contains(TranscodeEvent::RemoveFailed)
        },
    }
}

/// The invariant holds of every run.
pub proof fn lemma_transcode_invariant(input: Seq<char>, events: Seq<TranscodeEvent>)
    ensures
        transcode_invariant(input, events),
    decreases events.len(),
{
    let actions = transcode_actions(input, events);
    let spawn = |a: TranscodeActionView| is_spawn(a);
    let removal = |a: TranscodeActionView| is_removal(a);
    if events.len() == 0 {
        let first = transcode_first(input).action;
        assert(actions == Seq::<TranscodeActionView>::empty().push(first));
        lemma_count_push(Seq::<TranscodeActionView>::empty(), first, spawn);
        lemma_count_push(Seq::<TranscodeActionView>::empty(), first, removal);
    } else {
        let before = events.drop_last();
        let event = events.last();
        lemma_transcode_invariant(input, before);
        let earlier = transcode_actions(input, before);
        let step = transcode_next(transcode_state_after(input, before), event);
        assert(events == before.push(event));
        lemma_count_push(earlier, step.action, spawn);
        lemma_count_push(earlier, step.action, removal);
        lemma_contains_push(earlier, step.action, TranscodeActionView::RemoveInput { path: input });
        lemma_contains_push(before, event, TranscodeEvent::Spawned);
        lemma_contains_push(before, event, TranscodeEvent::SpawnFailed);
        lemma_contains_push(before, event, TranscodeEvent::Exited(Some(0i32)));
        lemma_contains_push(before, event, TranscodeEvent::WaitFailed);
        lemma_contains_push(before, event, TranscodeEvent::InputRemoved);
        lemma_contains_push(before, event, TranscodeEvent::RemoveFailed);
        if reports_failed_exit(before) {
            let i = choose|i: int|
                0 <= i < before.len() && (#[trigger] before[i] matches TranscodeEvent::Exited(code)
                    && !exit_is_success(code));
            assert(events[i] == before[i]);
        }
        if event matches TranscodeEvent::Exited(code) && !exit_is_success(code) {
            assert(events[events.len() - 1] == event);
        }
    }
}

/// The encoder is started once per run, as the run's first action and with
/// the fixed command line; it is never started again.
pub proof fn lemma_encoder_started_once(input: Seq<char>, events: Seq<TranscodeEvent>)
    ensures
        spawns(transcode_actions(input, events)) == 1,
        transcode_actions(input, events)[0] == (TranscodeActionView::Spawn {
            program: encoder_program(),
            args: encoder_arguments(input),
        }),
{
    lemma_transcode_invariant(input, events);
}

/// A run that ends in success has ordered the removal of its input, has
/// seen that removal confirmed, and names the output that belongs to the
/// input.
pub proof fn lemma_success_removes_input(
    input: Seq<char>,
    events: Seq<TranscodeEvent>,
    output: Seq<char>,
)
    requires
        transcode_state_after(input, events) == TranscodeStateView::Finished(
            TranscodeOutcomeView::Success(output),
        ),
    ensures
        output == output_path(input),
        transcode_actions(input, events).contains(TranscodeActionView::RemoveInput { path: input }),
        events.contains(TranscodeEvent::InputRemoved),
{
    lemma_transcode_invariant(input, events);
}

/// A run in which the encoder reported a failure, or could not be started,
/// has ordered no file to be removed: the input is left where it is.
pub proof fn lemma_failed_encoder_keeps_input(input: Seq<char>, events: Seq<TranscodeEvent>)
    requires
        transcode_state_after(input, events) == TranscodeStateView::Finished(
            TranscodeOutcomeView::UtilityReportedFailure,
        ) || transcode_state_after(input, events) == TranscodeStateView::Finished(
            TranscodeOutcomeView::ProcessSpawnFailure,
        ),
    ensures
        forall|i: int|
            0 <= i < transcode_actions(input, events).len() ==> !is_removal(
                #[trigger] transcode_actions(input, events)[i],
            ),
{
    lemma_transcode_invariant(input, events);
    lemma_count_zero(transcode_actions(input, events), |a: TranscodeActionView| is_removal(a));
}

/// Once a run is over it stays over: further events change neither the
/// outcome nor ask for anything.
pub proof fn lemma_finished_run_is_final(outcome: TranscodeOutcomeView, event: TranscodeEvent)
    ensures
        transcode_next(TranscodeStateView::Finished(outcome), event).state
            == TranscodeStateView::Finished(outcome),
        transcode_next(TranscodeStateView::Finished(outcome), event).action
            == TranscodeActionView::Idle,
{
}

} // verus!
