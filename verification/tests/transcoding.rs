use mpfoer::transcode::{
    encoder_arguments_for, output_path_of, TranscodeAction, TranscodeEvent, TranscodeOutcome,
    TranscodeState, TranscodeStep,
};

fn input() -> String {
    "/tmp/mpfoer/vid-test.mov-abc1234-17".to_string()
}

fn running() -> TranscodeState {
    TranscodeState::start(input()).state.advance(TranscodeEvent::Spawned).state
}

fn removing() -> TranscodeState {
    running().advance(TranscodeEvent::Exited(Some(0))).state
}

fn finished(outcome: TranscodeOutcome) -> TranscodeStep {
    TranscodeStep { state: TranscodeState::Finished(outcome), action: TranscodeAction::Idle }
}

const ALL_EVENTS: [TranscodeEvent; 8] = [
    TranscodeEvent::Spawned,
    TranscodeEvent::SpawnFailed,
    TranscodeEvent::Exited(Some(0)),
    TranscodeEvent::Exited(Some(1)),
    TranscodeEvent::Exited(None),
    TranscodeEvent::WaitFailed,
    TranscodeEvent::InputRemoved,
    TranscodeEvent::RemoveFailed,
];

#[test]
fn output_lies_beside_the_input() {
    assert_eq!(output_path_of("/tmp/mpfoer/in"), "/tmp/mpfoer/in-output.mp4");
    assert_eq!(output_path_of("clip.mov"), "clip.mov-output.mp4");
    assert_eq!(output_path_of(""), "-output.mp4");
}

#[test]
fn encoder_arguments_follow_the_template() {
    let expected: Vec<String> = [
        "-i",
        "/s/in.mov",
        "-c:a",
        "copy",
        "-c:v",
        "h264",
        "-crf",
        "18",
        "-f",
        "mp4",
        "-y",
        "-abort_on",
        "empty_output",
        "/s/in.mov-output.mp4",
    ]
    .iter()
    .map(|s| s.to_string())
    .collect();
    assert_eq!(encoder_arguments_for("/s/in.mov"), expected);
}

#[test]
fn encoder_arguments_pass_the_input_as_one_word() {
    let args = encoder_arguments_for("/s/my clip -y.mov");
    assert_eq!(args.len(), 14);
    assert_eq!(args[1], "/s/my clip -y.mov");
    assert_eq!(args[13], "/s/my clip -y.mov-output.mp4");
}

#[test]
fn run_begins_by_starting_the_encoder() {
    let step = TranscodeState::start(input());
    assert_eq!(step.state, TranscodeState::Spawning { input: input() });
    assert_eq!(
        step.action,
        TranscodeAction::Spawn {
            program: "ffmpeg".to_string(),
            args: encoder_arguments_for(&input()),
        }
    );
    assert_eq!(step.state.outcome(), None);
}

#[test]
fn started_encoder_is_waited_for() {
    let step = TranscodeState::start(input()).state.advance(TranscodeEvent::Spawned);
    assert_eq!(step.state, TranscodeState::Running { input: input() });
    assert_eq!(step.action, TranscodeAction::AwaitExit);
}

#[test]
fn encoder_that_cannot_start_is_a_spawn_failure() {
    let step = TranscodeState::start(input()).state.advance(TranscodeEvent::SpawnFailed);
    assert_eq!(step, finished(TranscodeOutcome::ProcessSpawnFailure));
    assert_eq!(step.state.outcome(), Some(TranscodeOutcome::ProcessSpawnFailure));
}

#[test]
fn exit_code_zero_orders_the_input_removed() {
    let step = running().advance(TranscodeEvent::Exited(Some(0)));
    assert_eq!(step.state, TranscodeState::RemovingInput { input: input() });
    assert_eq!(step.action, TranscodeAction::RemoveInput { path: input() });
}

#[test]
fn exit_code_one_is_a_reported_failure() {
    let step = running().advance(TranscodeEvent::Exited(Some(1)));
    assert_eq!(step, finished(TranscodeOutcome::UtilityReportedFailure));
}

#[test]
fn every_nonzero_exit_code_is_a_reported_failure() {
    for code in [-1, 2, 69, 127, 255, i32::MAX, i32::MIN] {
        let step = running().advance(TranscodeEvent::Exited(Some(code)));
        assert_eq!(step, finished(TranscodeOutcome::UtilityReportedFailure));
    }
}

#[test]
fn end_without_exit_code_is_a_reported_failure() {
    let step = running().advance(TranscodeEvent::Exited(None));
    assert_eq!(step, finished(TranscodeOutcome::UtilityReportedFailure));
}

#[test]
fn failed_wait_is_an_io_failure() {
    let step = running().advance(TranscodeEvent::WaitFailed);
    assert_eq!(step, finished(TranscodeOutcome::IoFailure));
}

#[test]
fn removed_input_completes_the_run() {
    let step = removing().advance(TranscodeEvent::InputRemoved);
    assert_eq!(
        step,
        finished(TranscodeOutcome::Success(
            "/tmp/mpfoer/vid-test.mov-abc1234-17-output.mp4".to_string()
        ))
    );
}

#[test]
fn input_that_cannot_be_removed_is_an_io_failure() {
    let step = removing().advance(TranscodeEvent::RemoveFailed);
    assert_eq!(step, finished(TranscodeOutcome::IoFailure));
}

#[test]
fn events_out_of_turn_change_nothing() {
    let spawning = TranscodeState::start(input()).state;
    for event in ALL_EVENTS {
        if event != TranscodeEvent::Spawned && event != TranscodeEvent::SpawnFailed {
            let step = spawning.clone().advance(event);
            assert_eq!(step.state, spawning);
            assert_eq!(step.action, TranscodeAction::Idle);
        }
    }
    for event in [
        TranscodeEvent::Spawned,
        TranscodeEvent::SpawnFailed,
        TranscodeEvent::InputRemoved,
        TranscodeEvent::RemoveFailed,
    ] {
        let step = running().advance(event);
        assert_eq!(step.state, running());
        assert_eq!(step.action, TranscodeAction::Idle);
    }
    for event in ALL_EVENTS {
        if event != TranscodeEvent::InputRemoved && event != TranscodeEvent::RemoveFailed {
            let step = removing().advance(event);
            assert_eq!(step.state, removing());
            assert_eq!(step.action, TranscodeAction::Idle);
        }
    }
}

#[test]
fn finished_run_stays_finished() {
    let outcomes = [
        TranscodeOutcome::Success("/s/out".to_string()),
        TranscodeOutcome::UtilityReportedFailure,
        TranscodeOutcome::ProcessSpawnFailure,
        TranscodeOutcome::IoFailure,
    ];
    for outcome in outcomes {
        for event in ALL_EVENTS {
            let step = TranscodeState::Finished(outcome.clone()).advance(event);
            assert_eq!(step, finished(outcome.clone()));
        }
    }
}

#[test]
fn encoder_is_started_once_whatever_is_reported() {
    let mut seed: u64 = 0x9e3779b97f4a7c15;
    for _ in 0..500 {
        let first = TranscodeState::start(input());
        let mut spawns = usize::from(matches!(first.action, TranscodeAction::Spawn { .. }));
        let mut removals = 0;
        let mut zero_exit_seen = false;
        let mut state = first.state;
        for _ in 0..12 {
            seed = seed.wrapping_mul(6364136223846793005).wrapping_add(1442695040888963407);
            let event = ALL_EVENTS[(seed >> 33) as usize % ALL_EVENTS.len()];
            let was_running = matches!(state, TranscodeState::Running { .. });
            let step = state.advance(event);
            if was_running && event == TranscodeEvent::Exited(Some(0)) {
                zero_exit_seen = true;
            }
            match &step.action {
                TranscodeAction::Spawn { .. } => spawns += 1,
                TranscodeAction::RemoveInput { path } => {
                    assert_eq!(path, &input());
                    assert!(zero_exit_seen);
                    removals += 1;
                }
                _ => {}
            }
            state = step.state;
        }
        assert_eq!(spawns, 1);
        assert!(removals <= 1);
        if let TranscodeState::Finished(TranscodeOutcome::UtilityReportedFailure) = state {
            assert_eq!(removals, 0);
        }
    }
}
