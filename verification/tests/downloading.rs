use mpfoer::download::{DownloadAction, DownloadEvent, DownloadState, DownloadStep};
use mpfoer::error::PipelineError;
use mpfoer::scratch::{ScratchFile, ScratchStorage};

const URL: &str = "https://x/test.mov";
const PATH: &str = "/tmp/mpfoer/vid-test.mov-abc1234-17";

const ALL_EVENTS: [DownloadEvent; 6] = [
    DownloadEvent::Received,
    DownloadEvent::RequestFailed,
    DownloadEvent::Written,
    DownloadEvent::WriteFailed,
    DownloadEvent::Synced,
    DownloadEvent::SyncFailed,
];

fn storage() -> ScratchStorage {
    ScratchStorage::standard()
}

fn file() -> ScratchFile {
    ScratchFile { path: PATH.to_string() }
}

fn step(state: DownloadState, event: DownloadEvent) -> DownloadStep {
    state.advance_with(event, &storage(), "abc1234", 17)
}

fn requesting() -> DownloadState {
    DownloadState::start(URL.to_string()).state
}

fn writing() -> DownloadState {
    step(requesting(), DownloadEvent::Received).state
}

fn syncing() -> DownloadState {
    step(writing(), DownloadEvent::Written).state
}

fn failed(error: PipelineError) -> DownloadStep {
    DownloadStep { state: DownloadState::Failed(error), action: DownloadAction::Idle }
}

#[test]
fn download_begins_with_the_request() {
    let first = DownloadState::start(URL.to_string());
    assert_eq!(first.state, DownloadState::Requesting { url: URL.to_string() });
    assert_eq!(first.action, DownloadAction::Get { url: URL.to_string() });
    assert_eq!(first.state.result(), None);
}

#[test]
fn received_body_is_written_to_the_named_file() {
    let next = step(requesting(), DownloadEvent::Received);
    assert_eq!(next.state, DownloadState::Writing { file: file() });
    assert_eq!(next.action, DownloadAction::Write { path: PATH.to_string() });
}

#[test]
fn failed_request_is_a_network_error() {
    assert_eq!(step(requesting(), DownloadEvent::RequestFailed), failed(PipelineError::Network));
    assert_eq!(
        step(requesting(), DownloadEvent::RequestFailed).state.result(),
        Some(Err(PipelineError::Network))
    );
}

#[test]
fn written_file_is_made_durable() {
    let next = step(writing(), DownloadEvent::Written);
    assert_eq!(next.state, DownloadState::Syncing { file: file() });
    assert_eq!(next.action, DownloadAction::Sync { path: PATH.to_string() });
}

#[test]
fn failed_write_is_an_io_error() {
    assert_eq!(step(writing(), DownloadEvent::WriteFailed), failed(PipelineError::Io));
}

#[test]
fn durable_file_is_handed_out() {
    let next = step(syncing(), DownloadEvent::Synced);
    assert_eq!(next.state, DownloadState::Stored { file: file() });
    assert_eq!(next.action, DownloadAction::Idle);
    assert_eq!(next.state.result(), Some(Ok(file())));
}

#[test]
fn failed_sync_is_an_io_error() {
    assert_eq!(step(syncing(), DownloadEvent::SyncFailed), failed(PipelineError::Io));
}

#[test]
fn unfinished_download_has_no_result() {
    assert_eq!(requesting().result(), None);
    assert_eq!(writing().result(), None);
    assert_eq!(syncing().result(), None);
}

#[test]
fn download_events_out_of_turn_change_nothing() {
    let cases = [
        (requesting(), DownloadEvent::Received, DownloadEvent::RequestFailed),
        (writing(), DownloadEvent::Written, DownloadEvent::WriteFailed),
        (syncing(), DownloadEvent::Synced, DownloadEvent::SyncFailed),
    ];
    for (state, good, bad) in cases {
        for event in ALL_EVENTS {
            if event != good && event != bad {
                let next = step(state.clone(), event);
                assert_eq!(next.state, state);
                assert_eq!(next.action, DownloadAction::Idle);
            }
        }
    }
}

#[test]
fn finished_download_stays_finished() {
    let ends = [
        DownloadState::Stored { file: file() },
        DownloadState::Failed(PipelineError::Network),
        DownloadState::Failed(PipelineError::Io),
    ];
    for end in ends {
        for event in ALL_EVENTS {
            let next = step(end.clone(), event);
            assert_eq!(next.state, end);
            assert_eq!(next.action, DownloadAction::Idle);
        }
    }
}

#[test]
fn only_the_naming_step_uses_token_and_timestamp() {
    let a = writing().advance_with(DownloadEvent::Written, &storage(), "zzzzzzz", 1);
    let b = writing().advance_with(DownloadEvent::Written, &storage(), "abc1234", 17);
    assert_eq!(a, b);
}

#[test]
fn advance_names_the_file_afresh() {
    let next = requesting().advance(DownloadEvent::Received, &storage());
    let path = match &next.action {
        DownloadAction::Write { path } => path.clone(),
        other => panic!("expected a write, got {:?}", other),
    };
    assert_eq!(next.state, DownloadState::Writing { file: ScratchFile { path: path.clone() } });
    let rest = path.strip_prefix("/tmp/mpfoer/vid-test.mov-").expect("directory, tag and hint");
    let parts: Vec<&str> = rest.split('-').collect();
    assert_eq!(parts.len(), 2);
    assert_eq!(parts[0].len(), 7);
    assert!(parts[0].chars().all(|c| c.is_ascii_alphanumeric()));
    assert!(parts[1].chars().all(|c| c.is_ascii_digit()));
}

#[test]
fn advance_agrees_with_advance_with_where_no_file_is_named() {
    for event in ALL_EVENTS {
        assert_eq!(writing().advance(event, &storage()), step(writing(), event));
        assert_eq!(syncing().advance(event, &storage()), step(syncing(), event));
        if event != DownloadEvent::Received {
            assert_eq!(requesting().advance(event, &storage()), step(requesting(), event));
        }
    }
}

#[test]
fn download_writes_at_most_one_file_whatever_is_reported() {
    let mut seed: u64 = 0x2545f4914f6cdd1d;
    for _ in 0..500 {
        let first = DownloadState::start(URL.to_string());
        let mut gets = usize::from(matches!(first.action, DownloadAction::Get { .. }));
        let mut writes = 0;
        let mut syncs = 0;
        let mut state = first.state;
        for _ in 0..10 {
            seed = seed.wrapping_mul(6364136223846793005).wrapping_add(1442695040888963407);
            let event = ALL_EVENTS[(seed >> 33) as usize % ALL_EVENTS.len()];
            let next = step(state, event);
            match &next.action {
                DownloadAction::Get { .. } => gets += 1,
                DownloadAction::Write { path } => {
                    assert_eq!(path, PATH);
                    writes += 1;
                }
                DownloadAction::Sync { path } => {
                    assert_eq!(path, PATH);
                    assert_eq!(writes, 1);
                    syncs += 1;
                }
                DownloadAction::Idle => {}
            }
            state = next.state;
        }
        assert_eq!(gets, 1);
        assert!(writes <= 1);
        assert!(syncs <= 1);
        if let DownloadState::Failed(PipelineError::Network) = state {
            assert_eq!(writes, 0);
        }
    }
}
