//! What holds of every download, whatever the caller reports and in whatever
//! order.

use vstd::prelude::*;
use crate::download::{
    download_first, download_next, DownloadActionView, DownloadEvent, DownloadStateView,
};
use crate::error::PipelineError;
use crate::scratch::scratch_path;
use crate::trace::{count, lemma_contains_push, lemma_count_push};

verus! {

/// What a download works with: the scratch directory, the address, and the
/// token and timestamp that go into the name of the file it creates.
pub struct DownloadSetting {
    pub dir: Seq<char>,
    pub url: Seq<char>,
    pub token: Seq<char>,
    pub micros: nat,
}

impl DownloadSetting {
    /// The path of the file that the download creates.
    pub open spec fn path(self) -> Seq<char> {
        scratch_path(self.dir, self.url, self.token, self.micros)
    }
}

/// The state of a download after the caller has reported `events`.
pub open spec fn download_state_after(setting: DownloadSetting, events: Seq<DownloadEvent>) -> DownloadStateView
    decreases events.len(),
{
    if events.len() == 0 {
        download_first(setting.url).state
    } else {
        download_next(
            download_state_after(setting, events.drop_last()),
            events.last(),
            setting.dir,
            setting.token,
            setting.micros,
        ).state
    }
}

/// The actions that a download has asked for by the time the caller has
/// reported `events`: the first one, then one in answer to each event.
pub open spec fn download_actions(setting: DownloadSetting, events: Seq<DownloadEvent>) -> Seq<
    DownloadActionView,
>
    decreases events.len(),
{
    if events.len() == 0 {
        seq![download_first(setting.url).action]
    } else {
        download_actions(setting, events.drop_last()).push(
            download_next(
                download_state_after(setting, events.drop_last()),
                events.last(),
                setting.dir,
                setting.token,
                setting.micros,
            ).action,
        )
    }
}

/// The action issues a request.
pub open spec fn is_get(action: DownloadActionView) -> bool {
    action is Get
}

/// The action creates and writes a file.
pub open spec fn is_write(action: DownloadActionView) -> bool {
    action is Write
}

/// The action makes a file durable.
pub open spec fn is_sync(action: DownloadActionView) -> bool {
    action is Sync
}

/// The number of requests issued.
pub open spec fn gets(actions: Seq<DownloadActionView>) -> nat {
    count(actions, |a: DownloadActionView| is_get(a))
}

/// The number of files created.
pub open spec fn writes(actions: Seq<DownloadActionView>) -> nat {
    count(actions, |a: DownloadActionView| is_write(a))
}

/// The number of times a file was made durable.
pub open spec fn syncs(actions: Seq<DownloadActionView>) -> nat {
    count(actions, |a: DownloadActionView| is_sync(a))
}

/// What the state of a download says of its past.
pub open spec fn download_invariant(setting: DownloadSetting, events: Seq<DownloadEvent>) -> bool {
    let actions = download_actions(setting, events);
    let path = setting.path();
    &&& actions.len() == events.len() + 1
    &&& actions[0] == (DownloadActionView::Get { url: setting.url })
    &&& gets(actions) == 1
    &&& writes(actions) > 0 ==> events.contains(DownloadEvent::Received) && actions.contains(
        DownloadActionView::Write { path },
    )
    &&& syncs(actions) > 0 ==> events.contains(DownloadEvent::Written) && actions.contains(
        DownloadActionView::Sync { path },
    )
    &&& match download_state_after(setting, events) {
        DownloadStateView::Requesting { url } => {
            &&& url == setting.url
            &&& writes(actions) == 0
            &&& syncs(actions) == 0
        },
        DownloadStateView::Writing { path: file } => {
            &&& file == path
            &&& writes(actions) == 1
            &&& syncs(actions) == 0
        },
        DownloadStateView::Syncing { path: file } => {
            &&& file == path
            &&& writes(actions) == 1
            &&& syncs(actions) == 1
        },
        DownloadStateView::Stored { path: file } => {
            &&& file == path
            &&& writes(actions) == 1
            &&& syncs(actions) == 1
            &&& events.contains(DownloadEvent::Synced)
        },
        DownloadStateView::Failed(PipelineError::Network) => {
            &&& writes(actions) == 0
            &&& syncs(actions) == 0
            &&& events.contains(DownloadEvent::RequestFailed)
        },
        DownloadStateView::Failed(PipelineError::Io) => {
            ||| writes(actions) == 1 && syncs(actions) == 0 && events.contains(
                DownloadEvent::WriteFailed,
            )
            ||| writes(actions) == 1 && syncs(actions) == 1 && events.contains(
                DownloadEvent::SyncFailed,
            )
        },
        DownloadStateView::Failed(_) => false,
    }
}

/// The invariant holds of every download.
pub proof fn lemma_download_invariant(setting: DownloadSetting, events: Seq<DownloadEvent>)
    ensures
        download_invariant(setting, events),
    decreases events.len(),
{
    let actions = download_actions(setting, events);
    let get = |a: DownloadActionView| is_get(a);
    let write = |a: DownloadActionView| is_write(a);
    let sync = |a: DownloadActionView| is_sync(a);
    if events.len() == 0 {
        let first = download_first(setting.url).action;
        let none = Seq::<DownloadActionView>::empty();
        assert(actions == none.push(first));
        lemma_count_push(none, first, get);
        lemma_count_push(none, first, write);
        lemma_count_push(none, first, sync);
    } else {
        let before = events.drop_last();
        let event = events.last();
        lemma_download_invariant(setting, before);
        let earlier = download_actions(setting, before);
        let step = download_next(
            download_state_after(setting, before),
            event,
            setting.dir,
            setting.token,
            setting.micros,
        );
        assert(events == before.push(event));
        lemma_count_push(earlier, step.action, get);
        lemma_count_push(earlier, step.action, write);
        lemma_count_push(earlier, step.action, sync);
        lemma_contains_push(earlier, step.action, DownloadActionView::Write { path: setting.path() });
        lemma_contains_push(earlier, step.action, DownloadActionView::Sync { path: setting.path() });
        lemma_contains_push(before, event, DownloadEvent::Received);
        lemma_contains_push(before, event, DownloadEvent::RequestFailed);
        lemma_contains_push(before, event, DownloadEvent::Written);
        lemma_contains_push(before, event, DownloadEvent::WriteFailed);
        lemma_contains_push(before, event, DownloadEvent::Synced);
        lemma_contains_push(before, event, DownloadEvent::SyncFailed);
    }
}

/// A download issues one request, as its first action, and creates at most
/// one file.
pub proof fn lemma_one_request_one_file(setting: DownloadSetting, events: Seq<DownloadEvent>)
    ensures
        download_actions(setting, events)[0] == (DownloadActionView::Get { url: setting.url }),
        gets(download_actions(setting, events)) == 1,
        writes(download_actions(setting, events)) <= 1,
        syncs(download_actions(setting, events)) <= 1,
{
    lemma_download_invariant(setting, events);
}

/// Nothing is written before the whole body has arrived, and nothing is made
/// durable before it was written in full; the file written and made durable
/// is the one that the naming rule gives.
pub proof fn lemma_body_then_write_then_sync(setting: DownloadSetting, events: Seq<DownloadEvent>)
    ensures
        writes(download_actions(setting, events)) > 0 ==> events.contains(DownloadEvent::Received)
            && download_actions(setting, events).contains(
            DownloadActionView::Write { path: setting.path() },
        ),
        syncs(download_actions(setting, events)) > 0 ==> events.contains(DownloadEvent::Written)
            && download_actions(setting, events).contains(
            DownloadActionView::Sync { path: setting.path() },
        ),
{
    lemma_download_invariant(setting, events);
}

/// A download that succeeds hands out the file that the naming rule gives,
/// written once and confirmed durable.
pub proof fn lemma_stored_file_is_durable(
    setting: DownloadSetting,
    events: Seq<DownloadEvent>,
    file: Seq<char>,
)
    requires
        download_state_after(setting, events) == (DownloadStateView::Stored { path: file }),
    ensures
        file == setting.path(),
        writes(download_actions(setting, events)) == 1,
        events.contains(DownloadEvent::Synced),
{
    lemma_download_invariant(setting, events);
}

/// A download fails over the network or over the file system, never
/// otherwise; one that fails over the network has created no file.
pub proof fn lemma_failed_request_creates_nothing(
    setting: DownloadSetting,
    events: Seq<DownloadEvent>,
    error: PipelineError,
)
    requires
        download_state_after(setting, events) == DownloadStateView::Failed(error),
    ensures
        error == PipelineError::Network || error == PipelineError::Io,
        error == PipelineError::Network ==> writes(download_actions(setting, events)) == 0,
{
    lemma_download_invariant(setting, events);
}

} // verus!
