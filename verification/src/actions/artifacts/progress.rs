//! The course of the upload of an artifact: its states, what happens to it,
//! and what the uploader does in turn.

use crate::actions::artifacts::upload::{FileToUpload, FileToUploadView};
use vstd::prelude::*;

verus! {

/// How far the upload of an artifact has come.
#[derive(Copy, Clone, Debug, PartialEq, Eq)]
pub enum UploadPhase {
    /// The next file of the sequence is awaited.
    Ready,
    /// A file is on its way to the store.
    Uploading,
    /// Every file was accepted, and the size of the artifact is on its way.
    Finalizing,
    /// The artifact is complete.
    Done,
    /// The upload has failed, and nothing more is sent.
    Failed,
}

/// The state of the upload of an artifact.
#[derive(Copy, Clone, Debug, PartialEq, Eq)]
pub struct UploadState {
    pub phase: UploadPhase,
    /// The sizes of the files that the store has accepted, added up.
    pub total_size: u64,
}

/// What happens during the upload of an artifact.
#[derive(Clone, Debug, PartialEq, Eq)]
pub enum UploadEvent {
    /// The sequence of files yields its next file.
    File(FileToUpload),
    /// The sequence of files is drained.
    Exhausted,
    /// The store has accepted the file that was sent, which has `size` bytes.
    Accepted { size: u64 },
    /// The file that was sent did not reach the store.
    Rejected { message: String },
    /// The store has taken the size of the artifact.
    Finalized,
    /// The size of the artifact did not reach the store.
    FinalizeFailed { message: String },
}

/// An `UploadEvent` over sequences of characters.
pub enum UploadEventView {
    File(FileToUploadView),
    Exhausted,
    Accepted { size: u64 },
    Rejected { message: Seq<char> },
    Finalized,
    FinalizeFailed { message: Seq<char> },
}

impl View for UploadEvent {
    type V = UploadEventView;

    open spec fn view(&self) -> UploadEventView {
        match self {
            UploadEvent::File(file) => UploadEventView::File(file@),
            UploadEvent::Exhausted => UploadEventView::Exhausted,
            UploadEvent::Accepted { size } => UploadEventView::Accepted { size: *size },
            UploadEvent::Rejected { message } => UploadEventView::Rejected { message: message@ },
            UploadEvent::Finalized => UploadEventView::Finalized,
            UploadEvent::FinalizeFailed { message } => UploadEventView::FinalizeFailed {
                message: message@,
            },
        }
    }
}

/// Why the upload of an artifact failed.
#[derive(Clone, Debug, PartialEq, Eq)]
pub enum UploadError {
    /// A file did not reach the store.
    FileRejected { message: String },
    /// The sizes of the files add up to more than can be reported.
    SizeOverflow,
    /// The size of the artifact did not reach the store.
    FinalizeFailed { message: String },
    /// The event cannot occur in the phase that the upload is in.
    UnexpectedEvent,
}

/// An `UploadError` over sequences of characters.
pub enum UploadErrorView {
    FileRejected { message: Seq<char> },
    SizeOverflow,
    FinalizeFailed { message: Seq<char> },
    UnexpectedEvent,
}

impl View for UploadError {
    type V = UploadErrorView;

    open spec fn view(&self) -> UploadErrorView {
        match self {
            UploadError::FileRejected { message } => UploadErrorView::FileRejected {
                message: message@,
            },
            UploadError::SizeOverflow => UploadErrorView::SizeOverflow,
            UploadError::FinalizeFailed { message } => UploadErrorView::FinalizeFailed {
                message: message@,
            },
            UploadError::UnexpectedEvent => UploadErrorView::UnexpectedEvent,
        }
    }
}

/// What the uploader is to do next.
#[derive(Clone, Debug, PartialEq, Eq)]
pub enum UploadAction {
    /// Ask the sequence of files for its next file.
    Next,
    /// Send the file to the store.
    Upload(FileToUpload),
    /// Report the size of the artifact to the store, which completes it.
    Finalize { total_size: u64 },
    /// Nothing is left to do: the artifact is complete.
    Complete,
    /// Give up with the error.
    Abort(UploadError),
}

/// An `UploadAction` over sequences of characters.
pub enum UploadActionView {
    Next,
    Upload(FileToUploadView),
    Finalize { total_size: u64 },
    Complete,
    Abort(UploadErrorView),
}

impl View for UploadAction {
    type V = UploadActionView;

    open spec fn view(&self) -> UploadActionView {
        match self {
            UploadAction::Next => UploadActionView::Next,
            UploadAction::Upload(file) => UploadActionView::Upload(file@),
            UploadAction::Finalize { total_size } => UploadActionView::Finalize {
                total_size: *total_size,
            },
            UploadAction::Complete => UploadActionView::Complete,
            UploadAction::Abort(e) => UploadActionView::Abort(e@),
        }
    }
}

impl UploadState {
    /// This state, once the upload has failed.
    pub open spec fn failed(self) -> UploadState {
        UploadState { phase: UploadPhase::Failed, total_size: self.total_size }
    }

    /// The state before the first file.
    pub open spec fn spec_new() -> UploadState {
        UploadState { phase: UploadPhase::Ready, total_size: 0 }
    }

    /// The state before the first file: the sequence is to be asked for it.
    pub fn new() -> (r: UploadState)
        ensures
            r == Self::spec_new(),
    {
        UploadState { phase: UploadPhase::Ready, total_size: 0 }
    }
}

/// The step that the upload of an artifact takes on an event: the state
/// that follows, and what the uploader is to do next.
///
/// While files are awaited, a file is sent and the end of the sequence
/// finalizes the artifact with the sizes added up so far. While a file is on
/// its way, its acceptance adds its size and asks for the next file, and its
/// rejection fails the upload. While the size is on its way, its acceptance
/// completes the artifact. Everything else fails the upload.
pub open spec fn spec_upload(state: UploadState, event: UploadEventView) -> (
    UploadState,
    UploadActionView,
) {
    match (state.phase, event) {
        (UploadPhase::Ready, UploadEventView::File(file)) => (
            UploadState { phase: UploadPhase::Uploading, total_size: state.total_size },
            UploadActionView::Upload(file),
        ),
        (UploadPhase::Ready, UploadEventView::Exhausted) => (
            UploadState { phase: UploadPhase::Finalizing, total_size: state.total_size },
            UploadActionView::Finalize { total_size: state.total_size },
        ),
        (UploadPhase::Uploading, UploadEventView::Accepted { size }) => {
            if state.total_size + size <= u64::MAX {
                (
                    UploadState {
                        phase: UploadPhase::Ready,
                        total_size: (state.total_size + size) as u64,
                    },
                    UploadActionView::Next,
                )
            } else {
                (state.failed(), UploadActionView::Abort(UploadErrorView::SizeOverflow))
            }
        },
        (UploadPhase::Uploading, UploadEventView::Rejected { message }) => (
            state.failed(),
            UploadActionView::Abort(UploadErrorView::FileRejected { message }),
        ),
        (UploadPhase::Finalizing, UploadEventView::Finalized) => (
            UploadState { phase: UploadPhase::Done, total_size: state.total_size },
            UploadActionView::Complete,
        ),
        (UploadPhase::Finalizing, UploadEventView::FinalizeFailed { message }) => (
            state.failed(),
            UploadActionView::Abort(UploadErrorView::FinalizeFailed { message }),
        ),
        _ => (state.failed(), UploadActionView::Abort(UploadErrorView::UnexpectedEvent)),
    }
}

/// The state of an upload after `events`, in their order.
pub open spec fn spec_upload_run(events: Seq<UploadEventView>) -> UploadState
    decreases events.len(),
{
    if events.len() == 0 {
        UploadState::spec_new()
    } else {
        spec_upload(spec_upload_run(events.drop_last()), events.last()).0
    }
}

/// What the uploader is to do on the event at `index` of `events`.
pub open spec fn spec_upload_action(events: Seq<UploadEventView>, index: int) -> UploadActionView {
    spec_upload(spec_upload_run(events.take(index)), events[index]).1
}

/// The sizes of the files that `events` report as accepted, added up.
pub open spec fn accepted_total(events: Seq<UploadEventView>) -> int
    decreases events.len(),
{
    if events.len() == 0 {
        0
    } else {
        accepted_total(events.drop_last()) + match events.last() {
            UploadEventView::Accepted { size } => size as int,
            _ => 0,
        }
    }
}

/// Whether every file that was sent during the first `end` of `events` was
/// accepted by the event that follows, within those `end` events.
pub open spec fn uploads_accepted(events: Seq<UploadEventView>, end: int) -> bool {
    forall|j: int|
        0 <= j < end && #[trigger] spec_upload_action(events, j) is Upload ==> j + 1 < end
            && events[j + 1] is Accepted
}

/// Whether none of the first `end` of `events` reports a rejected file.
pub open spec fn none_rejected(events: Seq<UploadEventView>, end: int) -> bool {
    forall|j: int| 0 <= j < end ==> !(#[trigger] events[j] is Rejected)
}

/// Whether none of the first `end` of `events` reports the end of the sequence of files.
pub open spec fn none_exhausted(events: Seq<UploadEventView>, end: int) -> bool {
    forall|j: int| 0 <= j < end ==> !(#[trigger] events[j] is Exhausted)
}

/// What holds of an upload that has not failed.
proof fn lemma_upload_invariant(events: Seq<UploadEventView>)
    ensures
        ({
            let state = spec_upload_run(events);
            let n = events.len() as int;
            state.phase != UploadPhase::Failed ==> {
                &&& none_rejected(events, n)
                &&& state.total_size == accepted_total(events)
                &&& state.phase == UploadPhase::Uploading ==> n > 0 && spec_upload_action(
                    events,
                    n - 1,
                ) is Upload && uploads_accepted(events, n - 1)
                &&& state.phase != UploadPhase::Uploading ==> uploads_accepted(events, n)
                &&& state.phase == UploadPhase::Ready || state.phase == UploadPhase::Uploading
                    ==> none_exhausted(events, n)
                &&& state.phase == UploadPhase::Finalizing ==> n > 0 && spec_upload_action(
                    events,
                    n - 1,
                ) is Finalize
            }
        }),
    decreases events.len(),
{
    let n = events.len() as int;
    if n > 0 {
        let init = events.drop_last();
        lemma_upload_invariant(init);
        let before = spec_upload_run(init);
        let state = spec_upload_run(events);
        assert(events.take(n - 1) =~= init);
        if state.phase != UploadPhase::Failed {
            assert(before.phase != UploadPhase::Failed);
            assert forall|j: int| 0 <= j < n - 1 implies init[j] == events[j] by {}
            assert forall|j: int| 0 <= j < n - 1 implies spec_upload_action(init, j)
                == spec_upload_action(events, j) by {
                assert(init.take(j) =~= events.take(j));
            }
            assert(none_rejected(events, n)) by {
                assert forall|j: int| 0 <= j < n implies !(#[trigger] events[j] is Rejected) by {
                    if j < n - 1 {
                        assert(init[j] == events[j]);
                    }
                }
            }
            if state.phase == UploadPhase::Ready || state.phase == UploadPhase::Uploading {
                assert forall|j: int| 0 <= j < n implies !(#[trigger] events[j] is Exhausted) by {
                    if j < n - 1 {
                        assert(init[j] == events[j]);
                    }
                }
            }
            if state.phase == UploadPhase::Uploading {
                assert(before.phase == UploadPhase::Ready);
                assert forall|j: int|
                    0 <= j < n - 1 && #[trigger] spec_upload_action(events, j) is Upload implies j
                    + 1 < n - 1 && events[j + 1] is Accepted by {
                    assert(spec_upload_action(init, j) is Upload);
                    assert(init[j + 1] == events[j + 1]);
                }
            } else {
                assert forall|j: int|
                    0 <= j < n && #[trigger] spec_upload_action(events, j) is Upload implies j + 1
                    < n && events[j + 1] is Accepted by {
                    if j < n - 1 {
                        assert(spec_upload_action(init, j) is Upload);
                        if before.phase == UploadPhase::Uploading {
                            if j < n - 2 {
                                assert(init[j + 1] == events[j + 1]);
                            }
                        } else {
                            assert(init[j + 1] == events[j + 1]);
                        }
                    }
                }
            }
        }
    }
}

/// The artifact is finalized only after every file was accepted: where the
/// event at `index` makes the uploader finalize, no file was rejected
/// before, every file that was sent was accepted by the event that followed,
/// and the size that is reported is the sum of the sizes that were accepted.
pub proof fn law_finalize_follows_accepted_uploads(events: Seq<UploadEventView>, index: int)
    requires
        0 <= index < events.len(),
        spec_upload_action(events, index) is Finalize,
    ensures
        none_rejected(events, index),
        uploads_accepted(events, index),
        spec_upload_action(events, index)->total_size == accepted_total(events.take(index)),
{
    let seen = events.take(index);
    lemma_upload_invariant(seen);
    assert(spec_upload_run(seen).phase == UploadPhase::Ready);
    assert forall|j: int| 0 <= j < index implies !(#[trigger] events[j] is Rejected) by {
        assert(seen[j] == events[j]);
    }
    assert forall|j: int|
        0 <= j < index && #[trigger] spec_upload_action(events, j) is Upload implies j + 1 < index
        && events[j + 1] is Accepted by {
        assert(seen.take(j) =~= events.take(j));
        assert(spec_upload_action(seen, j) == spec_upload_action(events, j));
        assert(seen[j + 1] == events[j + 1]);
    }
}

/// A file that is rejected fails the whole upload: no event after the
/// rejection makes the uploader finalize the artifact.
pub proof fn law_rejected_upload_never_finalizes(
    events: Seq<UploadEventView>,
    rejection: int,
    later: int,
)
    requires
        0 <= rejection < later < events.len(),
        events[rejection] is Rejected,
    ensures
        !(spec_upload_action(events, later) is Finalize),
{
    if spec_upload_action(events, later) is Finalize {
        law_finalize_follows_accepted_uploads(events, later);
    }
}

/// The artifact is finalized at most once.
pub proof fn law_finalized_once(events: Seq<UploadEventView>, first: int, second: int)
    requires
        0 <= first < second < events.len(),
        spec_upload_action(events, first) is Finalize,
    ensures
        !(spec_upload_action(events, second) is Finalize),
{
    if spec_upload_action(events, second) is Finalize {
        let seen = events.take(second);
        lemma_upload_invariant(seen);
        assert(spec_upload_run(seen).phase == UploadPhase::Ready);
        assert(seen[first] == events[first]);
        assert(events[first] is Exhausted);
    }
}

/// The artifact is complete only once the store has taken its size: the
/// event that completes it follows directly on the one that made the
/// uploader finalize.
pub proof fn law_complete_follows_finalize(events: Seq<UploadEventView>, index: int)
    requires
        0 <= index < events.len(),
        spec_upload_action(events, index) is Complete,
    ensures
        index > 0,
        spec_upload_action(events, index - 1) is Finalize,
        events[index] is Finalized,
{
    let seen = events.take(index);
    lemma_upload_invariant(seen);
    assert(spec_upload_run(seen).phase == UploadPhase::Finalizing);
    assert(seen.take(index - 1) =~= events.take(index - 1));
    assert(seen[index - 1] == events[index - 1]);
}

} // verus!
