//! Moving files to and from the store of build artifacts.
//!
//! The walk of the directory tree, the channel to the uploader and the
//! exchange with the store happen elsewhere. Here stand the decisions: which
//! entries of a walk become files of the artifact, when an upload is
//! finalized, and which file a download fetches.

pub mod discovery;
pub mod download;
pub mod progress;
pub mod upload;

use crate::actions::artifacts::discovery::{
    collected_view, fed_view, files_view, lemma_discovery_stays_failed, spec_discover,
    spec_discovered, walk_view, Discovery, DiscoveryError, WalkEvent,
};
use crate::actions::artifacts::download::{
    download_view, items_view, spec_download_single_file_artifact, DownloadError, FileItem,
    FileToDownload,
};
use crate::actions::artifacts::progress::{
    spec_upload, UploadAction, UploadError, UploadEvent, UploadPhase, UploadState,
};
use crate::actions::artifacts::upload::{
    file_result_view, spec_new, FileToUpload, UploadPathError,
};
use vstd::prelude::*;

verus! {

/// Decides what one event of the walk below `root_path` contributes to the
/// artifact.
///
/// A file entry contributes a `FileToUpload` whose remote path is its path
/// relative to the root. Directories and other entries contribute nothing. A
/// failure of the walk ends the discovery, and so does a file that has no
/// place below the root.
pub fn discover(root_path: &str, event: &WalkEvent) -> (r: Result<
    Option<FileToUpload>,
    DiscoveryError,
>)
    ensures
        fed_view(r) == spec_discover(root_path@, event@),
        r matches Ok(Some(file)) ==> file@.well_formed(),
{
    match event {
        WalkEvent::Failure { message } => Err(DiscoveryError::Walk { message: message.clone() }),
        WalkEvent::Entry(entry) => {
            if entry.is_file {
                match FileToUpload::new_under_root(root_path, entry.path.as_str()) {
                    Ok(file) => Ok(Some(file)),
                    Err(e) => Err(DiscoveryError::Path(e)),
                }
            } else {
                Ok(None)
            }
        },
    }
}

/// Decides how the discovery goes on once a file was handed to the channel.
///
/// It goes on where the file was taken. Where no receiver is left, the walk
/// ends early: nobody wants the files, and that is no failure.
pub fn after_feed(delivered: bool) -> (r: Discovery)
    ensures
        delivered ==> r == Discovery::Continue,
        !delivered ==> r == Discovery::Stop,
{
    if delivered {
        Discovery::Continue
    } else {
        Discovery::Stop
    }
}

/// The sending end of a channel of `flume`. Nothing is known of the channel
/// behind it.
#[verifier::external_type_specification]
#[verifier::external_body]
#[verifier::reject_recursive_types(T)]
pub struct ExSender<T>(flume::Sender<T>);

/// Hands `file` to the channel with `flume::Sender::send`, and tells whether
/// the channel took it.
///
/// Nothing is claimed of the answer: it depends on whether a receiver is
/// left. On a channel without a bound the call does not wait.
#[verifier::external_body]
fn send(sender: &flume::Sender<FileToUpload>, file: FileToUpload) -> (delivered: bool) {
    sender.send(file).is_ok()
}

/// Feeds what one event of the walk below `root_path` contributes to the
/// channel of the uploader, and decides how the discovery goes on.
///
/// An event that contributes nothing lets the walk continue. A file is
/// handed to the channel: the walk continues where the channel took it, and
/// stops where no receiver is left. An event that ends the discovery, as
/// `discover` judges it, gives its error, and nothing is handed over.
pub fn discover_and_feed(
    root_path: &str,
    event: &WalkEvent,
    sender: &flume::Sender<FileToUpload>,
) -> (r: Result<Discovery, DiscoveryError>)
    ensures
        match spec_discover(root_path@, event@) {
            Ok(Some(_)) => r is Ok,
            Ok(None) => r == Ok::<Discovery, DiscoveryError>(Discovery::Continue),
            Err(e) => r is Err && r->Err_0@ == e,
        },
{
    match discover(root_path, event) {
        Ok(Some(file)) => Ok(after_feed(send(sender, file))),
        Ok(None) => Ok(Discovery::Continue),
        Err(e) => Err(e),
    }
}

/// The files of the directory tree below `path`, given all that a walk of
/// the tree yielded, in the order of the walk.
///
/// Each event is judged as `discover` judges it, and the first event that
/// ends the discovery gives the error.
pub fn single_dir_provider(path: &str, walk: &Vec<WalkEvent>) -> (r: Result<
    Vec<FileToUpload>,
    DiscoveryError,
>)
    ensures
        collected_view(r) == spec_discovered(path@, walk_view(walk@)),
        r matches Ok(files) ==> forall|i: int|
            0 <= i < files.len() ==> (#[trigger] files[i])@.well_formed(),
{
    let mut files: Vec<FileToUpload> = Vec::new();
    let mut i: usize = 0;
    assert(walk_view(walk@).take(0) =~= Seq::empty());
    assert(files_view(files@) =~= Seq::empty());
    while i < walk.len()
        invariant
            i <= walk.len(),
            spec_discovered(path@, walk_view(walk@).take(i as int)) == collected_view(Ok(files)),
            forall|k: int| 0 <= k < files.len() ==> (#[trigger] files[k])@.well_formed(),
        decreases walk.len() - i,
    {
        let ghost seen = walk_view(walk@).take(i + 1);
        assert(seen.drop_last() =~= walk_view(walk@).take(i as int));
        assert(seen.last() == walk@[i as int]@);
        match discover(path, &walk[i]) {
            Ok(Some(file)) => {
                let ghost before = files@;
                files.push(file);
                assert(files_view(files@) =~= files_view(before).push(file@));
            },
            Ok(None) => {},
            Err(e) => {
                proof {
                    lemma_discovery_stays_failed(path@, walk_view(walk@), i + 1);
                }
                return Err(e);
            },
        }
        i += 1;
    }
    assert(walk_view(walk@).take(i as int) =~= walk_view(walk@));
    Ok(files)
}

/// The single file at `path`, to be held in the artifact under its file name.
pub fn single_file_provider(path: &str) -> (r: Result<Vec<FileToUpload>, UploadPathError>)
    ensures
        match r {
            Ok(files) => files.len() == 1 && file_result_view(Ok(files[0])) == spec_new(path@)
                && files[0]@.well_formed(),
            Err(e) => file_result_view(Err(e)) == spec_new(path@),
        },
{
    let file = FileToUpload::new(path)?;
    let mut files: Vec<FileToUpload> = Vec::new();
    files.push(file);
    Ok(files)
}

/// Decides what to fetch for the artifact `artifact_name`, which is to be
/// downloaded as a single file to `target`.
///
/// `file_items` is the manifest of the artifact. Where it lists exactly one
/// file, that file is fetched from where the store serves it. Any other
/// manifest is an error, and nothing is to be fetched.
pub fn download_single_file_artifact(
    artifact_name: &str,
    file_items: &Vec<FileItem>,
    target: &str,
) -> (r: Result<FileToDownload, DownloadError>)
    ensures
        download_view(r) == spec_download_single_file_artifact(
            artifact_name@,
            items_view(file_items@),
            target@,
        ),
{
    if file_items.len() == 1 {
        Ok(
            FileToDownload {
                target: target.to_owned(),
                remote_source_location: file_items[0].content_location.clone(),
            },
        )
    } else {
        Err(
            DownloadError::NotSingleFile {
                artifact_name: artifact_name.to_owned(),
                file_count: file_items.len(),
            },
        )
    }
}

/// Decides the next step of the upload of an artifact.
///
/// The uploader starts from `UploadState::new()` by asking the sequence of
/// files for its first file. It then hands each thing that happens to this
/// function, goes on from the state that comes back, and does what the
/// action says. The artifact is finalized only once the sequence is drained
/// and every file was accepted. A file that is rejected fails the upload,
/// and nothing is sent after that.
pub fn upload(state: UploadState, event: UploadEvent) -> (r: (UploadState, UploadAction))
    ensures
        (r.0, r.1@) == spec_upload(state, event@),
{
    let failed = UploadState { phase: UploadPhase::Failed, total_size: state.total_size };
    match (state.phase, event) {
        (UploadPhase::Ready, UploadEvent::File(file)) => (
            UploadState { phase: UploadPhase::Uploading, total_size: state.total_size },
            UploadAction::Upload(file),
        ),
        (UploadPhase::Ready, UploadEvent::Exhausted) => (
            UploadState { phase: UploadPhase::Finalizing, total_size: state.total_size },
            UploadAction::Finalize { total_size: state.total_size },
        ),
        (UploadPhase::Uploading, UploadEvent::Accepted { size }) => {
            match state.total_size.checked_add(size) {
                Some(total_size) => (
                    UploadState { phase: UploadPhase::Ready, total_size },
                    UploadAction::Next,
                ),
                None => (failed, UploadAction::Abort(UploadError::SizeOverflow)),
            }
        },
        (UploadPhase::Uploading, UploadEvent::Rejected { message }) => (
            failed,
            UploadAction::Abort(UploadError::FileRejected { message }),
        ),
        (UploadPhase::Finalizing, UploadEvent::Finalized) => (
            UploadState { phase: UploadPhase::Done, total_size: state.total_size },
            UploadAction::Complete,
        ),
        (UploadPhase::Finalizing, UploadEvent::FinalizeFailed { message }) => (
            failed,
            UploadAction::Abort(UploadError::FinalizeFailed { message }),
        ),
        _ => (failed, UploadAction::Abort(UploadError::UnexpectedEvent)),
    }
}

} // verus!
