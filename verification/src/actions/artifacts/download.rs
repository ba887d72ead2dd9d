//! The files of an artifact that is downloaded.

use vstd::prelude::*;

verus! {

/// A file that the store holds for an artifact, as its manifest lists it.
#[derive(Clone, Debug, PartialEq, Eq)]
pub struct FileItem {
    /// The path of the file within the artifact.
    pub path: String,
    /// Where the store serves the content of the file.
    pub content_location: String,
}

/// A `FileItem` over sequences of characters.
pub struct FileItemView {
    pub path: Seq<char>,
    pub content_location: Seq<char>,
}

impl View for FileItem {
    type V = FileItemView;

    open spec fn view(&self) -> FileItemView {
        FileItemView { path: self.path@, content_location: self.content_location@ }
    }
}

/// A remote file and the local path to store it at.
#[derive(Clone, Debug, PartialEq, Eq)]
pub struct FileToDownload {
    /// The local path that receives the content.
    pub target: String,
    /// Where the store serves the content.
    pub remote_source_location: String,
}

/// A `FileToDownload` over sequences of characters.
pub struct FileToDownloadView {
    pub target: Seq<char>,
    pub remote_source_location: Seq<char>,
}

impl View for FileToDownload {
    type V = FileToDownloadView;

    open spec fn view(&self) -> FileToDownloadView {
        FileToDownloadView {
            target: self.target@,
            remote_source_location: self.remote_source_location@,
        }
    }
}

/// Why an artifact cannot be downloaded as a single file.
#[derive(Clone, Debug, PartialEq, Eq)]
pub enum DownloadError {
    /// The artifact holds no file, or more than one.
    NotSingleFile { artifact_name: String, file_count: usize },
}

/// A `DownloadError` over sequences of characters.
pub enum DownloadErrorView {
    NotSingleFile { artifact_name: Seq<char>, file_count: nat },
}

impl View for DownloadError {
    type V = DownloadErrorView;

    open spec fn view(&self) -> DownloadErrorView {
        match self {
            DownloadError::NotSingleFile { artifact_name, file_count } => {
                DownloadErrorView::NotSingleFile {
                    artifact_name: artifact_name@,
                    file_count: *file_count as nat,
                }
            },
        }
    }
}

impl DownloadErrorView {
    /// The error in words.
    pub open spec fn message(self) -> Seq<char> {
        match self {
            DownloadErrorView::NotSingleFile { artifact_name, .. } => "The artifact "@
                + artifact_name + " does not contain only a single file."@,
        }
    }
}

impl DownloadError {
    /// The error in words.
    pub fn message(&self) -> (r: String)
        ensures
            r@ == self@.message(),
    {
        match self {
            DownloadError::NotSingleFile { artifact_name, .. } => String::from_str(
                "The artifact ",
            ).concat(artifact_name.as_str()).concat(" does not contain only a single file."),
        }
    }
}

/// What `download_single_file_artifact` returns, over sequences of characters.
pub open spec fn download_view(r: Result<FileToDownload, DownloadError>) -> Result<
    FileToDownloadView,
    DownloadErrorView,
> {
    match r {
        Ok(file) => Ok(file@),
        Err(e) => Err(e@),
    }
}

/// The files of a manifest over sequences of characters.
pub open spec fn items_view(items: Seq<FileItem>) -> Seq<FileItemView> {
    items.map_values(|item: FileItem| item@)
}

/// The file to fetch for an artifact that is to be downloaded as a single
/// file: the only file of its manifest, to be stored at `target`. A manifest
/// that lists no file, or more than one, is an error.
pub open spec fn spec_download_single_file_artifact(
    artifact_name: Seq<char>,
    file_items: Seq<FileItemView>,
    target: Seq<char>,
) -> Result<FileToDownloadView, DownloadErrorView> {
    if file_items.len() == 1 {
        Ok(FileToDownloadView { target, remote_source_location: file_items[0].content_location })
    } else {
        Err(DownloadErrorView::NotSingleFile { artifact_name, file_count: file_items.len() })
    }
}

} // verus!
