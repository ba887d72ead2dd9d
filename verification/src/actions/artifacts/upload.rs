//! The files of an artifact that is uploaded.

use crate::path::lemmas::lemma_file_name_is_single_component;
use crate::path::relative::{
    are_components, join, lemma_components_of_join, lemma_relative_components, relative_to,
    spec_components, spec_join, spec_relative_to,
};
use crate::path::{file_name, spec_file_name, spec_is_absolute};
use crate::text::{same_text, texts};
use vstd::prelude::*;

verus! {

/// The component that names the directory above.
pub open spec fn parent_dir() -> Seq<char> {
    seq!['.', '.']
}

/// Whether `path` stays below the directory it is resolved against: it does
/// not start at the root and none of its components is `..`.
pub open spec fn is_contained(path: Seq<char>) -> bool {
    !spec_is_absolute(path) && !spec_components(path).contains(parent_dir())
}

/// A local file and the path under which the artifact holds it.
#[derive(Clone, Debug, PartialEq, Eq)]
pub struct FileToUpload {
    /// The path of the file in the local file system.
    pub local_path: String,
    /// The path of the file within the artifact.
    pub remote_path: String,
}

/// A `FileToUpload` over sequences of characters.
pub struct FileToUploadView {
    pub local_path: Seq<char>,
    pub remote_path: Seq<char>,
}

impl View for FileToUpload {
    type V = FileToUploadView;

    open spec fn view(&self) -> FileToUploadView {
        FileToUploadView { local_path: self.local_path@, remote_path: self.remote_path@ }
    }
}

impl FileToUploadView {
    /// Whether the remote path stays within the artifact.
    pub open spec fn well_formed(self) -> bool {
        is_contained(self.remote_path)
    }
}

/// Why a path names no file to upload.
#[derive(Clone, Debug, PartialEq, Eq)]
pub enum UploadPathError {
    /// The path leads to no named entry.
    NoFileName { path: String },
    /// The path does not lie at or below the root.
    NotUnderRoot { root: String, path: String },
    /// The path leaves the root through a `..` component.
    EscapesRoot { root: String, path: String },
}

/// An `UploadPathError` over sequences of characters.
pub enum UploadPathErrorView {
    NoFileName { path: Seq<char> },
    NotUnderRoot { root: Seq<char>, path: Seq<char> },
    EscapesRoot { root: Seq<char>, path: Seq<char> },
}

impl View for UploadPathError {
    type V = UploadPathErrorView;

    open spec fn view(&self) -> UploadPathErrorView {
        match self {
            UploadPathError::NoFileName { path } => UploadPathErrorView::NoFileName { path: path@ },
            UploadPathError::NotUnderRoot { root, path } => UploadPathErrorView::NotUnderRoot {
                root: root@,
                path: path@,
            },
            UploadPathError::EscapesRoot { root, path } => UploadPathErrorView::EscapesRoot {
                root: root@,
                path: path@,
            },
        }
    }
}

/// The view of a result of making a `FileToUpload`.
pub open spec fn file_result_view(r: Result<FileToUpload, UploadPathError>) -> Result<
    FileToUploadView,
    UploadPathErrorView,
> {
    match r {
        Ok(file) => Ok(file@),
        Err(e) => Err(e@),
    }
}

/// The file at `path`, held in the artifact under its file name.
pub open spec fn spec_new(path: Seq<char>) -> Result<FileToUploadView, UploadPathErrorView> {
    match spec_file_name(path) {
        Some(name) => Ok(FileToUploadView { local_path: path, remote_path: name }),
        None => Err(UploadPathErrorView::NoFileName { path }),
    }
}

/// The file at `local_path`, held in the artifact under its path relative to `root_path`.
pub open spec fn spec_new_under_root(root_path: Seq<char>, local_path: Seq<char>) -> Result<
    FileToUploadView,
    UploadPathErrorView,
> {
    match spec_relative_to(local_path, root_path) {
        Some(rest) => {
            if rest.contains(parent_dir()) {
                Err(UploadPathErrorView::EscapesRoot { root: root_path, path: local_path })
            } else {
                Ok(FileToUploadView { local_path, remote_path: spec_join(rest) })
            }
        },
        None => Err(UploadPathErrorView::NotUnderRoot { root: root_path, path: local_path }),
    }
}

/// A file made by `spec_new` stays within the artifact.
pub proof fn lemma_new_well_formed(path: Seq<char>)
    ensures
        spec_new(path) matches Ok(file) ==> file.well_formed(),
{
    if let Some(name) = spec_file_name(path) {
        lemma_file_name_is_single_component(path);
        let parts = seq![name];
        assert(are_components(parts));
        lemma_components_of_join(parts);
        assert(spec_join(parts) == name);
        assert(!parts.contains(parent_dir())) by {
            if parts.contains(parent_dir()) {
                let i = choose|i: int| 0 <= i < parts.len() && parts[i] == parent_dir();
                assert(parts[i] == name);
            }
        }
    }
}

/// A file made by `spec_new_under_root` stays within the artifact.
pub proof fn lemma_new_under_root_well_formed(root_path: Seq<char>, local_path: Seq<char>)
    ensures
        spec_new_under_root(root_path, local_path) matches Ok(file) ==> file.well_formed(),
{
    if spec_relative_to(local_path, root_path) is Some {
        lemma_relative_components(local_path, root_path);
    }
}

/// The remote path of a file below a root leads from the root back to the
/// file: the components of the root, followed by those of the remote path,
/// are the components of the local path.
pub proof fn law_remote_path_leads_back(root_path: Seq<char>, local_path: Seq<char>)
    requires
        spec_new_under_root(root_path, local_path) is Ok,
    ensures
        spec_components(root_path) + spec_components(
            spec_new_under_root(root_path, local_path)->Ok_0.remote_path,
        ) == spec_components(local_path),
{
    lemma_relative_components(local_path, root_path);
}

/// Whether one of `parts` is `..`.
fn has_parent_dir(parts: &Vec<String>) -> (r: bool)
    ensures
        r == texts(parts@).contains(parent_dir()),
{
    let mut i: usize = 0;
    while i < parts.len()
        invariant
            i <= parts.len(),
            forall|k: int| 0 <= k < i ==> texts(parts@)[k] != parent_dir(),
        decreases parts.len() - i,
    {
        if same_text(parts[i].as_str(), "..") {
            proof {
                reveal_strlit("..");
                assert(".."@ =~= parent_dir());
                assert(texts(parts@)[i as int] == parent_dir());
            }
            return true;
        }
        proof {
            reveal_strlit("..");
            assert(".."@ =~= parent_dir());
        }
        i += 1;
    }
    false
}

impl FileToUpload {
    /// The file at `path`, to be held in the artifact under its file name.
    ///
    /// A path that leads to no named entry is an error.
    pub fn new(path: &str) -> (r: Result<FileToUpload, UploadPathError>)
        ensures
            file_result_view(r) == spec_new(path@),
            r matches Ok(file) ==> file@.well_formed(),
    {
        proof {
            lemma_new_well_formed(path@);
        }
        match file_name(path) {
            Some(name) => Ok(FileToUpload { local_path: path.to_owned(), remote_path: name }),
            None => Err(UploadPathError::NoFileName { path: path.to_owned() }),
        }
    }

    /// The file at `local_path`, to be held in the artifact under its path
    /// relative to `root_path`.
    ///
    /// The remote path is made of the components of `local_path` that follow
    /// those of `root_path`. A path that does not lie at or below the root is
    /// an error, and so is one whose remaining components hold `..`.
    pub fn new_under_root(root_path: &str, local_path: &str) -> (r: Result<
        FileToUpload,
        UploadPathError,
    >)
        ensures
            file_result_view(r) == spec_new_under_root(root_path@, local_path@),
            r matches Ok(file) ==> file@.well_formed(),
    {
        proof {
            lemma_new_under_root_well_formed(root_path@, local_path@);
        }
        match relative_to(local_path, root_path) {
            Some(rest) => {
                if has_parent_dir(&rest) {
                    Err(
                        UploadPathError::EscapesRoot {
                            root: root_path.to_owned(),
                            path: local_path.to_owned(),
                        },
                    )
                } else {
                    Ok(FileToUpload { local_path: local_path.to_owned(), remote_path: join(&rest) })
                }
            },
            None => Err(
                UploadPathError::NotUnderRoot {
                    root: root_path.to_owned(),
                    path: local_path.to_owned(),
                },
            ),
        }
    }
}

} // verus!
