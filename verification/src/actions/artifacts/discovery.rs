//! The walk of a directory tree, and the files that it contributes to an artifact.

use crate::actions::artifacts::upload::{
    spec_new_under_root, FileToUpload, FileToUploadView, UploadPathError, UploadPathErrorView,
};
use vstd::prelude::*;

verus! {

/// An entry that the walk of a directory tree came upon.
#[derive(Clone, Debug, PartialEq, Eq)]
pub struct WalkEntry {
    pub path: String,
    pub is_file: bool,
}

/// What the walk of a directory tree yields next.
#[derive(Clone, Debug, PartialEq, Eq)]
pub enum WalkEvent {
    /// An entry of the tree.
    Entry(WalkEntry),
    /// An entry could not be read.
    Failure { message: String },
}

/// A `WalkEvent` over sequences of characters.
pub enum WalkEventView {
    Entry { path: Seq<char>, is_file: bool },
    Failure { message: Seq<char> },
}

impl View for WalkEvent {
    type V = WalkEventView;

    open spec fn view(&self) -> WalkEventView {
        match self {
            WalkEvent::Entry(entry) => WalkEventView::Entry {
                path: entry.path@,
                is_file: entry.is_file,
            },
            WalkEvent::Failure { message } => WalkEventView::Failure { message: message@ },
        }
    }
}

/// Why the discovery of files ended early.
#[derive(Clone, Debug, PartialEq, Eq)]
pub enum DiscoveryError {
    /// The walk could not read an entry.
    Walk { message: String },
    /// A file of the walk has no place in the artifact.
    Path(UploadPathError),
}

/// A `DiscoveryError` over sequences of characters.
pub enum DiscoveryErrorView {
    Walk { message: Seq<char> },
    Path(UploadPathErrorView),
}

impl View for DiscoveryError {
    type V = DiscoveryErrorView;

    open spec fn view(&self) -> DiscoveryErrorView {
        match self {
            DiscoveryError::Walk { message } => DiscoveryErrorView::Walk { message: message@ },
            DiscoveryError::Path(e) => DiscoveryErrorView::Path(e@),
        }
    }
}

/// The file that one event of the walk below `root_path` contributes: a
/// file entry contributes itself, under its path relative to the root. Any
/// other entry contributes nothing. A failure of the walk, and a file that
/// has no place below the root, end the discovery.
pub open spec fn spec_discover(root_path: Seq<char>, event: WalkEventView) -> Result<
    Option<FileToUploadView>,
    DiscoveryErrorView,
> {
    match event {
        WalkEventView::Failure { message } => Err(DiscoveryErrorView::Walk { message }),
        WalkEventView::Entry { path, is_file } => {
            if is_file {
                match spec_new_under_root(root_path, path) {
                    Ok(file) => Ok(Some(file)),
                    Err(e) => Err(DiscoveryErrorView::Path(e)),
                }
            } else {
                Ok(None)
            }
        },
    }
}

/// The files that the events of a walk contribute, in the order of the
/// walk, or the error of the first event that ends the discovery.
pub open spec fn spec_discovered(root_path: Seq<char>, walk: Seq<WalkEventView>) -> Result<
    Seq<FileToUploadView>,
    DiscoveryErrorView,
>
    decreases walk.len(),
{
    if walk.len() == 0 {
        Ok(Seq::empty())
    } else {
        match spec_discovered(root_path, walk.drop_last()) {
            Ok(files) => match spec_discover(root_path, walk.last()) {
                Ok(Some(file)) => Ok(files.push(file)),
                Ok(None) => Ok(files),
                Err(e) => Err(e),
            },
            Err(e) => Err(e),
        }
    }
}

/// The events of a walk over sequences of characters.
pub open spec fn walk_view(walk: Seq<WalkEvent>) -> Seq<WalkEventView> {
    walk.map_values(|event: WalkEvent| event@)
}

/// Files over sequences of characters.
pub open spec fn files_view(files: Seq<FileToUpload>) -> Seq<FileToUploadView> {
    files.map_values(|file: FileToUpload| file@)
}

/// What `discover` returns, over sequences of characters.
pub open spec fn fed_view(r: Result<Option<FileToUpload>, DiscoveryError>) -> Result<
    Option<FileToUploadView>,
    DiscoveryErrorView,
> {
    match r {
        Ok(Some(file)) => Ok(Some(file@)),
        Ok(None) => Ok(None),
        Err(e) => Err(e@),
    }
}

/// What `single_dir_provider` returns, over sequences of characters.
pub open spec fn collected_view(r: Result<Vec<FileToUpload>, DiscoveryError>) -> Result<
    Seq<FileToUploadView>,
    DiscoveryErrorView,
> {
    match r {
        Ok(files) => Ok(files_view(files@)),
        Err(e) => Err(e@),
    }
}

/// Whether the discovery of files goes on.
#[derive(Copy, Clone, Debug, PartialEq, Eq)]
pub enum Discovery {
    /// The walk goes on to its next entry.
    Continue,
    /// The walk ends here, though entries may be left.
    Stop,
}

/// Once the events up to `n` end the discovery, so do all the events, with the same error.
pub proof fn lemma_discovery_stays_failed(root_path: Seq<char>, walk: Seq<WalkEventView>, n: int)
    requires
        0 <= n <= walk.len(),
        spec_discovered(root_path, walk.take(n)) is Err,
    ensures
        spec_discovered(root_path, walk) == spec_discovered(root_path, walk.take(n)),
    decreases walk.len() - n,
{
    if n < walk.len() {
        assert(walk.take(n + 1).drop_last() =~= walk.take(n));
        lemma_discovery_stays_failed(root_path, walk, n + 1);
    } else {
        assert(walk.take(n) =~= walk);
    }
}

/// The files that the events of a walk contribute when each is judged by
/// itself, as a set: a file belongs to it where some event contributes it.
pub open spec fn discovered_set(root_path: Seq<char>, walk: Seq<WalkEventView>) -> Set<
    FileToUploadView,
> {
    Set::new(
        |file: FileToUploadView|
            exists|i: int|
                0 <= i < walk.len() && spec_discover(root_path, #[trigger] walk[i]) == Ok::<
                    Option<FileToUploadView>,
                    DiscoveryErrorView,
                >(Some(file)),
    )
}

/// Whether no event of the walk ends the discovery.
pub open spec fn walk_succeeds(root_path: Seq<char>, walk: Seq<WalkEventView>) -> bool {
    forall|i: int| 0 <= i < walk.len() ==> spec_discover(root_path, #[trigger] walk[i]) is Ok
}

/// Feeding the files of a walk one by one and collecting them at once yield
/// the same set of files: the list that is collected holds just the files
/// that the single events contribute, and it exists where no event ends the
/// discovery.
pub proof fn law_collected_files_are_fed_files(root_path: Seq<char>, walk: Seq<WalkEventView>)
    ensures
        spec_discovered(root_path, walk) is Ok <==> walk_succeeds(root_path, walk),
        spec_discovered(root_path, walk) matches Ok(files) ==> files.to_set() == discovered_set(
            root_path,
            walk,
        ),
    decreases walk.len(),
{
    if walk.len() == 0 {
        assert(Seq::<FileToUploadView>::empty().to_set() =~= discovered_set(root_path, walk));
    } else {
        let init = walk.drop_last();
        law_collected_files_are_fed_files(root_path, init);
        assert forall|i: int| 0 <= i < init.len() implies init[i] == walk[i] by {}
        if walk_succeeds(root_path, walk) {
            assert forall|i: int| 0 <= i < init.len() implies spec_discover(
                root_path,
                #[trigger] init[i],
            ) is Ok by {
                assert(init[i] == walk[i]);
            }
            assert(spec_discover(root_path, walk[walk.len() - 1]) is Ok);
        }
        if spec_discovered(root_path, walk) is Ok {
            assert forall|i: int| 0 <= i < walk.len() implies spec_discover(
                root_path,
                #[trigger] walk[i],
            ) is Ok by {
                if i < init.len() {
                    assert(init[i] == walk[i]);
                }
            }
        }
        if let Ok(files) = spec_discovered(root_path, walk) {
            let before = spec_discovered(root_path, init)->Ok_0;
            let target = discovered_set(root_path, walk);
            assert forall|file: FileToUploadView| files.to_set().contains(file) implies target.contains(
                file,
            ) by {
                let k = choose|k: int| 0 <= k < files.len() && files[k] == file;
                if k < before.len() {
                    assert(before[k] == file);
                    assert(before.to_set().contains(file));
                    let i = choose|i: int|
                        0 <= i < init.len() && spec_discover(root_path, #[trigger] init[i]) == Ok::<
                            Option<FileToUploadView>,
                            DiscoveryErrorView,
                        >(Some(file));
                    assert(init[i] == walk[i]);
                } else {
                    assert(spec_discover(root_path, walk[walk.len() - 1]) == Ok::<
                        Option<FileToUploadView>,
                        DiscoveryErrorView,
                    >(Some(file)));
                }
            }
            assert forall|file: FileToUploadView| target.contains(file) implies files.to_set().contains(
                file,
            ) by {
                let i = choose|i: int|
                    0 <= i < walk.len() && spec_discover(root_path, #[trigger] walk[i]) == Ok::<
                        Option<FileToUploadView>,
                        DiscoveryErrorView,
                    >(Some(file));
                if i < init.len() {
                    assert(init[i] == walk[i]);
                    assert(discovered_set(root_path, init).contains(file));
                    assert(before.to_set().contains(file));
                    let k = choose|k: int| 0 <= k < before.len() && before[k] == file;
                    assert(files[k] == file);
                } else {
                    assert(files[files.len() - 1] == file);
                }
            }
            assert(files.to_set() =~= target);
        }
    }
}

/// The set of files that a walk yields does not depend on the order of its
/// events: two walks that hold the same events yield the same set of files,
/// and end early together.
pub proof fn law_discovery_ignores_order(
    root_path: Seq<char>,
    first: Seq<WalkEventView>,
    second: Seq<WalkEventView>,
)
    requires
        forall|event: WalkEventView| first.contains(event) <==> second.contains(event),
    ensures
        spec_discovered(root_path, first) is Ok <==> spec_discovered(root_path, second) is Ok,
        spec_discovered(root_path, first) is Ok ==> spec_discovered(root_path, first)->Ok_0.to_set()
            == spec_discovered(root_path, second)->Ok_0.to_set(),
{
    law_collected_files_are_fed_files(root_path, first);
    law_collected_files_are_fed_files(root_path, second);
    lemma_same_events(root_path, first, second);
    lemma_same_events(root_path, second, first);
    assert(discovered_set(root_path, first) =~= discovered_set(root_path, second));
}

/// What the events of `first` contribute, those of `second` contribute too,
/// where `second` holds every event of `first`.
proof fn lemma_same_events(
    root_path: Seq<char>,
    first: Seq<WalkEventView>,
    second: Seq<WalkEventView>,
)
    requires
        forall|event: WalkEventView| first.contains(event) ==> second.contains(event),
    ensures
        walk_succeeds(root_path, second) ==> walk_succeeds(root_path, first),
        discovered_set(root_path, first).subset_of(discovered_set(root_path, second)),
{
    assert forall|i: int| 0 <= i < first.len() implies exists|j: int|
        0 <= j < second.len() && second[j] == #[trigger] first[i] by {
        assert(first.contains(first[i]));
        assert(second.contains(first[i]));
    }
    if walk_succeeds(root_path, second) {
        assert forall|i: int| 0 <= i < first.len() implies spec_discover(
            root_path,
            #[trigger] first[i],
        ) is Ok by {
            let j = choose|j: int| 0 <= j < second.len() && second[j] == first[i];
            assert(spec_discover(root_path, second[j]) is Ok);
        }
    }
    assert forall|file: FileToUploadView|
        discovered_set(root_path, first).contains(file) implies discovered_set(
        root_path,
        second,
    ).contains(file) by {
        let i = choose|i: int|
            0 <= i < first.len() && spec_discover(root_path, #[trigger] first[i]) == Ok::<
                Option<FileToUploadView>,
                DiscoveryErrorView,
            >(Some(file));
        let j = choose|j: int| 0 <= j < second.len() && second[j] == first[i];
        assert(spec_discover(root_path, second[j]) == Ok::<
            Option<FileToUploadView>,
            DiscoveryErrorView,
        >(Some(file)));
    }
}

} // verus!
