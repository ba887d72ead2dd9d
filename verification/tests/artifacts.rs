use ci_utils::actions::artifacts::discovery::{Discovery, DiscoveryError, WalkEntry, WalkEvent};
use ci_utils::actions::artifacts::download::{DownloadError, FileItem, FileToDownload};
use ci_utils::actions::artifacts::progress::{
    UploadAction, UploadError, UploadEvent, UploadPhase, UploadState,
};
use ci_utils::actions::artifacts::upload::{FileToUpload, UploadPathError};
use ci_utils::actions::artifacts::{
    after_feed, discover, discover_and_feed, download_single_file_artifact, single_dir_provider,
    single_file_provider, upload,
};
use ci_utils::path::relative::components;
use std::collections::BTreeSet;

fn file(local_path: &str, remote_path: &str) -> FileToUpload {
    FileToUpload { local_path: local_path.to_string(), remote_path: remote_path.to_string() }
}

fn entry(path: &str, is_file: bool) -> WalkEvent {
    WalkEvent::Entry(WalkEntry { path: path.to_string(), is_file })
}

fn item(path: &str, content_location: &str) -> FileItem {
    FileItem { path: path.to_string(), content_location: content_location.to_string() }
}

fn tree() -> Vec<WalkEvent> {
    vec![
        entry("build/dist", false),
        entry("build/dist/readme.md", true),
        entry("build/dist/bin", false),
        entry("build/dist/bin/tool", true),
        entry("build/dist/bin/tool.sig", true),
        entry("build/dist/empty", false),
    ]
}

/// Runs the upload on `events` from the start and returns the state at the end and every action.
fn run(events: Vec<UploadEvent>) -> (UploadState, Vec<UploadAction>) {
    let mut state = UploadState::new();
    let mut actions = Vec::new();
    for event in events {
        let (next, action) = upload(state, event);
        state = next;
        actions.push(action);
    }
    (state, actions)
}

fn finalizes(actions: &[UploadAction]) -> usize {
    actions.iter().filter(|action| matches!(action, UploadAction::Finalize { .. })).count()
}

#[test]
fn file_under_root() {
    assert_eq!(
        FileToUpload::new_under_root("build/dist", "build/dist/bin/tool"),
        Ok(file("build/dist/bin/tool", "bin/tool"))
    );
    assert_eq!(
        FileToUpload::new_under_root("/abs/root/", "/abs/root//a/./b.txt"),
        Ok(file("/abs/root//a/./b.txt", "a/b.txt"))
    );
    assert_eq!(FileToUpload::new_under_root("", "a/b"), Ok(file("a/b", "a/b")));
}

#[test]
fn file_that_is_the_root() {
    assert_eq!(FileToUpload::new_under_root("a/file", "a/file"), Ok(file("a/file", "")));
}

#[test]
fn file_outside_the_root() {
    assert_eq!(
        FileToUpload::new_under_root("build/dist", "build/other/tool"),
        Err(UploadPathError::NotUnderRoot {
            root: "build/dist".to_string(),
            path: "build/other/tool".to_string()
        })
    );
    assert_eq!(
        FileToUpload::new_under_root("build/dist", "/build/dist/tool"),
        Err(UploadPathError::NotUnderRoot {
            root: "build/dist".to_string(),
            path: "/build/dist/tool".to_string()
        })
    );
    assert_eq!(
        FileToUpload::new_under_root("build/dist", "build/distribution"),
        Err(UploadPathError::NotUnderRoot {
            root: "build/dist".to_string(),
            path: "build/distribution".to_string()
        })
    );
}

#[test]
fn file_that_escapes_the_root() {
    assert_eq!(
        FileToUpload::new_under_root("build", "build/../secret"),
        Err(UploadPathError::EscapesRoot {
            root: "build".to_string(),
            path: "build/../secret".to_string()
        })
    );
    assert_eq!(
        FileToUpload::new_under_root("", "../secret"),
        Err(UploadPathError::EscapesRoot { root: String::new(), path: "../secret".to_string() })
    );
}

#[test]
fn remote_path_is_relative_and_stays_below() {
    for (root, local) in [
        ("build", "build/a/b"),
        ("/", "/etc/passwd"),
        ("", "x"),
        ("a/./b", "a/b/c/./d"),
        (".", "./x/y"),
    ] {
        let file = FileToUpload::new_under_root(root, local).unwrap();
        assert!(!file.remote_path.starts_with('/'), "{:?}", file);
        assert!(file.remote_path.split('/').all(|part| part != ".."), "{:?}", file);
    }
}

#[test]
fn remote_path_leads_from_the_root_back_to_the_file() {
    for (root, local) in [
        ("build/dist", "build/dist/bin/tool"),
        ("/abs/root/", "/abs/root//a/./b.txt"),
        ("", "a/b"),
        (".", "./x"),
        ("a/file", "a/file"),
    ] {
        let file = FileToUpload::new_under_root(root, local).unwrap();
        let mut parts = components(root);
        parts.extend(components(&file.remote_path));
        assert_eq!(parts, components(local), "{:?}", file);
    }
}

#[test]
fn single_file_by_its_name() {
    assert_eq!(FileToUpload::new("Cargo.toml"), Ok(file("Cargo.toml", "Cargo.toml")));
    assert_eq!(FileToUpload::new("/a/b/c.txt"), Ok(file("/a/b/c.txt", "c.txt")));
    assert_eq!(FileToUpload::new("a/b/"), Ok(file("a/b/", "b")));
}

#[test]
fn single_file_without_name() {
    assert_eq!(
        FileToUpload::new("a/.."),
        Err(UploadPathError::NoFileName { path: "a/..".to_string() })
    );
    assert_eq!(FileToUpload::new("/"), Err(UploadPathError::NoFileName { path: "/".to_string() }));
    assert_eq!(FileToUpload::new(""), Err(UploadPathError::NoFileName { path: String::new() }));
}

#[test]
fn single_file_provider_yields_one_file() {
    assert_eq!(single_file_provider("dist/tool.zip"), Ok(vec![file("dist/tool.zip", "tool.zip")]));
    assert_eq!(
        single_file_provider(".."),
        Err(UploadPathError::NoFileName { path: "..".to_string() })
    );
}

#[test]
fn discovery_takes_files_only() {
    assert_eq!(
        discover("build/dist", &entry("build/dist/bin/tool", true)),
        Ok(Some(file("build/dist/bin/tool", "bin/tool")))
    );
    assert_eq!(discover("build/dist", &entry("build/dist/bin", false)), Ok(None));
    assert_eq!(discover("build/dist", &entry("elsewhere", false)), Ok(None));
}

#[test]
fn discovery_feeds_the_channel() {
    let (sender, receiver) = flume::unbounded();
    for event in tree() {
        assert_eq!(discover_and_feed("build/dist", &event, &sender), Ok(Discovery::Continue));
    }
    drop(sender);
    let fed: Vec<FileToUpload> = receiver.iter().collect();
    assert_eq!(
        fed,
        vec![
            file("build/dist/readme.md", "readme.md"),
            file("build/dist/bin/tool", "bin/tool"),
            file("build/dist/bin/tool.sig", "bin/tool.sig"),
        ]
    );
}

#[test]
fn discovery_stops_feeding_once_the_receiver_is_gone() {
    let (sender, receiver) = flume::unbounded();
    assert_eq!(
        discover_and_feed("build/dist", &entry("build/dist/a", true), &sender),
        Ok(Discovery::Continue)
    );
    drop(receiver);
    assert_eq!(
        discover_and_feed("build/dist", &entry("build/dist/b", true), &sender),
        Ok(Discovery::Stop)
    );
    // Entries that are no files are passed over whether or not anybody listens.
    assert_eq!(
        discover_and_feed("build/dist", &entry("build/dist/c", false), &sender),
        Ok(Discovery::Continue)
    );
}

#[test]
fn discovery_feeds_nothing_on_an_error() {
    let (sender, receiver) = flume::unbounded();
    let failure = WalkEvent::Failure { message: "broken symlink".to_string() };
    assert_eq!(
        discover_and_feed("build/dist", &failure, &sender),
        Err(DiscoveryError::Walk { message: "broken symlink".to_string() })
    );
    assert_eq!(
        discover_and_feed("build/dist", &entry("other/tool", true), &sender),
        Err(DiscoveryError::Path(UploadPathError::NotUnderRoot {
            root: "build/dist".to_string(),
            path: "other/tool".to_string()
        }))
    );
    drop(sender);
    assert_eq!(receiver.iter().count(), 0);
}

#[test]
fn discovery_ends_on_a_failed_walk() {
    let event = WalkEvent::Failure { message: "permission denied".to_string() };
    assert_eq!(
        discover("build/dist", &event),
        Err(DiscoveryError::Walk { message: "permission denied".to_string() })
    );
}

#[test]
fn discovery_ends_on_a_file_outside_the_root() {
    assert_eq!(
        discover("build/dist", &entry("other/tool", true)),
        Err(DiscoveryError::Path(UploadPathError::NotUnderRoot {
            root: "build/dist".to_string(),
            path: "other/tool".to_string()
        }))
    );
    assert_eq!(
        discover("build", &entry("build/../tool", true)),
        Err(DiscoveryError::Path(UploadPathError::EscapesRoot {
            root: "build".to_string(),
            path: "build/../tool".to_string()
        }))
    );
}

#[test]
fn discovery_stops_once_nobody_listens() {
    assert_eq!(after_feed(true), Discovery::Continue);
    assert_eq!(after_feed(false), Discovery::Stop);
}

#[test]
fn directory_provider_lists_the_files_of_the_walk() {
    assert_eq!(
        single_dir_provider("build/dist", &tree()),
        Ok(vec![
            file("build/dist/readme.md", "readme.md"),
            file("build/dist/bin/tool", "bin/tool"),
            file("build/dist/bin/tool.sig", "bin/tool.sig"),
        ])
    );
    assert_eq!(single_dir_provider("build/dist", &Vec::new()), Ok(Vec::new()));
}

#[test]
fn directory_provider_reports_the_first_failure() {
    let mut walk = tree();
    walk.insert(2, WalkEvent::Failure { message: "first".to_string() });
    walk.push(WalkEvent::Failure { message: "second".to_string() });
    walk.push(entry("outside", true));
    assert_eq!(
        single_dir_provider("build/dist", &walk),
        Err(DiscoveryError::Walk { message: "first".to_string() })
    );
}

#[test]
fn eager_and_streaming_discovery_yield_the_same_set() {
    let walk = tree();
    let eager: BTreeSet<(String, String)> = single_dir_provider("build/dist", &walk)
        .unwrap()
        .into_iter()
        .map(|file| (file.local_path, file.remote_path))
        .collect();
    let (sender, receiver) = flume::unbounded();
    for event in walk.iter().rev() {
        assert_eq!(discover_and_feed("build/dist", event, &sender), Ok(Discovery::Continue));
    }
    drop(sender);
    let streamed: BTreeSet<(String, String)> =
        receiver.iter().map(|file: FileToUpload| (file.local_path, file.remote_path)).collect();
    assert_eq!(eager, streamed);
    assert_eq!(eager.len(), 3);
}

#[test]
fn discovery_does_not_depend_on_the_order_of_the_walk() {
    let walk = tree();
    let mut shuffled = tree();
    shuffled.reverse();
    shuffled.swap(1, 4);
    shuffled.push(entry("build/dist/readme.md", true));
    let set = |walk: &Vec<WalkEvent>| -> BTreeSet<(String, String)> {
        single_dir_provider("build/dist", walk)
            .unwrap()
            .into_iter()
            .map(|file| (file.local_path, file.remote_path))
            .collect()
    };
    assert_eq!(set(&walk), set(&shuffled));
}

#[test]
fn upload_finalizes_after_all_files() {
    let (state, actions) = run(vec![
        UploadEvent::File(file("a", "a")),
        UploadEvent::Accepted { size: 10 },
        UploadEvent::File(file("b", "b")),
        UploadEvent::Accepted { size: 20 },
        UploadEvent::File(file("c", "c")),
        UploadEvent::Accepted { size: 12 },
        UploadEvent::Exhausted,
        UploadEvent::Finalized,
    ]);
    assert_eq!(
        actions,
        vec![
            UploadAction::Upload(file("a", "a")),
            UploadAction::Next,
            UploadAction::Upload(file("b", "b")),
            UploadAction::Next,
            UploadAction::Upload(file("c", "c")),
            UploadAction::Next,
            UploadAction::Finalize { total_size: 42 },
            UploadAction::Complete,
        ]
    );
    assert_eq!(state, UploadState { phase: UploadPhase::Done, total_size: 42 });
}

#[test]
fn upload_of_no_files_finalizes_an_empty_artifact() {
    let (state, actions) = run(vec![UploadEvent::Exhausted, UploadEvent::Finalized]);
    assert_eq!(actions, vec![UploadAction::Finalize { total_size: 0 }, UploadAction::Complete]);
    assert_eq!(state.phase, UploadPhase::Done);
}

#[test]
fn failed_second_upload_is_never_finalized() {
    let (state, actions) = run(vec![
        UploadEvent::File(file("a", "a")),
        UploadEvent::Accepted { size: 10 },
        UploadEvent::File(file("b", "b")),
        UploadEvent::Rejected { message: "404 Not Found".to_string() },
        UploadEvent::File(file("c", "c")),
        UploadEvent::Accepted { size: 12 },
        UploadEvent::Exhausted,
        UploadEvent::Finalized,
    ]);
    assert_eq!(finalizes(&actions), 0);
    assert_eq!(
        actions[3],
        UploadAction::Abort(UploadError::FileRejected { message: "404 Not Found".to_string() })
    );
    for action in &actions[4..] {
        assert_eq!(*action, UploadAction::Abort(UploadError::UnexpectedEvent));
    }
    assert_eq!(state, UploadState { phase: UploadPhase::Failed, total_size: 10 });
}

#[test]
fn test_artifact_upload() {
    // The store creates the container and then answers the upload with 404.
    let path_to_upload = "Cargo.toml";
    let file_to_upload = FileToUpload {
        local_path: path_to_upload.to_string(),
        remote_path: path_to_upload.to_string(),
    };
    let (state, actions) = run(vec![
        UploadEvent::File(file_to_upload.clone()),
        UploadEvent::Rejected { message: "MyCargoArtifact: 404 Not Found".to_string() },
        UploadEvent::Exhausted,
    ]);
    assert_eq!(actions[0], UploadAction::Upload(file_to_upload));
    assert_eq!(
        actions[1],
        UploadAction::Abort(UploadError::FileRejected {
            message: "MyCargoArtifact: 404 Not Found".to_string()
        })
    );
    assert_eq!(finalizes(&actions), 0);
    assert_eq!(state.phase, UploadPhase::Failed);
}

#[test]
fn upload_starts_by_awaiting_a_file() {
    assert_eq!(UploadState::new(), UploadState { phase: UploadPhase::Ready, total_size: 0 });
}

#[test]
fn upload_fails_when_the_size_does_not_arrive() {
    let (state, actions) = run(vec![
        UploadEvent::Exhausted,
        UploadEvent::FinalizeFailed { message: "timeout".to_string() },
    ]);
    assert_eq!(
        actions[1],
        UploadAction::Abort(UploadError::FinalizeFailed { message: "timeout".to_string() })
    );
    assert_eq!(state.phase, UploadPhase::Failed);
}

#[test]
fn upload_fails_when_the_sizes_overflow() {
    let (state, actions) = run(vec![
        UploadEvent::File(file("a", "a")),
        UploadEvent::Accepted { size: u64::MAX },
        UploadEvent::File(file("b", "b")),
        UploadEvent::Accepted { size: 1 },
        UploadEvent::Exhausted,
    ]);
    assert_eq!(actions[1], UploadAction::Next);
    assert_eq!(actions[3], UploadAction::Abort(UploadError::SizeOverflow));
    assert_eq!(actions[4], UploadAction::Abort(UploadError::UnexpectedEvent));
    assert_eq!(state, UploadState { phase: UploadPhase::Failed, total_size: u64::MAX });
}

#[test]
fn upload_adds_sizes_up_to_the_limit() {
    let (state, actions) = run(vec![
        UploadEvent::File(file("a", "a")),
        UploadEvent::Accepted { size: u64::MAX - 1 },
        UploadEvent::File(file("b", "b")),
        UploadEvent::Accepted { size: 1 },
        UploadEvent::Exhausted,
    ]);
    assert_eq!(actions[4], UploadAction::Finalize { total_size: u64::MAX });
    assert_eq!(state.phase, UploadPhase::Finalizing);
}

#[test]
fn upload_refuses_events_out_of_turn() {
    let unexpected = UploadAction::Abort(UploadError::UnexpectedEvent);
    let failed = |events: Vec<UploadEvent>| {
        let (state, actions) = run(events);
        assert_eq!(actions.last(), Some(&unexpected));
        assert_eq!(state.phase, UploadPhase::Failed);
        assert_eq!(finalizes(&actions), 0);
    };
    failed(vec![UploadEvent::Accepted { size: 1 }]);
    failed(vec![UploadEvent::Rejected { message: String::new() }]);
    failed(vec![UploadEvent::Finalized]);
    failed(vec![UploadEvent::FinalizeFailed { message: String::new() }]);
    failed(vec![UploadEvent::File(file("a", "a")), UploadEvent::File(file("b", "b"))]);
    failed(vec![UploadEvent::File(file("a", "a")), UploadEvent::Exhausted]);
    failed(vec![UploadEvent::File(file("a", "a")), UploadEvent::Finalized]);
}

#[test]
fn upload_finalizes_at_most_once() {
    let (state, actions) = run(vec![
        UploadEvent::Exhausted,
        UploadEvent::Exhausted,
        UploadEvent::Exhausted,
    ]);
    assert_eq!(finalizes(&actions), 1);
    assert_eq!(state.phase, UploadPhase::Failed);
    let (state, actions) =
        run(vec![UploadEvent::Exhausted, UploadEvent::Finalized, UploadEvent::Exhausted]);
    assert_eq!(finalizes(&actions), 1);
    assert_eq!(state.phase, UploadPhase::Failed);
}

#[test]
fn download_of_a_single_file_artifact() {
    let manifest = vec![item("Cargo.toml", "https://store.example/containers/7?itemPath=x")];
    assert_eq!(
        download_single_file_artifact("MyCargoArtifact", &manifest, "out/Cargo.toml"),
        Ok(FileToDownload {
            target: "out/Cargo.toml".to_string(),
            remote_source_location: "https://store.example/containers/7?itemPath=x".to_string(),
        })
    );
}

#[test]
fn download_of_an_empty_artifact_fails() {
    assert_eq!(
        download_single_file_artifact("Empty", &Vec::new(), "out"),
        Err(DownloadError::NotSingleFile { artifact_name: "Empty".to_string(), file_count: 0 })
    );
}

#[test]
fn download_of_an_artifact_with_several_files_fails() {
    let two = vec![item("a", "https://store.example/a"), item("b", "https://store.example/b")];
    assert_eq!(
        download_single_file_artifact("Pair", &two, "out"),
        Err(DownloadError::NotSingleFile { artifact_name: "Pair".to_string(), file_count: 2 })
    );
    let three = vec![item("a", "u"), item("b", "v"), item("c", "w")];
    assert_eq!(
        download_single_file_artifact("Triple", &three, "out"),
        Err(DownloadError::NotSingleFile { artifact_name: "Triple".to_string(), file_count: 3 })
    );
}

#[test]
fn download_error_message() {
    let error = download_single_file_artifact("Pair", &Vec::new(), "out").unwrap_err();
    assert_eq!(error.message(), "The artifact Pair does not contain only a single file.");
}
