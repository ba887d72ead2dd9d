use ci_utils::path::relative::{components, join, relative_to, resolve};
use ci_utils::path::{extension, file_name, file_stem, is_absolute, parent};
use ci_utils::text::{chars_of, same_text};
use std::path::{Component, Path};

const SAMPLES: [&str; 64] = [
    "", "/", "//", "///", ".", "..", "./", "../", "./.", "./..", "/.", "/..", "/./", "a", "a/",
    "a//", "a/.", "a/..", "a/./", "a/.//", "/a", "//a", "/a/", "/a/.", "/a/b", "a/b", "a//b",
    "a/./b", "a/b/.", "a/b/..", "./a", "././a", "./a/b", ".a", "a.", "a.b", ".a.b", "a.b.c",
    "..a", "a..", "...", "....", ".a.", "a/.b", "a/b.", "a/.../b", "a/b/../c", "../a", "../../a",
    "a b/c d.txt", "/tmp/.tmpnejBKd/gui_wasm.tar.gz", "x.tar.gz", ".tar.gz", "dir.d/file",
    "dir.d/file.e", "dir/.hidden", "dir/.hidden.txt", "/usr/lib/", "/usr//lib/./x.so.1",
    "b\u{e4}r/\u{fc}ber.t\u{e4}r.gz", "\u{65e5}\u{672c}/\u{8a9e}.zip", "a/./././", "/.a", "/a..b/",
];

fn text<P: AsRef<Path> + ?Sized>(part: Option<&P>) -> Option<String> {
    part.map(|part| part.as_ref().to_str().unwrap().to_string())
}

fn named_components(path: &str) -> Vec<String> {
    Path::new(path)
        .components()
        .filter(|component| !matches!(component, Component::RootDir))
        .map(|component| component.as_os_str().to_str().unwrap().to_string())
        .collect()
}

#[test]
fn file_name_agrees_with_std() {
    for path in SAMPLES {
        assert_eq!(file_name(path), text(Path::new(path).file_name()), "file name of {:?}", path);
    }
}

#[test]
fn extension_agrees_with_std() {
    for path in SAMPLES {
        assert_eq!(extension(path), text(Path::new(path).extension()), "extension of {:?}", path);
    }
}

#[test]
fn file_stem_agrees_with_std() {
    for path in SAMPLES {
        assert_eq!(file_stem(path), text(Path::new(path).file_stem()), "stem of {:?}", path);
    }
}

#[test]
fn parent_agrees_with_std() {
    for path in SAMPLES {
        let expected = Path::new(path).parent().map(|p| p.to_str().unwrap().to_string());
        assert_eq!(parent(path), expected, "parent of {:?}", path);
    }
}

#[test]
fn is_absolute_agrees_with_std() {
    for path in SAMPLES {
        assert_eq!(is_absolute(path), Path::new(path).is_absolute(), "root of {:?}", path);
    }
}

#[test]
fn components_agree_with_std() {
    for path in SAMPLES {
        assert_eq!(components(path), named_components(path), "components of {:?}", path);
    }
}

#[test]
fn relative_to_agrees_with_std() {
    for path in SAMPLES {
        for base in SAMPLES {
            if is_absolute(path) != is_absolute(base) {
                assert_eq!(relative_to(path, base), None, "{:?} under {:?}", path, base);
                continue;
            }
            let expected = Path::new(path)
                .strip_prefix(base)
                .ok()
                .map(|rest| named_components(rest.to_str().unwrap()));
            assert_eq!(relative_to(path, base), expected, "{:?} under {:?}", path, base);
        }
    }
}

#[test]
fn resolve_agrees_with_std() {
    for base in SAMPLES {
        for path in SAMPLES {
            let expected = Path::new(base).join(path).to_str().unwrap().to_string();
            assert_eq!(resolve(base, path), expected, "{:?} against {:?}", path, base);
        }
    }
}

#[test]
fn joined_components_give_the_components_back() {
    for path in SAMPLES {
        let parts = components(path);
        assert_eq!(components(&join(&parts)), parts, "components of {:?}", path);
        assert!(!is_absolute(&join(&parts)));
    }
}

/// Every string of at most `length` characters out of `/`, `.`, `a` and `b`.
fn short_paths(length: usize) -> Vec<String> {
    let mut all = vec![String::new()];
    let mut last = vec![String::new()];
    for _ in 0..length {
        let mut next = Vec::new();
        for prefix in &last {
            for c in ['/', '.', 'a', 'b'] {
                next.push(format!("{}{}", prefix, c));
            }
        }
        all.extend(next.iter().cloned());
        last = next;
    }
    all
}

#[test]
fn short_paths_are_read_as_std_reads_them() {
    for path in short_paths(7) {
        let std_path = Path::new(&path);
        assert_eq!(file_name(&path), text(std_path.file_name()), "file name of {:?}", path);
        assert_eq!(extension(&path), text(std_path.extension()), "extension of {:?}", path);
        assert_eq!(file_stem(&path), text(std_path.file_stem()), "stem of {:?}", path);
        assert_eq!(parent(&path), text(std_path.parent()), "parent of {:?}", path);
        assert_eq!(components(&path), named_components(&path), "components of {:?}", path);
        assert_eq!(is_absolute(&path), std_path.is_absolute(), "root of {:?}", path);
    }
}

#[test]
fn short_paths_are_related_as_std_relates_them() {
    let paths = short_paths(4);
    for path in &paths {
        for base in &paths {
            if is_absolute(path) != is_absolute(base) {
                assert_eq!(relative_to(path, base), None, "{:?} under {:?}", path, base);
                continue;
            }
            let expected = Path::new(path)
                .strip_prefix(base)
                .ok()
                .map(|rest| named_components(rest.to_str().unwrap()));
            assert_eq!(relative_to(path, base), expected, "{:?} under {:?}", path, base);
            let joined = Path::new(base).join(path).to_str().unwrap().to_string();
            assert_eq!(resolve(base, path), joined, "{:?} against {:?}", path, base);
        }
    }
}

fn strings(items: &[&str]) -> Vec<String> {
    items.iter().map(|item| item.to_string()).collect()
}

#[test]
fn file_name_examples() {
    assert_eq!(file_name("/usr/bin/tar"), Some("tar".to_string()));
    assert_eq!(file_name("archive.tar.gz"), Some("archive.tar.gz".to_string()));
    assert_eq!(file_name("dir/"), Some("dir".to_string()));
    assert_eq!(file_name("dir/."), Some("dir".to_string()));
    assert_eq!(file_name("dir/.."), None);
    assert_eq!(file_name("/"), None);
    assert_eq!(file_name(""), None);
    assert_eq!(file_name("."), None);
}

#[test]
fn extension_examples() {
    assert_eq!(extension("a/b.tar.gz"), Some("gz".to_string()));
    assert_eq!(extension("a.b/c"), None);
    assert_eq!(extension(".profile"), None);
    assert_eq!(extension(".profile.bak"), Some("bak".to_string()));
    assert_eq!(extension("trailing."), Some(String::new()));
    assert_eq!(extension("a/.."), None);
}

#[test]
fn file_stem_examples() {
    assert_eq!(file_stem("a/b.tar.gz"), Some("b.tar".to_string()));
    assert_eq!(file_stem("a.b/c"), Some("c".to_string()));
    assert_eq!(file_stem(".profile"), Some(".profile".to_string()));
    assert_eq!(file_stem("trailing."), Some("trailing".to_string()));
    assert_eq!(file_stem("/"), None);
}

#[test]
fn parent_examples() {
    assert_eq!(parent("/work/target.bmp"), Some("/work".to_string()));
    assert_eq!(parent("/target.bmp"), Some("/".to_string()));
    assert_eq!(parent("target.bmp"), Some(String::new()));
    assert_eq!(parent("a//b/./c/"), Some("a//b".to_string()));
    assert_eq!(parent("/"), None);
    assert_eq!(parent(""), None);
}

#[test]
fn components_examples() {
    assert_eq!(components("/a//b/./c/"), strings(&["a", "b", "c"]));
    assert_eq!(components("./a/../b"), strings(&[".", "a", "..", "b"]));
    assert_eq!(components("/"), Vec::<String>::new());
    assert_eq!(components(""), Vec::<String>::new());
}

#[test]
fn join_examples() {
    assert_eq!(join(&strings(&["a", "b", "c"])), "a/b/c");
    assert_eq!(join(&strings(&["a"])), "a");
    assert_eq!(join(&Vec::new()), "");
}

#[test]
fn relative_to_examples() {
    assert_eq!(relative_to("root/a/b", "root"), Some(strings(&["a", "b"])));
    assert_eq!(relative_to("root/a/b", "root/"), Some(strings(&["a", "b"])));
    assert_eq!(relative_to("root", "root"), Some(Vec::new()));
    assert_eq!(relative_to("rootless/a", "root"), None);
    assert_eq!(relative_to("root", "root/a"), None);
    assert_eq!(relative_to("/root/a", "root"), None);
    assert_eq!(relative_to("root/a", "/root"), None);
    assert_eq!(relative_to("root/../a", "root"), Some(strings(&["..", "a"])));
}

#[test]
fn resolve_examples() {
    assert_eq!(resolve("out", "a/b"), "out/a/b");
    assert_eq!(resolve("out/", "a/b"), "out/a/b");
    assert_eq!(resolve("", "a/b"), "a/b");
    assert_eq!(resolve("out", "/a/b"), "/a/b");
    assert_eq!(resolve("out", ""), "out/");
}

#[test]
fn chars_of_examples() {
    assert_eq!(chars_of("a/b"), vec!['a', '/', 'b']);
    assert_eq!(chars_of(""), Vec::<char>::new());
    assert_eq!(chars_of("\u{fc}x"), vec!['\u{fc}', 'x']);
}

#[test]
fn same_text_examples() {
    assert!(same_text("tar", "tar"));
    assert!(same_text("", ""));
    assert!(!same_text("tar", "tar "));
    assert!(!same_text("tar", "TAR"));
}
