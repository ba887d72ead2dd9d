//! Paths as `/`-separated strings.
//!
//! A path is a string whose components are separated by `/`. Redundant
//! separators and `.` components that follow a separator carry no meaning,
//! as `std::path` reads paths where `/` is the separator. The functions here
//! work on the characters of a path alone and never touch the file system.

pub mod lemmas;
pub mod relative;

use crate::text::{chars_of, last_index_before, lemma_last_index_before, rfind};
use vstd::prelude::*;
use vstd::string::*;

verus! {

/// The separator between the components of a path.
pub const SEPARATOR: char = '/';

/// Whether `path` starts at the root.
pub open spec fn spec_is_absolute(path: Seq<char>) -> bool {
    path.len() > 0 && path[0] == SEPARATOR
}

/// Where the last component of `path[..end]` ends. Trailing separators are
/// passed over, and so is a `.` that follows a separator.
pub open spec fn component_end(path: Seq<char>, end: int) -> int
    decreases end,
{
    if end <= 0 {
        0
    } else if path[end - 1] == SEPARATOR {
        component_end(path, end - 1)
    } else if end >= 2 && path[end - 1] == '.' && path[end - 2] == SEPARATOR {
        component_end(path, end - 2)
    } else {
        end
    }
}

/// Where the component that ends at `end` starts.
pub open spec fn component_start(path: Seq<char>, end: int) -> int {
    last_index_before(path, SEPARATOR, end) + 1
}

/// The last component of `path`: what lies between its last meaningful
/// separator and the trailing separators and `.` components.
pub open spec fn spec_last_component(path: Seq<char>) -> Option<Seq<char>> {
    let end = component_end(path, path.len() as int);
    if end == 0 {
        None
    } else {
        Some(path.subrange(component_start(path, end), end))
    }
}

/// Whether `component` names an entry, unlike `.` and `..`.
pub open spec fn is_normal(component: Seq<char>) -> bool {
    component != seq!['.'] && component != seq!['.', '.']
}

/// The name of the entry that `path` leads to: its last component, unless
/// that is `.` or `..`.
pub open spec fn spec_file_name(path: Seq<char>) -> Option<Seq<char>> {
    match spec_last_component(path) {
        Some(component) if is_normal(component) => Some(component),
        _ => None,
    }
}

/// The index of the dot that parts the stem of `name` from its extension.
/// A dot at the very start of `name` parts nothing.
pub open spec fn extension_dot(name: Seq<char>) -> Option<int> {
    let dot = last_index_before(name, '.', name.len() as int);
    if dot <= 0 {
        None
    } else {
        Some(dot)
    }
}

/// The extension of `path`: what follows the last dot of its file name, where
/// that dot is not the first character of the name.
pub open spec fn spec_extension(path: Seq<char>) -> Option<Seq<char>> {
    match spec_file_name(path) {
        Some(name) => match extension_dot(name) {
            Some(dot) => Some(name.subrange(dot + 1, name.len() as int)),
            None => None,
        },
        None => None,
    }
}

/// The stem of `path`: its file name without the extension and the dot before it.
pub open spec fn spec_file_stem(path: Seq<char>) -> Option<Seq<char>> {
    match spec_file_name(path) {
        Some(name) => match extension_dot(name) {
            Some(dot) => Some(name.subrange(0, dot)),
            None => Some(name),
        },
        None => None,
    }
}

/// The path to the directory that holds the last component of `path`: what
/// stands before that component, without the separators and `.` components
/// between the two. A path without a component has no parent.
pub open spec fn spec_parent(path: Seq<char>) -> Option<Seq<char>> {
    let end = component_end(path, path.len() as int);
    if end == 0 {
        None
    } else {
        let parent_end = component_end(path, component_start(path, end));
        if parent_end == 0 && spec_is_absolute(path) {
            Some(path.subrange(0, 1))
        } else {
            Some(path.subrange(0, parent_end))
        }
    }
}

/// The view of an optional string.
pub open spec fn option_view(s: Option<String>) -> Option<Seq<char>> {
    match s {
        Some(s) => Some(s@),
        None => None,
    }
}

/// Whether `text` is not empty and holds no separator.
pub open spec fn is_single_component(text: Seq<char>) -> bool {
    text.len() > 0 && forall|i: int| 0 <= i < text.len() ==> text[i] != SEPARATOR
}

/// Whether `text` holds neither a separator nor a dot.
pub open spec fn is_plain(text: Seq<char>) -> bool {
    forall|i: int| 0 <= i < text.len() ==> text[i] != SEPARATOR && text[i] != '.'
}

/// What follows the last separator of `path`.
pub open spec fn last_segment(path: Seq<char>) -> Seq<char> {
    path.subrange(component_start(path, path.len() as int), path.len() as int)
}

/// Whether `path` starts at the root.
pub fn is_absolute(path: &str) -> (r: bool)
    ensures
        r == spec_is_absolute(path@),
{
    let chars = chars_of(path);
    chars.len() > 0 && chars[0] == SEPARATOR
}

/// Where the last component of `path[..end]` ends.
pub(crate) fn find_component_end(path: &Vec<char>, end: usize) -> (r: usize)
    requires
        end <= path.len(),
    ensures
        r as int == component_end(path@, end as int),
        r <= end,
{
    let mut i: usize = end;
    while i > 0
        invariant
            i <= end <= path.len(),
            component_end(path@, end as int) == component_end(path@, i as int),
        decreases i,
    {
        if path[i - 1] == SEPARATOR {
            i -= 1;
        } else if i >= 2 && path[i - 1] == '.' && path[i - 2] == SEPARATOR {
            i -= 2;
        } else {
            return i;
        }
    }
    0
}

/// Where the component that ends at `end` starts.
pub(crate) fn find_component_start(path: &Vec<char>, end: usize) -> (r: usize)
    requires
        end <= path.len(),
    ensures
        r as int == component_start(path@, end as int),
        r <= end,
{
    proof {
        lemma_last_index_before(path@, SEPARATOR, end as int);
    }
    match rfind(path, SEPARATOR, end) {
        Some(i) => i + 1,
        None => 0,
    }
}

/// Whether `component` is `.` or `..`.
fn is_dots(path: &Vec<char>, start: usize, end: usize) -> (r: bool)
    requires
        start <= end <= path.len(),
    ensures
        r == !is_normal(path@.subrange(start as int, end as int)),
{
    let ghost component = path@.subrange(start as int, end as int);
    if end - start == 1 {
        assert(component[0] == path[start as int]);
        if path[start] == '.' {
            assert(component =~= seq!['.']);
            true
        } else {
            false
        }
    } else if end - start == 2 {
        assert(component[0] == path[start as int]);
        assert(component[1] == path[start + 1]);
        if path[start] == '.' && path[start + 1] == '.' {
            assert(component =~= seq!['.', '.']);
            true
        } else {
            false
        }
    } else {
        assert(component.len() != 1 && component.len() != 2);
        false
    }
}

/// The name of the entry that `path` leads to.
pub fn file_name(path: &str) -> (r: Option<String>)
    ensures
        option_view(r) == spec_file_name(path@),
{
    let chars = chars_of(path);
    let end = find_component_end(&chars, chars.len());
    if end == 0 {
        return None;
    }
    let start = find_component_start(&chars, end);
    if is_dots(&chars, start, end) {
        None
    } else {
        Some(path.substring_char(start, end).to_owned())
    }
}

/// The extension of `path`, without the dot before it.
pub fn extension(path: &str) -> (r: Option<String>)
    ensures
        option_view(r) == spec_extension(path@),
{
    match file_name(path) {
        Some(name) => {
            let chars = chars_of(name.as_str());
            match rfind(&chars, '.', chars.len()) {
                Some(dot) => {
                    if dot == 0 {
                        None
                    } else {
                        Some(name.as_str().substring_char(dot + 1, chars.len()).to_owned())
                    }
                },
                None => None,
            }
        },
        None => None,
    }
}

/// The file name of `path` without its extension.
pub fn file_stem(path: &str) -> (r: Option<String>)
    ensures
        option_view(r) == spec_file_stem(path@),
{
    match file_name(path) {
        Some(name) => {
            let chars = chars_of(name.as_str());
            match rfind(&chars, '.', chars.len()) {
                Some(dot) => {
                    if dot == 0 {
                        Some(name)
                    } else {
                        Some(name.as_str().substring_char(0, dot).to_owned())
                    }
                },
                None => Some(name),
            }
        },
        None => None,
    }
}

/// The path to the directory that holds the last component of `path`.
pub fn parent(path: &str) -> (r: Option<String>)
    ensures
        option_view(r) == spec_parent(path@),
{
    let chars = chars_of(path);
    let end = find_component_end(&chars, chars.len());
    if end == 0 {
        return None;
    }
    let start = find_component_start(&chars, end);
    let parent_end = find_component_end(&chars, start);
    if parent_end == 0 && chars[0] == SEPARATOR {
        Some(path.substring_char(0, 1).to_owned())
    } else {
        Some(path.substring_char(0, parent_end).to_owned())
    }
}

} // verus!
