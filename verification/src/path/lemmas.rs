//! What holds of the components, names and extensions of paths.

use crate::path::{
    component_end, component_start, is_normal, is_plain, is_single_component, last_segment,
    spec_extension, spec_file_name, spec_file_stem, SEPARATOR,
};
use crate::text::{lemma_last_index_before, lemma_last_index_before_unique};
use vstd::prelude::*;

verus! {

/// `component_end` stops behind a character that belongs to a component.
pub proof fn lemma_component_end(path: Seq<char>, end: int)
    requires
        0 <= end <= path.len(),
    ensures
        0 <= component_end(path, end) <= end,
        component_end(path, end) > 0 ==> path[component_end(path, end) - 1] != SEPARATOR,
        component_end(path, end) >= 2 && path[component_end(path, end) - 1] == '.' ==> path[component_end(
            path,
            end,
        ) - 2] != SEPARATOR,
    decreases end,
{
    if end > 0 {
        if path[end - 1] == SEPARATOR {
            lemma_component_end(path, end - 1);
        } else if end >= 2 && path[end - 1] == '.' && path[end - 2] == SEPARATOR {
            lemma_component_end(path, end - 2);
        }
    }
}

/// A component is not empty and holds no separator.
pub proof fn lemma_component_bounds(path: Seq<char>, end: int)
    requires
        0 < end <= path.len(),
        path[end - 1] != SEPARATOR,
    ensures
        0 <= component_start(path, end) < end,
        forall|i: int| component_start(path, end) <= i < end ==> path[i] != SEPARATOR,
        component_start(path, end) > 0 ==> path[component_start(path, end) - 1] == SEPARATOR,
{
    lemma_last_index_before(path, SEPARATOR, end);
}

/// A file name is not empty and holds no separator.
pub proof fn lemma_file_name_is_single_component(path: Seq<char>)
    requires
        spec_file_name(path) is Some,
    ensures
        is_single_component(spec_file_name(path)->Some_0),
{
    let end = component_end(path, path.len() as int);
    lemma_component_end(path, path.len() as int);
    lemma_component_bounds(path, end);
}

/// The last segment of a path that does not end in a separator is not empty
/// and holds no separator.
pub proof fn lemma_last_segment(path: Seq<char>)
    requires
        path.len() > 0,
        path.last() != SEPARATOR,
    ensures
        is_single_component(last_segment(path)),
        last_segment(path).last() == path.last(),
{
    lemma_component_bounds(path, path.len() as int);
}

/// A plain, non-empty `ext` behind a dot is the extension of the path, and
/// what stands before the dot, from the last separator on, is its stem.
pub proof fn lemma_dotted_extension(prefix: Seq<char>, ext: Seq<char>)
    requires
        prefix.len() > 0,
        prefix.last() != SEPARATOR,
        ext.len() > 0,
        is_plain(ext),
    ensures
        spec_file_name(prefix + seq!['.'] + ext) == Some(last_segment(prefix) + seq!['.'] + ext),
        spec_extension(prefix + seq!['.'] + ext) == Some(ext),
        spec_file_stem(prefix + seq!['.'] + ext) == Some(last_segment(prefix)),
{
    let path = prefix + seq!['.'] + ext;
    let n = path.len() as int;
    let m = prefix.len() as int;
    assert(path[n - 1] == ext[ext.len() - 1]);
    assert(component_end(path, n) == n);
    lemma_component_bounds(prefix, m);
    let start = component_start(prefix, m);
    assert forall|i: int| start - 1 < i < n implies path[i] != SEPARATOR by {
        if i < m {
            assert(path[i] == prefix[i]);
        } else if i > m {
            assert(path[i] == ext[i - m - 1]);
        }
    }
    assert(start > 0 ==> path[start - 1] == prefix[start - 1]);
    lemma_last_index_before_unique(path, SEPARATOR, n, start - 1);
    let name = path.subrange(start, n);
    assert(name =~= last_segment(prefix) + seq!['.'] + ext);
    assert(name.last() == ext.last());
    assert(is_normal(name)) by {
        if name == seq!['.'] {
            assert(name.last() == '.');
        }
        if name == seq!['.', '.'] {
            assert(name.last() == '.');
        }
    }
    let dot = m - start;
    assert(name[dot] == '.');
    assert forall|i: int| dot < i < name.len() implies name[i] != '.' by {
        assert(name[i] == ext[i - dot - 1]);
    }
    lemma_last_index_before_unique(name, '.', name.len() as int, dot);
    assert(name.subrange(dot + 1, name.len() as int) =~= ext);
    assert(name.subrange(0, dot) =~= last_segment(prefix));
}

} // verus!
