//! The components of a path, and paths relative to a directory.

use crate::path::lemmas::{lemma_component_bounds, lemma_component_end};
use crate::path::{
    component_end, component_start, find_component_end, find_component_start, is_single_component,
    spec_is_absolute, SEPARATOR,
};
use crate::text::{chars_of, last_index_before, lemma_last_index_before_unique, texts};
use vstd::prelude::*;
use vstd::string::*;

verus! {

/// The components of `path[..end]`, in their order.
pub open spec fn components_before(path: Seq<char>, end: int) -> Seq<Seq<char>>
    decreases end,
{
    let last_end = component_end(path, end);
    if 0 <= end <= path.len() && last_end > 0 {
        proof {
            lemma_component_end(path, end);
            lemma_component_bounds(path, last_end);
        }
        let start = component_start(path, last_end);
        components_before(path, start).push(path.subrange(start, last_end))
    } else {
        Seq::empty()
    }
}

/// The components of `path`, in their order: what stands between its
/// separators, without the empty pieces and without any `.` that follows a
/// separator.
pub open spec fn spec_components(path: Seq<char>) -> Seq<Seq<char>> {
    components_before(path, path.len() as int)
}

/// `parts`, with a separator between each two of them.
pub open spec fn spec_join(parts: Seq<Seq<char>>) -> Seq<char>
    decreases parts.len(),
{
    if parts.len() == 0 {
        Seq::empty()
    } else if parts.len() == 1 {
        parts[0]
    } else {
        spec_join(parts.drop_last()) + seq![SEPARATOR] + parts.last()
    }
}

/// The components of `path` that follow those of `base`, where `path` lies
/// at or below `base`: both start at the root or neither does, and the
/// components of `base` open those of `path`.
pub open spec fn spec_relative_to(path: Seq<char>, base: Seq<char>) -> Option<Seq<Seq<char>>> {
    let components = spec_components(path);
    let prefix = spec_components(base);
    if spec_is_absolute(path) == spec_is_absolute(base) && prefix.len() <= components.len()
        && components.take(prefix.len() as int) == prefix {
        Some(components.skip(prefix.len() as int))
    } else {
        None
    }
}

/// `path` resolved against `base`: `path` itself where it starts at the
/// root, and else `base`, a separator where `base` does not end in one, and
/// `path`.
pub open spec fn spec_resolve(base: Seq<char>, path: Seq<char>) -> Seq<char> {
    if spec_is_absolute(path) {
        path
    } else if base.len() == 0 || base.last() == SEPARATOR {
        base + path
    } else {
        base + seq![SEPARATOR] + path
    }
}

/// The view of optional components.
pub open spec fn parts_view(parts: Option<Vec<String>>) -> Option<Seq<Seq<char>>> {
    match parts {
        Some(parts) => Some(texts(parts@)),
        None => None,
    }
}

/// The components of `path`, in their order.
pub fn components(path: &str) -> (r: Vec<String>)
    ensures
        texts(r@) == spec_components(path@),
{
    let chars = chars_of(path);
    let mut r: Vec<String> = Vec::new();
    let mut end: usize = chars.len();
    assert(texts(r@) =~= Seq::empty());
    loop
        invariant
            chars@ == path@,
            end <= chars.len(),
            spec_components(path@) == components_before(path@, end as int) + texts(r@),
        ensures
            spec_components(path@) == texts(r@),
        decreases end,
    {
        let last_end = find_component_end(&chars, end);
        if last_end == 0 {
            break;
        }
        proof {
            lemma_component_end(path@, end as int);
            lemma_component_bounds(path@, last_end as int);
        }
        let start = find_component_start(&chars, last_end);
        let ghost before = r@;
        r.insert(0, path.substring_char(start, last_end).to_owned());
        assert(texts(r@) =~= seq![path@.subrange(start as int, last_end as int)] + texts(before));
        assert(components_before(path@, end as int) + texts(before) =~= components_before(
            path@,
            start as int,
        ) + texts(r@));
        end = start;
    }
    r
}

/// `parts`, with a separator between each two of them.
pub fn join(parts: &Vec<String>) -> (r: String)
    ensures
        r@ == spec_join(texts(parts@)),
{
    let mut r = String::new();
    let mut i: usize = 0;
    while i < parts.len()
        invariant
            i <= parts.len(),
            r@ == spec_join(texts(parts@.take(i as int))),
        decreases parts.len() - i,
    {
        let ghost taken = texts(parts@.take(i + 1));
        assert(taken.drop_last() =~= texts(parts@.take(i as int)));
        assert(taken.last() == parts@[i as int]@);
        if i > 0 {
            r.append("/");
            proof {
                reveal_strlit("/");
                assert("/"@ =~= seq![SEPARATOR]);
            }
        }
        r.append(parts[i].as_str());
        assert(r@ =~= spec_join(taken));
        i += 1;
    }
    assert(parts@.take(i as int) =~= parts@);
    r
}

/// The components of `path` that follow those of `base`, where `path` lies
/// at or below `base`.
pub fn relative_to(path: &str, base: &str) -> (r: Option<Vec<String>>)
    ensures
        parts_view(r) == spec_relative_to(path@, base@),
{
    if crate::path::is_absolute(path) != crate::path::is_absolute(base) {
        return None;
    }
    let all = components(path);
    let prefix = components(base);
    if prefix.len() > all.len() {
        return None;
    }
    let mut i: usize = 0;
    while i < prefix.len()
        invariant
            i <= prefix.len() <= all.len(),
            texts(all@).take(i as int) == texts(prefix@).take(i as int),
            texts(all@) == spec_components(path@),
            texts(prefix@) == spec_components(base@),
        decreases prefix.len() - i,
    {
        if all[i] != prefix[i] {
            assert(texts(all@).take(prefix.len() as int)[i as int] != texts(prefix@)[i as int]);
            return None;
        }
        assert(texts(all@).take(i + 1) =~= texts(all@).take(i as int).push(all@[i as int]@));
        assert(texts(prefix@).take(i + 1) =~= texts(prefix@).take(i as int).push(
            prefix@[i as int]@,
        ));
        i += 1;
    }
    assert(texts(prefix@).take(i as int) =~= texts(prefix@));
    let mut rest: Vec<String> = Vec::new();
    let mut k: usize = prefix.len();
    assert(texts(rest@) =~= texts(all@).subrange(prefix.len() as int, k as int));
    while k < all.len()
        invariant
            prefix.len() <= k <= all.len(),
            texts(rest@) == texts(all@).subrange(prefix.len() as int, k as int),
        decreases all.len() - k,
    {
        let ghost before = rest@;
        rest.push(all[k].clone());
        assert(texts(rest@) =~= texts(before).push(all@[k as int]@));
        assert(texts(rest@) =~= texts(all@).subrange(prefix.len() as int, k + 1));
        k += 1;
    }
    assert(texts(rest@) =~= texts(all@).skip(prefix.len() as int));
    Some(rest)
}

/// `path` resolved against `base`.
pub fn resolve(base: &str, path: &str) -> (r: String)
    ensures
        r@ == spec_resolve(base@, path@),
{
    if crate::path::is_absolute(path) {
        return path.to_owned();
    }
    let chars = chars_of(base);
    let mut r = base.to_owned();
    if chars.len() > 0 && chars[chars.len() - 1] != SEPARATOR {
        r.append("/");
        proof {
            reveal_strlit("/");
            assert("/"@ =~= seq![SEPARATOR]);
        }
    }
    r.append(path);
    r
}

/// Whether `parts` can be the components of a path: none is empty or holds a
/// separator, and only the first can be `.`.
pub open spec fn are_components(parts: Seq<Seq<char>>) -> bool {
    forall|i: int|
        0 <= i < parts.len() ==> is_single_component(#[trigger] parts[i]) && (i > 0 ==> parts[i]
            != seq!['.'])
}

/// The components of a path are well formed.
pub proof fn lemma_components_well_formed(path: Seq<char>, end: int)
    requires
        0 <= end <= path.len(),
    ensures
        are_components(components_before(path, end)),
    decreases end,
{
    let last_end = component_end(path, end);
    if last_end > 0 {
        lemma_component_end(path, end);
        lemma_component_bounds(path, last_end);
        let start = component_start(path, last_end);
        lemma_components_well_formed(path, start);
        let before = components_before(path, start);
        let last = path.subrange(start, last_end);
        assert(is_single_component(last));
        if before.len() > 0 && last == seq!['.'] {
            // A `.` behind a separator is no component: `component_end` passes over it.
            assert(last.len() == 1);
            assert(last[0] == path[start]);
            if start == 0 {
                assert(component_end(path, 0) == 0);
                assert(before.len() == 0);
            }
            assert(false);
        }
        assert forall|i: int| 0 <= i < before.push(last).len() implies is_single_component(
            #[trigger] before.push(last)[i],
        ) && (i > 0 ==> before.push(last)[i] != seq!['.']) by {
            if i < before.len() {
                assert(before.push(last)[i] == before[i]);
            }
        }
    }
}

/// `last_index_before` looks at what stands before `end` only.
proof fn lemma_last_index_before_local(a: Seq<char>, b: Seq<char>, c: char, end: int)
    requires
        0 <= end <= a.len(),
        end <= b.len(),
        forall|i: int| 0 <= i < end ==> a[i] == b[i],
    ensures
        last_index_before(a, c, end) == last_index_before(b, c, end),
    decreases end,
{
    if end > 0 && a[end - 1] != c {
        lemma_last_index_before_local(a, b, c, end - 1);
    }
}

/// `component_end` looks at what stands before `end` only.
proof fn lemma_component_end_local(a: Seq<char>, b: Seq<char>, end: int)
    requires
        0 <= end <= a.len(),
        end <= b.len(),
        forall|i: int| 0 <= i < end ==> a[i] == b[i],
    ensures
        component_end(a, end) == component_end(b, end),
    decreases end,
{
    if end > 0 {
        if a[end - 1] == SEPARATOR {
            lemma_component_end_local(a, b, end - 1);
        } else if end >= 2 && a[end - 1] == '.' && a[end - 2] == SEPARATOR {
            lemma_component_end_local(a, b, end - 2);
        }
    }
}

/// `components_before` looks at what stands before `end` only.
proof fn lemma_components_before_local(a: Seq<char>, b: Seq<char>, end: int)
    requires
        0 <= end <= a.len(),
        end <= b.len(),
        forall|i: int| 0 <= i < end ==> a[i] == b[i],
    ensures
        components_before(a, end) == components_before(b, end),
    decreases end,
{
    lemma_component_end_local(a, b, end);
    let last_end = component_end(a, end);
    if last_end > 0 {
        lemma_component_end(a, end);
        lemma_component_bounds(a, last_end);
        lemma_last_index_before_local(a, b, SEPARATOR, last_end);
        let start = component_start(a, last_end);
        lemma_components_before_local(a, b, start);
        assert(a.subrange(start, last_end) =~= b.subrange(start, last_end));
    }
}

/// Well-formed components that are joined make a path that does not start
/// at the root and has just these components.
pub proof fn lemma_components_of_join(parts: Seq<Seq<char>>)
    requires
        are_components(parts),
    ensures
        spec_components(spec_join(parts)) == parts,
        !spec_is_absolute(spec_join(parts)),
        parts.len() > 0 ==> spec_join(parts).len() > 0 && spec_join(parts)[0] == parts[0][0]
            && spec_join(parts).last() == parts.last().last(),
    decreases parts.len(),
{
    let joined = spec_join(parts);
    let n = joined.len() as int;
    if parts.len() == 0 {
        assert(components_before(joined, 0) =~= parts);
    } else if parts.len() == 1 {
        let only = parts[0];
        assert(is_single_component(only));
        assert(component_end(only, n) == n);
        lemma_last_index_before_unique(only, SEPARATOR, n, -1);
        assert(only.subrange(0, n) =~= only);
        assert(components_before(only, 0) =~= Seq::<Seq<char>>::empty());
        assert(components_before(only, n) =~= parts);
    } else {
        let init = parts.drop_last();
        let last = parts.last();
        let head = spec_join(init);
        let m = head.len() as int;
        assert(are_components(init)) by {
            assert forall|i: int| 0 <= i < init.len() implies is_single_component(
                #[trigger] init[i],
            ) && (i > 0 ==> init[i] != seq!['.']) by {
                assert(init[i] == parts[i]);
            }
        }
        lemma_components_of_join(init);
        assert(is_single_component(last));
        assert(last != seq!['.']);
        assert(joined =~= head + seq![SEPARATOR] + last);
        assert(joined[n - 1] == last[last.len() - 1]);
        assert(joined[m] == SEPARATOR);
        assert(joined[0] == head[0]);
        if joined[n - 1] == '.' && joined[n - 2] == SEPARATOR {
            assert(last.len() == 1) by {
                if last.len() >= 2 {
                    assert(joined[n - 2] == last[last.len() - 2]);
                }
            }
            assert(last =~= seq!['.']);
        }
        assert(component_end(joined, n) == n);
        assert forall|i: int| m < i < n implies joined[i] != SEPARATOR by {
            assert(joined[i] == last[i - m - 1]);
        }
        lemma_last_index_before_unique(joined, SEPARATOR, n, m);
        assert(joined.subrange(m + 1, n) =~= last);
        // Before the separator stand the components of `head`.
        assert(component_end(joined, m + 1) == component_end(joined, m));
        assert(components_before(joined, m + 1) == components_before(joined, m));
        assert forall|i: int| 0 <= i < m implies joined[i] == head[i] by {}
        lemma_components_before_local(joined, head, m);
        assert(components_before(joined, n) =~= init.push(last));
        assert(init.push(last) =~= parts);
    }
}


/// The components that are left of a path below a base are well formed, are
/// the components of their own join, and follow those of the base in the path.
pub proof fn lemma_relative_components(path: Seq<char>, base: Seq<char>)
    requires
        spec_relative_to(path, base) is Some,
    ensures
        are_components(spec_relative_to(path, base)->Some_0),
        spec_components(spec_join(spec_relative_to(path, base)->Some_0)) == spec_relative_to(
            path,
            base,
        )->Some_0,
        !spec_is_absolute(spec_join(spec_relative_to(path, base)->Some_0)),
        spec_components(base) + spec_relative_to(path, base)->Some_0 == spec_components(path),
{
    let rest = spec_relative_to(path, base)->Some_0;
    let all = spec_components(path);
    let skipped = all.len() - rest.len();
    lemma_components_well_formed(path, path.len() as int);
    assert forall|i: int| 0 <= i < rest.len() implies is_single_component(#[trigger] rest[i]) && (i
        > 0 ==> rest[i] != seq!['.']) by {
        assert(rest[i] == all[i + skipped]);
    }
    lemma_components_of_join(rest);
    assert(all.take(skipped) + all.skip(skipped) =~= all);
}

} // verus!
