//! How the maps that a manifest is folded into grow with each of its
//! pointers.
use crate::first_match::lemma_first_match_none;
use crate::first_match::lemma_first_match_push;
use crate::first_match::lemma_first_match_result;
use crate::serialized_file::NamedPointerView;
use crate::viewer_state::Candidate;
use crate::viewer_state::add_candidate;
use crate::viewer_state::add_candidates;
use crate::viewer_state::candidates_of;
use crate::viewer_state::first_with_target;
use crate::viewer_state::has_target;
use crate::viewer_state::is_named;
use crate::viewer_state::names;
use crate::viewer_state::names_by_target;
use vstd::prelude::*;

verus! {

/// A manifest gives no candidates to a name that it does not name.
pub proof fn lemma_candidates_of_unnamed(
    manifest: Seq<NamedPointerView>,
    serialized_file_id: i64,
    name: Seq<char>,
)
    requires
        !names(manifest, name),
    ensures
        candidates_of(manifest, serialized_file_id, name) == Seq::<Candidate>::empty(),
    decreases manifest.len(),
{
    reveal(Seq::filter);
    let named = is_named(name);
    if manifest.len() > 0 {
        assert(!names(manifest.drop_last(), name)) by {
            if names(manifest.drop_last(), name) {
                let i = choose|i: int|
                    0 <= i < manifest.drop_last().len() && (#[trigger] manifest.drop_last()[i]).0
                        == name;
                assert(manifest[i].0 == name);
            }
        }
        lemma_candidates_of_unnamed(manifest.drop_last(), serialized_file_id, name);
        assert(manifest[manifest.len() - 1].0 != name);
        assert(manifest.filter(named) == manifest.drop_last().filter(named));
    }
    assert(candidates_of(manifest, serialized_file_id, name) =~= Seq::<Candidate>::empty());
}

/// A manifest gives a candidate to every name that it names.
pub proof fn lemma_candidates_of_named(
    manifest: Seq<NamedPointerView>,
    serialized_file_id: i64,
    name: Seq<char>,
)
    requires
        names(manifest, name),
    ensures
        candidates_of(manifest, serialized_file_id, name).len() > 0,
{
    let i = choose|i: int| 0 <= i < manifest.len() && (#[trigger] manifest[i]).0 == name;
    manifest.lemma_filter_contains(is_named(name), i);
}

/// The candidates that a manifest with one more pointer gives to a name.
pub proof fn lemma_candidates_of_push(
    manifest: Seq<NamedPointerView>,
    serialized_file_id: i64,
    last: NamedPointerView,
    name: Seq<char>,
)
    ensures
        candidates_of(manifest.push(last), serialized_file_id, name) == if last.0 == name {
            candidates_of(manifest, serialized_file_id, name).push((serialized_file_id, last.1))
        } else {
            candidates_of(manifest, serialized_file_id, name)
        },
{
    manifest.lemma_filter_push(last, is_named(name));
    if last.0 == name {
        assert(candidates_of(manifest.push(last), serialized_file_id, name) =~= candidates_of(
            manifest,
            serialized_file_id,
            name,
        ).push((serialized_file_id, last.1)));
    }
}

/// An empty manifest adds no candidates.
pub proof fn lemma_add_candidates_empty(
    containers: Map<Seq<char>, Seq<Candidate>>,
    serialized_file_id: i64,
)
    ensures
        add_candidates(containers, serialized_file_id, Seq::empty()) == containers,
{
    let added = add_candidates(containers, serialized_file_id, Seq::empty());
    assert forall|name: Seq<char>| added.contains_key(name) implies added[name]
        == containers[name] by {
        lemma_candidates_of_unnamed(Seq::empty(), serialized_file_id, name);
        assert(containers[name] + Seq::<Candidate>::empty() =~= containers[name]);
    }
    assert(added =~= containers);
}

/// Folding in a manifest with one more pointer is folding in the manifest and
/// then adding the pointer behind the candidates of its name.
pub proof fn lemma_add_candidates_push(
    containers: Map<Seq<char>, Seq<Candidate>>,
    serialized_file_id: i64,
    manifest: Seq<NamedPointerView>,
    last: NamedPointerView,
)
    ensures
        add_candidates(containers, serialized_file_id, manifest.push(last)) == add_candidate(
            add_candidates(containers, serialized_file_id, manifest),
            last.0,
            (serialized_file_id, last.1),
        ),
{
    let before = add_candidates(containers, serialized_file_id, manifest);
    let whole = add_candidates(containers, serialized_file_id, manifest.push(last));
    let stepped = add_candidate(before, last.0, (serialized_file_id, last.1));
    assert forall|name: Seq<char>| whole.contains_key(name) <==> stepped.contains_key(name) by {
        if names(manifest.push(last), name) {
            let i = choose|i: int|
                0 <= i < manifest.push(last).len() && (#[trigger] manifest.push(last)[i]).0 == name;
            if i < manifest.len() {
                assert(manifest[i].0 == name);
            }
        }
        if names(manifest, name) {
            let i = choose|i: int| 0 <= i < manifest.len() && (#[trigger] manifest[i]).0 == name;
            assert(manifest.push(last)[i].0 == name);
        }
        if last.0 == name {
            assert(manifest.push(last)[manifest.len() as int].0 == name);
        }
    }
    assert forall|name: Seq<char>| whole.contains_key(name) implies whole[name]
        == stepped[name] by {
        lemma_candidates_of_push(manifest, serialized_file_id, last, name);
        if last.0 == name {
            if !before.contains_key(name) {
                lemma_candidates_of_unnamed(manifest, serialized_file_id, name);
            }
            assert(whole[name] =~= stepped[name]);
        }
    }
    assert(whole =~= stepped);
}

/// A manifest without pointers names no object.
pub proof fn lemma_names_by_target_empty()
    ensures
        names_by_target(Seq::empty()) == Map::<i64, Seq<char>>::empty(),
{
    assert forall|path_id: i64| first_with_target(Seq::empty(), path_id) is None by {
        lemma_first_match_none(Seq::empty(), has_target(path_id));
    }
    assert(names_by_target(Seq::empty()) =~= Map::<i64, Seq<char>>::empty());
}

/// The names that a manifest with one more pointer gives to objects: the
/// pointer's name is added for its target unless the target has a name
/// already.
pub proof fn lemma_names_by_target_push(
    manifest: Seq<NamedPointerView>,
    last: NamedPointerView,
)
    ensures
        names_by_target(manifest.push(last)) == match last.1.target() {
            Some(path_id) => if names_by_target(manifest).contains_key(path_id) {
                names_by_target(manifest)
            } else {
                names_by_target(manifest).insert(path_id, last.0)
            },
            None => names_by_target(manifest),
        },
{
    let stepped = match last.1.target() {
        Some(path_id) => if names_by_target(manifest).contains_key(path_id) {
            names_by_target(manifest)
        } else {
            names_by_target(manifest).insert(path_id, last.0)
        },
        None => names_by_target(manifest),
    };
    let whole = names_by_target(manifest.push(last));
    assert forall|path_id: i64| #[trigger]
        whole.contains_key(path_id) == stepped.contains_key(path_id) && (whole.contains_key(path_id)
            ==> whole[path_id] == stepped[path_id]) by {
        lemma_first_match_push(manifest, has_target(path_id), last);
        lemma_first_match_result(manifest, has_target(path_id));
        match first_with_target(manifest, path_id) {
            Some(i) => {
                assert(manifest.push(last)[i] == manifest[i]);
            },
            None => {
                assert(manifest.push(last)[manifest.len() as int] == last);
            },
        }
    }
    assert(whole =~= stepped);
}

} // verus!
