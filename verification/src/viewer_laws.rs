//! What holds of an index as it takes in archives.
use crate::classes::p_ptr::TypedPointer;
use crate::first_match::is_first_match;
use crate::first_match::lemma_filter_element;
use crate::first_match::lemma_filter_first;
use crate::first_match::lemma_first_match_result;
use crate::manifest_lemmas::lemma_candidates_of_named;
use crate::manifest_lemmas::lemma_candidates_of_unnamed;
use crate::serialized_file::CabFile;
use crate::serialized_file::DecodeError;
use crate::serialized_file::NamedPointerView;
use crate::serialized_file::SerializedFile;
use crate::type_tree::TypeTreeObject;
use crate::untityfs::UnityFS;
use crate::viewer_state::Candidate;
use crate::viewer_state::Ingestion;
use crate::viewer_state::ViewerState;
use crate::viewer_state::cab_file_count;
use crate::viewer_state::candidates_before;
use crate::viewer_state::candidates_of;
use crate::viewer_state::first_with_target;
use crate::viewer_state::has_target;
use crate::viewer_state::is_named;
use crate::viewer_state::names;
use crate::viewer_state::resolve;
use vstd::prelude::*;

verus! {

/// The candidates that the tables below `end` give to a name are the same in
/// two states that hold the same tables below `end`.
pub proof fn lemma_candidates_below_agree(
    s1: ViewerState,
    s2: ViewerState,
    end: int,
    name: Seq<char>,
)
    requires
        forall|id: i64|
            id < end ==> (s1.serialized_file_map.contains_key(id)
                <==> s2.serialized_file_map.contains_key(id)),
        forall|id: i64|
            id < end && s1.serialized_file_map.contains_key(id) ==> s1.serialized_file_map[id]
                == s2.serialized_file_map[id],
    ensures
        s1.candidates_below(end, name) == s2.candidates_below(end, name),
    decreases end,
{
    if end > 0 {
        lemma_candidates_below_agree(s1, s2, end - 1, name);
    }
}

/// An index that has taken in nothing is in a state that it can reach.
pub proof fn lemma_empty_wf()
    ensures
        ViewerState::empty().wf(),
{
    let s = ViewerState::empty();
    assert forall|name: Seq<char>| #[trigger]
        candidates_before(s.container_maps, name) == s.candidates_below(
            s.serialized_file_count,
            name,
        ) by {}
}

/// Taking in one parsed virtual file keeps the state one that an index can
/// reach.
pub proof fn lemma_add_serialized_file_wf(s: ViewerState, unity_fs_id: i64, cab_file: CabFile)
    requires
        s.wf(),
        s.serialized_file_count < i64::MAX,
        0 <= unity_fs_id < s.unity_fs_count,
    ensures
        s.add_serialized_file(unity_fs_id, cab_file).wf(),
{
    let id = s.serialized_file_count as i64;
    let table = cab_file.table(id);
    let added = s.add_serialized_file(unity_fs_id, cab_file);
    assert forall|name: Seq<char>| #[trigger]
        candidates_before(added.container_maps, name) == added.candidates_below(
            added.serialized_file_count,
            name,
        ) by {
        lemma_candidates_below_agree(s, added, s.serialized_file_count, name);
        match table.manifest() {
            Some(manifest) => {
                if !added.container_maps.contains_key(name) {
                    lemma_candidates_of_unnamed(manifest, id, name);
                }
            },
            None => {},
        }
        assert(added.candidates_below(added.serialized_file_count, name)
            == added.candidates_below(s.serialized_file_count, name) + added.candidates_from(
            id,
            name,
        ));
        assert(candidates_before(s.container_maps, name) + Seq::<Candidate>::empty()
            =~= candidates_before(s.container_maps, name));
    }
    assert forall|name: Seq<char>| #[trigger]
        added.container_maps.contains_key(name) implies added.container_maps[name].len() > 0 by {
        match table.manifest() {
            Some(manifest) => {
                if !s.container_maps.contains_key(name) {
                    lemma_candidates_of_named(manifest, id, name);
                }
            },
            None => {},
        }
    }
}

/// Taking in the parsed virtual files of an archive keeps the state one that
/// an index can reach, and moves the table counter on by their number.
pub proof fn lemma_add_serialized_files_wf(
    s: ViewerState,
    unity_fs_id: i64,
    cab_files: Seq<CabFile>,
)
    requires
        s.wf(),
        s.serialized_file_count + cab_files.len() <= i64::MAX,
        0 <= unity_fs_id < s.unity_fs_count,
    ensures
        s.add_serialized_files(unity_fs_id, cab_files).wf(),
        s.add_serialized_files(unity_fs_id, cab_files).serialized_file_count
            == s.serialized_file_count + cab_files.len(),
        s.add_serialized_files(unity_fs_id, cab_files).unity_fs_count == s.unity_fs_count,
        s.add_serialized_files(unity_fs_id, cab_files).unity_fs_map == s.unity_fs_map,
    decreases cab_files.len(),
{
    if cab_files.len() > 0 {
        lemma_add_serialized_files_wf(s, unity_fs_id, cab_files.drop_last());
        lemma_add_serialized_file_wf(
            s.add_serialized_files(unity_fs_id, cab_files.drop_last()),
            unity_fs_id,
            cab_files.last(),
        );
    }
}

/// Taking in an archive's parsed virtual files without the archive keeps the
/// state one that an index can reach.
pub proof fn lemma_add_cab_files_wf(s: ViewerState, cab_files: Seq<CabFile>)
    requires
        s.wf(),
        s.has_room_for(cab_files.len() as int),
    ensures
        s.add_cab_files(cab_files).wf(),
        s.add_cab_files(cab_files).serialized_file_count == s.serialized_file_count
            + cab_files.len(),
        s.add_cab_files(cab_files).unity_fs_count == s.unity_fs_count + 1,
        s.add_cab_files(cab_files).unity_fs_map == s.unity_fs_map,
{
    let opened = ViewerState { unity_fs_count: s.unity_fs_count + 1, ..s };
    assert forall|name: Seq<char>| #[trigger]
        candidates_before(opened.container_maps, name) == opened.candidates_below(
            opened.serialized_file_count,
            name,
        ) by {
        lemma_candidates_below_agree(s, opened, s.serialized_file_count, name);
    }
    assert(opened.wf());
    lemma_add_serialized_files_wf(opened, s.unity_fs_count as i64, cab_files);
}

/// Taking in an archive with its parsed virtual files keeps the state one
/// that an index can reach.
pub proof fn lemma_add_unity_fs_wf(s: ViewerState, unity_fs: UnityFS, cab_files: Seq<CabFile>)
    requires
        s.wf(),
        s.has_room_for(cab_files.len() as int),
    ensures
        s.add_unity_fs(unity_fs, cab_files).wf(),
        s.add_unity_fs(unity_fs, cab_files).serialized_file_count == s.serialized_file_count
            + cab_files.len(),
        s.add_unity_fs(unity_fs, cab_files).unity_fs_count == s.unity_fs_count + 1,
{
    lemma_add_cab_files_wf(s, cab_files);
    let added = s.add_cab_files(cab_files);
    let whole = s.add_unity_fs(unity_fs, cab_files);
    assert forall|name: Seq<char>| #[trigger]
        candidates_before(whole.container_maps, name) == whole.candidates_below(
            whole.serialized_file_count,
            name,
        ) by {
        lemma_candidates_below_agree(added, whole, added.serialized_file_count, name);
    }
}

/// A state keeps all that it holds.
pub proof fn lemma_is_kept_by_itself(s: ViewerState)
    ensures
        s.is_kept_by(s),
{
}

/// What a state keeps of an earlier one, it keeps of all that the earlier one
/// kept.
pub proof fn lemma_is_kept_by_later(s1: ViewerState, s2: ViewerState, s3: ViewerState)
    requires
        s1.is_kept_by(s2),
        s2.is_kept_by(s3),
    ensures
        s1.is_kept_by(s3),
{
    assert forall|name: Seq<char>| #[trigger]
        s1.container_maps.contains_key(name) implies s1.container_maps[name].is_prefix_of(
        s3.container_maps[name],
    ) by {
        assert(s2.container_maps.contains_key(name));
        assert(s3.container_maps.contains_key(name));
        assert(s2.container_maps[name].is_prefix_of(s3.container_maps[name]));
    }
}

/// Taking in one parsed virtual file keeps all that the index held: the new
/// table's identifier is one that was not in use, and candidates are only
/// added behind those that are there.
pub proof fn lemma_add_serialized_file_keeps(s: ViewerState, unity_fs_id: i64, cab_file: CabFile)
    requires
        s.wf(),
        s.serialized_file_count < i64::MAX,
    ensures
        s.is_kept_by(s.add_serialized_file(unity_fs_id, cab_file)),
        !s.serialized_file_map.contains_key(s.serialized_file_count as i64),
{
}

/// Taking in the parsed virtual files of an archive keeps all that the index
/// held.
pub proof fn lemma_add_serialized_files_keeps(
    s: ViewerState,
    unity_fs_id: i64,
    cab_files: Seq<CabFile>,
)
    requires
        s.wf(),
        s.serialized_file_count + cab_files.len() <= i64::MAX,
        0 <= unity_fs_id < s.unity_fs_count,
    ensures
        s.is_kept_by(s.add_serialized_files(unity_fs_id, cab_files)),
    decreases cab_files.len(),
{
    if cab_files.len() > 0 {
        let before = s.add_serialized_files(unity_fs_id, cab_files.drop_last());
        lemma_add_serialized_files_keeps(s, unity_fs_id, cab_files.drop_last());
        lemma_add_serialized_files_wf(s, unity_fs_id, cab_files.drop_last());
        lemma_add_serialized_file_keeps(before, unity_fs_id, cab_files.last());
        lemma_is_kept_by_later(s, before, s.add_serialized_files(unity_fs_id, cab_files));
    }
}

/// Taking in one archive keeps the state one that an index can reach, keeps
/// all that the index held, and moves the counters on: the archive counter by
/// one, the table counter by the number of the archive's virtual files.
pub proof fn lemma_ingest(s: ViewerState, archive: Ingestion)
    requires
        s.wf(),
        s.has_room_for(archive.cab_files.len() as int),
    ensures
        s.ingest(archive).wf(),
        s.is_kept_by(s.ingest(archive)),
        s.ingest(archive).unity_fs_count == s.unity_fs_count + 1,
        s.ingest(archive).serialized_file_count == s.serialized_file_count
            + archive.cab_files.len(),
{
    let opened = ViewerState { unity_fs_count: s.unity_fs_count + 1, ..s };
    lemma_add_cab_files_wf(s, archive.cab_files);
    assert(opened.wf()) by {
        assert forall|name: Seq<char>| #[trigger]
            candidates_before(opened.container_maps, name) == opened.candidates_below(
                opened.serialized_file_count,
                name,
            ) by {
            lemma_candidates_below_agree(s, opened, s.serialized_file_count, name);
        }
    }
    lemma_add_serialized_files_keeps(opened, s.unity_fs_count as i64, archive.cab_files);
    let added = s.add_cab_files(archive.cab_files);
    assert(s.is_kept_by(opened));
    lemma_is_kept_by_later(s, opened, added);
    match archive.unity_fs {
        Some(unity_fs) => {
            lemma_add_unity_fs_wf(s, unity_fs, archive.cab_files);
            assert(added.is_kept_by(s.ingest(archive)));
            lemma_is_kept_by_later(s, added, s.ingest(archive));
        },
        None => {},
    }
}

/// Taking in a sequence of archives keeps the state one that an index can
/// reach, keeps all that the index held, and moves the counters on by the
/// number of archives and of their virtual files.
pub proof fn lemma_ingest_all(s: ViewerState, archives: Seq<Ingestion>)
    requires
        s.wf(),
        s.unity_fs_count + archives.len() <= i64::MAX,
        s.serialized_file_count + cab_file_count(archives) <= i64::MAX,
    ensures
        s.ingest_all(archives).wf(),
        s.is_kept_by(s.ingest_all(archives)),
        s.ingest_all(archives).unity_fs_count == s.unity_fs_count + archives.len(),
        s.ingest_all(archives).serialized_file_count == s.serialized_file_count + cab_file_count(
            archives,
        ),
    decreases archives.len(),
{
    if archives.len() > 0 {
        lemma_ingest_all(s, archives.drop_last());
        lemma_ingest(s.ingest_all(archives.drop_last()), archives.last());
        lemma_is_kept_by_later(s, s.ingest_all(archives.drop_last()), s.ingest_all(archives));
    }
}

/// The identifiers that an archive and its virtual files get.
///
/// The archive gets the archive counter as its identifier and the `j`-th of
/// its virtual files the table counter plus `j`. Neither identifier was in
/// use. Afterwards the table is there under its identifier and belongs to the
/// archive's, and the archive, where it was handed over, is there under its
/// own.
pub proof fn lemma_ingest_identifiers(s: ViewerState, archive: Ingestion, j: int)
    requires
        s.wf(),
        s.has_room_for(archive.cab_files.len() as int),
        0 <= j < archive.cab_files.len(),
    ensures
        ({
            let unity_fs_id = s.unity_fs_count as i64;
            let serialized_file_id = (s.serialized_file_count + j) as i64;
            let after = s.ingest(archive);
            &&& !s.unity_fs_map.contains_key(unity_fs_id)
            &&& !s.serialized_file_map.contains_key(serialized_file_id)
            &&& after.serialized_file_map.contains_key(serialized_file_id)
            &&& after.serialized_file_map[serialized_file_id] == archive.cab_files[j].table(
                serialized_file_id,
            )
            &&& after.serialized_file_to_unity_fs_map.contains_key(serialized_file_id)
            &&& after.serialized_file_to_unity_fs_map[serialized_file_id] == unity_fs_id
            &&& archive.unity_fs is Some ==> after.unity_fs_map.contains_key(unity_fs_id)
                && after.unity_fs_map[unity_fs_id] == archive.unity_fs->0
            &&& after.unity_fs_by_serialized_file_id(serialized_file_id) == archive.unity_fs
        }),
{
    let opened = ViewerState { unity_fs_count: s.unity_fs_count + 1, ..s };
    let unity_fs_id = s.unity_fs_count as i64;
    assert(opened.wf()) by {
        assert forall|name: Seq<char>| #[trigger]
            candidates_before(opened.container_maps, name) == opened.candidates_below(
                opened.serialized_file_count,
                name,
            ) by {
            lemma_candidates_below_agree(s, opened, s.serialized_file_count, name);
        }
    }
    lemma_add_serialized_files_identifiers(opened, unity_fs_id, archive.cab_files, j);
    lemma_add_serialized_files_wf(opened, unity_fs_id, archive.cab_files);
}

/// The identifier that the `j`-th of an archive's virtual files gets.
pub proof fn lemma_add_serialized_files_identifiers(
    s: ViewerState,
    unity_fs_id: i64,
    cab_files: Seq<CabFile>,
    j: int,
)
    requires
        s.wf(),
        s.serialized_file_count + cab_files.len() <= i64::MAX,
        0 <= unity_fs_id < s.unity_fs_count,
        0 <= j < cab_files.len(),
    ensures
        ({
            let serialized_file_id = (s.serialized_file_count + j) as i64;
            let after = s.add_serialized_files(unity_fs_id, cab_files);
            &&& !s.serialized_file_map.contains_key(serialized_file_id)
            &&& after.serialized_file_map.contains_key(serialized_file_id)
            &&& after.serialized_file_map[serialized_file_id] == cab_files[j].table(
                serialized_file_id,
            )
            &&& after.serialized_file_to_unity_fs_map[serialized_file_id] == unity_fs_id
        }),
    decreases cab_files.len(),
{
    let before = s.add_serialized_files(unity_fs_id, cab_files.drop_last());
    lemma_add_serialized_files_wf(s, unity_fs_id, cab_files.drop_last());
    if j < cab_files.len() - 1 {
        lemma_add_serialized_files_identifiers(s, unity_fs_id, cab_files.drop_last(), j);
        lemma_add_serialized_file_keeps(before, unity_fs_id, cab_files.last());
    }
}

/// Identifiers go up in the order in which archives are taken in.
///
/// An archive gets the archive counter as its identifier and its virtual
/// files the table counter and the numbers that follow it
/// (`lemma_ingest_identifiers`). Of a sequence of archives taken in by an
/// index, whatever it took in before, the archive counter is lower when the
/// `k`-th is taken in than when the `l`-th is, where `k < l`, and the table
/// counter has by then passed every identifier that the virtual files of the
/// `k`-th got.
pub proof fn lemma_identifiers_increase(s: ViewerState, archives: Seq<Ingestion>, k: int, l: int)
    requires
        s.wf(),
        s.unity_fs_count + archives.len() <= i64::MAX,
        s.serialized_file_count + cab_file_count(archives) <= i64::MAX,
        0 <= k < l < archives.len(),
    ensures
        s.ingest_all(archives.take(k)).unity_fs_count < s.ingest_all(
            archives.take(l),
        ).unity_fs_count,
        s.ingest_all(archives.take(k)).serialized_file_count + archives[k].cab_files.len()
            <= s.ingest_all(archives.take(l)).serialized_file_count,
{
    lemma_cab_file_count_take(archives, k);
    lemma_cab_file_count_take(archives, k + 1);
    lemma_cab_file_count_take(archives, l);
    lemma_cab_file_count_grows(archives, k + 1, l);
    lemma_ingest_all(s, archives.take(k));
    lemma_ingest_all(s, archives.take(l));
    assert(archives.take(k + 1).drop_last() =~= archives.take(k));
    assert(archives.take(k + 1).last() == archives[k]);
}

/// The first archives of a sequence have no more virtual files than all of
/// them.
pub proof fn lemma_cab_file_count_take(archives: Seq<Ingestion>, n: int)
    requires
        0 <= n <= archives.len(),
    ensures
        0 <= cab_file_count(archives.take(n)) <= cab_file_count(archives),
    decreases archives.len(),
{
    if n == archives.len() {
        assert(archives.take(n) =~= archives);
        lemma_cab_file_count_nonnegative(archives);
    } else {
        assert(archives.drop_last().take(n) =~= archives.take(n));
        lemma_cab_file_count_take(archives.drop_last(), n);
    }
}

/// A sequence of archives has no negative number of virtual files.
pub proof fn lemma_cab_file_count_nonnegative(archives: Seq<Ingestion>)
    ensures
        0 <= cab_file_count(archives),
    decreases archives.len(),
{
    if archives.len() > 0 {
        lemma_cab_file_count_nonnegative(archives.drop_last());
    }
}

/// More archives of a sequence have no fewer virtual files.
pub proof fn lemma_cab_file_count_grows(archives: Seq<Ingestion>, m: int, n: int)
    requires
        0 <= m <= n <= archives.len(),
    ensures
        cab_file_count(archives.take(m)) <= cab_file_count(archives.take(n)),
{
    assert(archives.take(n).take(m) =~= archives.take(m));
    lemma_cab_file_count_take(archives.take(n), m);
}

/// Every candidate that the tables below `end` give to a name comes from the
/// manifest of its table: the table is there, below `end`, and its manifest
/// holds the candidate's pointer under the name.
pub proof fn lemma_candidates_below_come_from_manifests(
    s: ViewerState,
    end: int,
    name: Seq<char>,
    k: int,
) -> (i: int)
    requires
        end <= i64::MAX,
        0 <= k < s.candidates_below(end, name).len(),
    ensures
        ({
            let candidate = s.candidates_below(end, name)[k];
            &&& 0 <= candidate.0 < end
            &&& s.serialized_file_map.contains_key(candidate.0)
            &&& s.serialized_file_map[candidate.0].manifest() is Some
            &&& 0 <= i < s.serialized_file_map[candidate.0].manifest()->0.len()
            &&& s.serialized_file_map[candidate.0].manifest()->0[i] == (name, candidate.1)
        }),
    decreases end,
{
    let below = s.candidates_below(end - 1, name);
    if k < below.len() {
        lemma_candidates_below_come_from_manifests(s, end - 1, name, k)
    } else {
        let id = (end - 1) as i64;
        let manifest = s.serialized_file_map[id].manifest()->0;
        let from = k - below.len();
        assert(s.candidates_below(end, name)[k] == s.candidates_from(id, name)[from]);
        let i = lemma_filter_element(manifest, is_named(name), from);
        assert(s.candidates_from(id, name)[from] == (id, manifest[i].1));
        i
    }
}

/// The candidate that stands for a container path comes from a manifest: its
/// table is there, and the table's manifest holds its pointer under that
/// path. The pointer has a target and was decoded from that table.
pub proof fn lemma_first_candidate_comes_from_manifest(s: ViewerState, name: Seq<char>) -> (i: int)
    requires
        s.wf(),
        s.first_candidate(name) is Some,
    ensures
        ({
            let candidate = s.first_candidate(name)->0;
            &&& s.serialized_file_map.contains_key(candidate.0)
            &&& s.serialized_file_map[candidate.0].manifest() is Some
            &&& 0 <= i < s.serialized_file_map[candidate.0].manifest()->0.len()
            &&& s.serialized_file_map[candidate.0].manifest()->0[i] == (name, candidate.1)
            &&& candidate.1.target() is Some
            &&& candidate.1.serialized_file_id == candidate.0
        }),
{
    assert(candidates_before(s.container_maps, name) == s.candidates_below(
        s.serialized_file_count,
        name,
    ));
    let i = lemma_candidates_below_come_from_manifests(s, s.serialized_file_count, name, 0);
    let candidate = s.first_candidate(name)->0;
    s.serialized_file_map[candidate.0].lemma_manifest_pointers(i);
    i
}

/// A container path stands for the object that its table holds under the
/// target of the path's first pointer, where that pointer stays within its
/// table.
pub proof fn lemma_container_name_resolves_in_its_table(s: ViewerState, name: Seq<char>)
    requires
        s.wf(),
        s.first_candidate(name) matches Some(candidate) && candidate.1.file_id == Some(0i64),
    ensures
        ({
            let candidate = s.first_candidate(name)->0;
            &&& s.serialized_file_map.contains_key(candidate.0)
            &&& candidate.1.target() is Some
            &&& s.type_tree_object_by_container_name(name)
                == s.serialized_file_map[candidate.0].object(candidate.1.target()->0)
        }),
{
    let i = lemma_first_candidate_comes_from_manifest(s, name);
}

/// A container path that a table is the first to register stands for the
/// first pointer that the table's manifest holds under it.
pub proof fn lemma_first_candidate_of_new_name(
    s: ViewerState,
    unity_fs_id: i64,
    cab_file: CabFile,
    i: int,
)
    requires
        s.wf(),
        s.serialized_file_count < i64::MAX,
        cab_file.table(s.serialized_file_count as i64).manifest() is Some,
        ({
            let manifest = cab_file.table(s.serialized_file_count as i64).manifest()->0;
            &&& 0 <= i < manifest.len()
            &&& is_first_match(manifest, is_named(manifest[i].0), i)
            &&& !s.container_maps.contains_key(manifest[i].0)
        }),
    ensures
        ({
            let serialized_file_id = s.serialized_file_count as i64;
            let manifest = cab_file.table(serialized_file_id).manifest()->0;
            s.add_serialized_file(unity_fs_id, cab_file).first_candidate(manifest[i].0) == Some(
                (serialized_file_id, manifest[i].1),
            )
        }),
{
    let serialized_file_id = s.serialized_file_count as i64;
    let manifest = cab_file.table(serialized_file_id).manifest()->0;
    let name = manifest[i].0;
    lemma_filter_first(manifest, is_named(name), i);
    assert(names(manifest, name));
    assert(candidates_of(manifest, serialized_file_id, name)[0] == (
        serialized_file_id,
        manifest[i].1,
    ));
    assert(Seq::<Candidate>::empty() + candidates_of(manifest, serialized_file_id, name)
        =~= candidates_of(manifest, serialized_file_id, name));
}

/// The way there and back. Where the manifest of a table that is taken in
/// holds a pointer under a container path that no table has registered, the
/// pointer is the first of the manifest under that path, and it stays within
/// its table, the path stands from then on for the object that the table
/// itself gives for the pointer's target.
pub proof fn lemma_round_trip(s: ViewerState, unity_fs_id: i64, cab_file: CabFile, i: int)
    requires
        s.wf(),
        s.serialized_file_count < i64::MAX,
        cab_file.table(s.serialized_file_count as i64).manifest() is Some,
        ({
            let manifest = cab_file.table(s.serialized_file_count as i64).manifest()->0;
            &&& 0 <= i < manifest.len()
            &&& is_first_match(manifest, is_named(manifest[i].0), i)
            &&& !s.container_maps.contains_key(manifest[i].0)
            &&& manifest[i].1.file_id == Some(0i64)
        }),
    ensures
        ({
            let serialized_file = cab_file.table(s.serialized_file_count as i64);
            let manifest = serialized_file.manifest()->0;
            &&& manifest[i].1.target() is Some
            &&& s.add_serialized_file(unity_fs_id, cab_file).type_tree_object_by_container_name(
                manifest[i].0,
            ) == serialized_file.object(manifest[i].1.target()->0)
        }),
{
    let serialized_file = cab_file.table(s.serialized_file_count as i64);
    lemma_first_candidate_of_new_name(s, unity_fs_id, cab_file, i);
    serialized_file.lemma_manifest_pointers(i);
}

/// The names of objects agree with the manifests. Of a table with a
/// manifest, the target of each of the manifest's pointers has a name: that
/// of the first pointer of the manifest with this target.
pub proof fn lemma_container_name_of_target(s: ViewerState, serialized_file_id: i64, i: int)
    requires
        s.wf(),
        s.serialized_file_map.contains_key(serialized_file_id),
        s.serialized_file_map[serialized_file_id].manifest() is Some,
        0 <= i < s.serialized_file_map[serialized_file_id].manifest()->0.len(),
    ensures
        ({
            let manifest = s.serialized_file_map[serialized_file_id].manifest()->0;
            let path_id = manifest[i].1.target()->0;
            let first = first_with_target(manifest, path_id);
            &&& manifest[i].1.target() is Some
            &&& first is Some
            &&& is_first_match(manifest, has_target(path_id), first->0)
            &&& first->0 <= i
            &&& s.container_name(serialized_file_id, path_id) == Some(manifest[first->0].0)
            &&& s.container_name_by_pptr(manifest[i].1) == Some(manifest[first->0].0)
        }),
{
    let serialized_file = s.serialized_file_map[serialized_file_id];
    let manifest = serialized_file.manifest()->0;
    serialized_file.lemma_manifest_pointers(i);
    let path_id = manifest[i].1.target()->0;
    lemma_first_match_result(manifest, has_target(path_id));
    assert(s.container_name_maps.contains_key(serialized_file_id));
}

/// A pointer without a target resolves to nothing, whatever its table and
/// whatever the index holds.
pub proof fn lemma_null_pointer_resolves_to_nothing(
    pointer: TypedPointer,
    owner: &SerializedFile,
    viewer: Option<ViewerState>,
)
    requires
        pointer.target() is None,
    ensures
        resolve(pointer, owner, viewer) == Ok::<Option<TypeTreeObject>, DecodeError>(None),
{
}

/// A container path keeps its first candidate, whatever is taken in later.
pub proof fn lemma_first_candidate_is_kept(s: ViewerState, later: ViewerState, name: Seq<char>)
    requires
        s.is_kept_by(later),
        s.first_candidate(name) is Some,
    ensures
        later.first_candidate(name) == s.first_candidate(name),
{
    assert(s.container_maps.contains_key(name));
    assert(s.container_maps[name].is_prefix_of(later.container_maps[name]));
}

/// A container path whose first pointer stays within its table keeps
/// standing for the same object, whatever is taken in later under the same
/// path.
pub proof fn lemma_container_name_object_is_kept(
    s: ViewerState,
    later: ViewerState,
    name: Seq<char>,
)
    requires
        s.wf(),
        s.is_kept_by(later),
        s.first_candidate(name) matches Some(candidate) && candidate.1.file_id == Some(0i64),
    ensures
        later.type_tree_object_by_container_name(name) == s.type_tree_object_by_container_name(
            name,
        ),
{
    lemma_first_candidate_is_kept(s, later, name);
    lemma_container_name_resolves_in_its_table(s, name);
}

/// Two lookups of the table that a virtual-file name stands for, with nothing
/// taken in between them, give the same table, under the same identifier.
pub proof fn lemma_lookup_repeats(
    s: ViewerState,
    path: Seq<char>,
    first: Option<&SerializedFile>,
    second: Option<&SerializedFile>,
)
    requires
        match first {
            Some(serialized_file) => s.serialized_file_by_path(path) == Some(*serialized_file),
            None => s.serialized_file_by_path(path) is None,
        },
        match second {
            Some(serialized_file) => s.serialized_file_by_path(path) == Some(*serialized_file),
            None => s.serialized_file_by_path(path) is None,
        },
    ensures
        first == second,
        first is Some ==> first->0.serialized_file_id == second->0.serialized_file_id,
{
}

/// An index that has taken in nothing finds nothing.
pub proof fn lemma_empty_finds_nothing(
    path: Seq<char>,
    serialized_file_id: i64,
    path_id: i64,
    pointer: TypedPointer,
)
    ensures
        ViewerState::empty().serialized_file_by_path(path) is None,
        ViewerState::empty().unity_fs_by_cab_path(path) is None,
        ViewerState::empty().unity_fs_by_serialized_file_id(serialized_file_id) is None,
        ViewerState::empty().container_name(serialized_file_id, path_id) is None,
        ViewerState::empty().container_name_by_path_id(path, path_id) is None,
        ViewerState::empty().container_name_by_pptr(pointer) is None,
        ViewerState::empty().first_candidate(path) is None,
        ViewerState::empty().serialized_file_by_container_name(path) is None,
        ViewerState::empty().type_tree_object_by_container_name(path) == Ok::<
            Option<TypeTreeObject>,
            DecodeError,
        >(None),
{
}

/// A table is found by the name of its virtual file as soon as it is taken
/// in, whether it has a manifest or not.
pub proof fn lemma_table_is_found_by_its_name(s: ViewerState, unity_fs_id: i64, cab_file: CabFile)
    ensures
        s.add_serialized_file(unity_fs_id, cab_file).serialized_file_by_path(cab_file.path@)
            == Some(cab_file.table(s.serialized_file_count as i64)),
{
}

/// A virtual-file name stands for the last table that was taken in under it.
/// After the virtual files of an archive have been taken in, the name of the
/// `j`-th stands for its table unless a later one of them has the same name.
pub proof fn lemma_virtual_file_name_stands_for_the_last(
    s: ViewerState,
    unity_fs_id: i64,
    cab_files: Seq<CabFile>,
    j: int,
)
    requires
        s.wf(),
        s.serialized_file_count + cab_files.len() <= i64::MAX,
        0 <= unity_fs_id < s.unity_fs_count,
        0 <= j < cab_files.len(),
        forall|k: int|
            j < k < cab_files.len() ==> (#[trigger] cab_files[k]).path@ != cab_files[j].path@,
    ensures
        s.add_serialized_files(unity_fs_id, cab_files).serialized_file_by_path(cab_files[j].path@)
            == Some(cab_files[j].table((s.serialized_file_count + j) as i64)),
    decreases cab_files.len(),
{
    let before = s.add_serialized_files(unity_fs_id, cab_files.drop_last());
    lemma_add_serialized_files_wf(s, unity_fs_id, cab_files.drop_last());
    if j < cab_files.len() - 1 {
        assert forall|k: int| j < k < cab_files.drop_last().len() implies (
        #[trigger] cab_files.drop_last()[k]).path@ != cab_files.drop_last()[j].path@ by {
            assert(cab_files.drop_last()[k] == cab_files[k]);
        }
        lemma_virtual_file_name_stands_for_the_last(s, unity_fs_id, cab_files.drop_last(), j);
        lemma_add_serialized_file_keeps(before, unity_fs_id, cab_files.last());
        assert(cab_files[cab_files.len() - 1].path@ != cab_files[j].path@);
    }
}

/// Every candidate of the tables below `end` is a candidate of the tables
/// below any later `end`.
pub proof fn lemma_candidates_below_grow(
    s: ViewerState,
    end: int,
    later: int,
    name: Seq<char>,
    candidate: Candidate,
)
    requires
        end <= later,
        s.candidates_below(end, name).contains(candidate),
    ensures
        s.candidates_below(later, name).contains(candidate),
    decreases later - end,
{
    if end < later {
        lemma_candidates_below_grow(s, end, later - 1, name, candidate);
        let below = s.candidates_below(later - 1, name);
        let k = choose|k: int| 0 <= k < below.len() && below[k] == candidate;
        assert(s.candidates_below(later, name)[k] == candidate);
    }
}

/// Every pointer of a manifest is a candidate of its name: of a table that
/// the index holds, each pointer that the manifest lists is among the
/// candidates of the container path that it is listed under.
pub proof fn lemma_manifest_pointer_is_a_candidate(s: ViewerState, serialized_file_id: i64, i: int)
    requires
        s.wf(),
        s.serialized_file_map.contains_key(serialized_file_id),
        s.serialized_file_map[serialized_file_id].manifest() is Some,
        0 <= i < s.serialized_file_map[serialized_file_id].manifest()->0.len(),
    ensures
        ({
            let pointer = s.serialized_file_map[serialized_file_id].manifest()->0[i];
            &&& s.container_maps.contains_key(pointer.0)
            &&& s.container_maps[pointer.0].contains((serialized_file_id, pointer.1))
        }),
{
    let manifest = s.serialized_file_map[serialized_file_id].manifest()->0;
    let pointer = manifest[i];
    let name = pointer.0;
    let candidate = (serialized_file_id, pointer.1);
    let kept = manifest.filter(is_named(name));
    manifest.lemma_filter_contains(is_named(name), i);
    let k = choose|k: int| 0 <= k < kept.len() && kept[k] == pointer;
    let from = s.candidates_from(serialized_file_id, name);
    assert(from[k] == candidate);
    let below = s.candidates_below(serialized_file_id as int, name);
    assert(s.candidates_below(serialized_file_id + 1, name)[below.len() + k] == candidate);
    lemma_candidates_below_grow(
        s,
        serialized_file_id + 1,
        s.serialized_file_count,
        name,
        candidate,
    );
    assert(candidates_before(s.container_maps, name) == s.candidates_below(
        s.serialized_file_count,
        name,
    ));
}

} // verus!
