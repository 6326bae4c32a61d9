//! The index: archives and tables under identifiers, and the lookups over
//! them.
use crate::classes::p_ptr::TypedPointer;
use crate::manifest_lemmas::lemma_add_candidates_empty;
use crate::manifest_lemmas::lemma_add_candidates_push;
use crate::manifest_lemmas::lemma_names_by_target_empty;
use crate::manifest_lemmas::lemma_names_by_target_push;
use crate::serialized_file::CabFile;
use crate::serialized_file::DecodeError;
use crate::serialized_file::NamedPointer;
use crate::serialized_file::SerializedFile;
use crate::serialized_file::named_pointers_view;
use crate::type_tree::TypeTreeObject;
use crate::untityfs::UnityFS;
use crate::viewer_laws::lemma_add_cab_files_wf;
use crate::viewer_laws::lemma_add_unity_fs_wf;
use crate::viewer_laws::lemma_empty_wf;
use crate::viewer_state::Candidate;
use crate::viewer_state::ViewerState;
use crate::viewer_state::add_candidate;
use crate::viewer_state::add_candidates;
use crate::viewer_state::names_by_target;
use std::collections::BTreeMap;
use std::collections::HashMap;
use vstd::hash_map::StringHashMap;
use vstd::prelude::*;

verus! {

/// An index over archives and the tables parsed from their virtual files.
pub struct UnityAssetViewer {
    cab_maps: StringHashMap<i64>,
    serialized_file_map: BTreeMap<i64, SerializedFile>,
    serialized_file_count: i64,
    unity_fs_map: BTreeMap<i64, UnityFS>,
    unity_fs_count: i64,
    serialized_file_to_unity_fs_map: BTreeMap<i64, i64>,
    container_maps: StringHashMap<Vec<Candidate>>,
    container_name_maps: HashMap<i64, HashMap<i64, String>>,
}

/// The candidate lists of a map as sequences.
pub open spec fn candidates_view(containers: Map<Seq<char>, Vec<Candidate>>) -> Map<
    Seq<char>,
    Seq<Candidate>,
> {
    Map::new(|name: Seq<char>| containers.contains_key(name), |name: Seq<char>| containers[name]@)
}

/// The names of a map as sequences of characters.
spec fn names_view(names: Map<i64, String>) -> Map<i64, Seq<char>> {
    Map::new(|path_id: i64| names.contains_key(path_id), |path_id: i64| names[path_id]@)
}

/// The names of the maps of a map as sequences of characters.
spec fn name_maps_view(name_maps: Map<i64, HashMap<i64, String>>) -> Map<
    i64,
    Map<i64, Seq<char>>,
> {
    Map::new(
        |serialized_file_id: i64| name_maps.contains_key(serialized_file_id),
        |serialized_file_id: i64| names_view(name_maps[serialized_file_id]@),
    )
}

impl View for UnityAssetViewer {
    type V = ViewerState;

    closed spec fn view(&self) -> ViewerState {
        ViewerState {
            cab_maps: self.cab_maps@,
            serialized_file_map: self.serialized_file_map@,
            serialized_file_count: self.serialized_file_count as int,
            unity_fs_map: self.unity_fs_map@,
            unity_fs_count: self.unity_fs_count as int,
            serialized_file_to_unity_fs_map: self.serialized_file_to_unity_fs_map@,
            container_maps: candidates_view(self.container_maps@),
            container_name_maps: name_maps_view(self.container_name_maps@),
        }
    }
}

impl UnityAssetViewer {
    /// An index that has taken in nothing.
    pub fn new() -> (viewer: Self)
        ensures
            viewer@ == ViewerState::empty(),
            viewer@.wf(),
    {
        let viewer = Self {
            cab_maps: StringHashMap::new(),
            serialized_file_map: BTreeMap::new(),
            serialized_file_count: 0,
            unity_fs_map: BTreeMap::new(),
            unity_fs_count: 0,
            serialized_file_to_unity_fs_map: BTreeMap::new(),
            container_maps: StringHashMap::new(),
            container_name_maps: HashMap::new(),
        };
        assert(viewer@ =~= ViewerState::empty());
        proof {
            lemma_empty_wf();
        }
        viewer
    }

    /// The table identifier that each virtual-file name stands for.
    pub fn cab_maps(&self) -> (cab_maps: &StringHashMap<i64>)
        ensures
            cab_maps@ == self@.cab_maps,
    {
        &self.cab_maps
    }

    /// The tables, by identifier.
    pub fn serialized_file_map(&self) -> (serialized_file_map: &BTreeMap<i64, SerializedFile>)
        ensures
            serialized_file_map@ == self@.serialized_file_map,
    {
        &self.serialized_file_map
    }

    /// The candidates of each container path, oldest first.
    pub fn container_maps(&self) -> (container_maps: &StringHashMap<Vec<Candidate>>)
        ensures
            candidates_view(container_maps@) == self@.container_maps,
    {
        &self.container_maps
    }

    /// Whether the identifiers left are enough for one more archive with
    /// `cab_files` virtual files.
    pub fn has_room_for(&self, cab_files: usize) -> (room: bool)
        ensures
            room == self@.has_room_for(cab_files as int),
    {
        if self.unity_fs_count == i64::MAX || self.serialized_file_count < 0 {
            return false;
        }
        let tables_left = i64::MAX - self.serialized_file_count;
        cab_files as u64 <= tables_left as u64
    }

    /// Adds a candidate behind those of a container path.
    fn add_candidate(&mut self, name: &String, candidate: Candidate)
        ensures
            final(self)@ == (ViewerState {
                container_maps: add_candidate(old(self)@.container_maps, name@, candidate),
                ..old(self)@
            }),
    {
        // The map hands out no mutable reference to a list, so the list is
        // built anew and put in the place of the old one.
        let mut candidates: Vec<Candidate> = Vec::new();
        if let Some(before) = self.container_maps.get(name.as_str()) {
            let mut i: usize = 0;
            while i < before.len()
                invariant
                    i <= before.len(),
                    candidates@ == before@.take(i as int),
                decreases before.len() - i,
            {
                candidates.push(before[i]);
                i += 1;
            }
            assert(candidates@ == before@);
        }
        candidates.push(candidate);
        self.container_maps.insert(name.clone(), candidates);
        assert(final(self)@.container_maps =~= add_candidate(
            old(self)@.container_maps,
            name@,
            candidate,
        ));
    }

    /// Folds the manifest of table `serialized_file_id` into the index: each
    /// pointer becomes a candidate of its name, and each target gets the name
    /// of the first pointer that has it.
    fn add_manifest(&mut self, serialized_file_id: i64, pointers: &Vec<NamedPointer>)
        ensures
            final(self)@ == (ViewerState {
                container_maps: add_candidates(
                    old(self)@.container_maps,
                    serialized_file_id,
                    named_pointers_view(pointers@),
                ),
                container_name_maps: old(self)@.container_name_maps.insert(
                    serialized_file_id,
                    names_by_target(named_pointers_view(pointers@)),
                ),
                ..old(self)@
            }),
    {
        let ghost manifest = named_pointers_view(pointers@);
        let mut name_map: HashMap<i64, String> = HashMap::new();
        proof {
            lemma_add_candidates_empty(old(self)@.container_maps, serialized_file_id);
            lemma_names_by_target_empty();
            assert(manifest.take(0) =~= Seq::empty());
            assert(names_view(name_map@) =~= Map::<i64, Seq<char>>::empty());
        }
        let mut i: usize = 0;
        while i < pointers.len()
            invariant
                i <= pointers.len(),
                manifest == named_pointers_view(pointers@),
                self@ == (ViewerState {
                    container_maps: add_candidates(
                        old(self)@.container_maps,
                        serialized_file_id,
                        manifest.take(i as int),
                    ),
                    ..old(self)@
                }),
                names_view(name_map@) == names_by_target(manifest.take(i as int)),
            decreases pointers.len() - i,
        {
            proof {
                assert(manifest.take(i + 1) =~= manifest.take(i as int).push(manifest[i as int]));
                lemma_add_candidates_push(
                    old(self)@.container_maps,
                    serialized_file_id,
                    manifest.take(i as int),
                    manifest[i as int],
                );
                lemma_names_by_target_push(manifest.take(i as int), manifest[i as int]);
            }
            let name = &pointers[i].0;
            let pointer = pointers[i].1;
            if let Some(path_id) = pointer.get_path_id() {
                if !name_map.contains_key(&path_id) {
                    let ghost before = name_map@;
                    name_map.insert(path_id, name.clone());
                    assert(names_view(name_map@) =~= names_view(before).insert(path_id, name@));
                }
            }
            self.add_candidate(name, (serialized_file_id, pointer));
            i += 1;
        }
        assert(manifest.take(pointers.len() as int) == manifest);
        self.container_name_maps.insert(serialized_file_id, name_map);
        assert(final(self)@.container_name_maps =~= old(self)@.container_name_maps.insert(
            serialized_file_id,
            names_by_target(manifest),
        ));
    }

    /// Takes in one parsed virtual file of archive `unity_fs_id`.
    fn add_serialized_file(&mut self, unity_fs_id: i64, cab_file: CabFile)
        requires
            0 <= old(self)@.serialized_file_count < i64::MAX,
        ensures
            final(self)@ == old(self)@.add_serialized_file(unity_fs_id, cab_file),
    {
        let serialized_file_id = self.serialized_file_count;
        self.serialized_file_count = serialized_file_id + 1;
        let CabFile { path: cab_path, externals, objects } = cab_file;
        let serialized_file = SerializedFile { serialized_file_id, externals, objects };
        if let Some(pointers) = serialized_file.get_manifest() {
            self.add_manifest(serialized_file_id, &pointers);
        }
        self.serialized_file_map.insert(serialized_file_id, serialized_file);
        self.serialized_file_to_unity_fs_map.insert(serialized_file_id, unity_fs_id);
        self.cab_maps.insert(cab_path, serialized_file_id);
    }

    /// Takes in the parsed virtual files of archive `unity_fs_id`, in their
    /// order.
    fn add_serialized_files(&mut self, unity_fs_id: i64, cab_files: Vec<CabFile>)
        requires
            0 <= old(self)@.serialized_file_count,
            old(self)@.serialized_file_count + cab_files.len() <= i64::MAX,
        ensures
            final(self)@ == old(self)@.add_serialized_files(unity_fs_id, cab_files@),
    {
        let ghost all = cab_files@;
        for cab_file in files: cab_files
            invariant
                files.seq() == all,
                0 <= old(self)@.serialized_file_count,
                old(self)@.serialized_file_count + all.len() <= i64::MAX,
                self@.serialized_file_count == old(self)@.serialized_file_count + files.index(),
                self@ == old(self)@.add_serialized_files(
                    unity_fs_id,
                    all.take(files.index() as int),
                ),
        {
            proof {
                let n = files.index() as int;
                assert(all.take(n + 1).drop_last() =~= all.take(n));
                assert(all.take(n + 1).last() == all[n]);
            }
            self.add_serialized_file(unity_fs_id, cab_file);
        }
        assert(all.take(all.len() as int) == all);
    }

    /// Takes in the virtual files of an archive whose scan was cut short: the
    /// files parsed so far become tables of a new archive identifier, which
    /// stays without an archive. Returns the archive identifier.
    pub fn add_cab_files(&mut self, cab_files: Vec<CabFile>) -> (unity_fs_id: i64)
        requires
            old(self)@.has_room_for(cab_files.len() as int),
        ensures
            unity_fs_id == old(self)@.unity_fs_count,
            final(self)@ == old(self)@.add_cab_files(cab_files@),
            old(self)@.wf() ==> final(self)@.wf(),
    {
        proof {
            if self@.wf() {
                lemma_add_cab_files_wf(self@, cab_files@);
            }
        }
        let unity_fs_id = self.unity_fs_count;
        self.unity_fs_count = unity_fs_id + 1;
        self.add_serialized_files(unity_fs_id, cab_files);
        unity_fs_id
    }

    /// Takes in an archive and its parsed virtual files: the archive gets the
    /// next archive identifier, each file in turn the next table identifier.
    /// Returns the archive identifier.
    pub fn add_unity_fs(&mut self, unity_fs: UnityFS, cab_files: Vec<CabFile>) -> (unity_fs_id: i64)
        requires
            old(self)@.has_room_for(cab_files.len() as int),
        ensures
            unity_fs_id == old(self)@.unity_fs_count,
            final(self)@ == old(self)@.add_unity_fs(unity_fs, cab_files@),
            old(self)@.wf() ==> final(self)@.wf(),
    {
        proof {
            if self@.wf() {
                lemma_add_unity_fs_wf(self@, unity_fs, cab_files@);
            }
        }
        let unity_fs_id = self.add_cab_files(cab_files);
        self.unity_fs_map.insert(unity_fs_id, unity_fs);
        unity_fs_id
    }

    /// The table that a virtual-file name stands for.
    pub fn get_serialized_file_by_path(&self, path: &String) -> (serialized_file: Option<
        &SerializedFile,
    >)
        ensures
            match serialized_file {
                Some(s) => self@.serialized_file_by_path(path@) == Some(*s),
                None => self@.serialized_file_by_path(path@) is None,
            },
    {
        if let Some(serialized_file_id) = self.cab_maps.get(path.as_str()) {
            if let Some(serialized_file) = self.serialized_file_map.get(serialized_file_id) {
                return Some(serialized_file);
            }
        }
        None
    }

    /// The archive that table `serialized_file_id` came from.
    fn get_unity_fs_by_serialized_file_id(&self, serialized_file_id: i64) -> (unity_fs: Option<
        &UnityFS,
    >)
        ensures
            match unity_fs {
                Some(u) => self@.unity_fs_by_serialized_file_id(serialized_file_id) == Some(*u),
                None => self@.unity_fs_by_serialized_file_id(serialized_file_id) is None,
            },
    {
        if let Some(unity_fs_id) = self.serialized_file_to_unity_fs_map.get(&serialized_file_id) {
            if let Some(unity_fs) = self.unity_fs_map.get(unity_fs_id) {
                return Some(unity_fs);
            }
        }
        None
    }

    /// The archive that holds the virtual file named `path`.
    pub fn get_unity_fs_by_cab_path(&self, path: &String) -> (unity_fs: Option<&UnityFS>)
        ensures
            match unity_fs {
                Some(u) => self@.unity_fs_by_cab_path(path@) == Some(*u),
                None => self@.unity_fs_by_cab_path(path@) is None,
            },
    {
        if let Some(serialized_file_id) = self.cab_maps.get(path.as_str()) {
            return self.get_unity_fs_by_serialized_file_id(*serialized_file_id);
        }
        None
    }

    /// The archive of the table that a pointer was decoded from.
    pub fn get_unity_fs_by_pptr(&self, pptr: &TypedPointer) -> (unity_fs: Option<&UnityFS>)
        ensures
            match unity_fs {
                Some(u) => self@.unity_fs_by_serialized_file_id(pptr.serialized_file_id) == Some(
                    *u,
                ),
                None => self@.unity_fs_by_serialized_file_id(pptr.serialized_file_id) is None,
            },
    {
        self.get_unity_fs_by_serialized_file_id(pptr.get_serialized_file_id())
    }

    /// The archive of the table that an object was decoded from.
    pub fn get_unity_fs_by_type_tree_object(
        &self,
        type_tree_object: &TypeTreeObject,
    ) -> (unity_fs: Option<&UnityFS>)
        ensures
            match unity_fs {
                Some(u) => self@.unity_fs_by_serialized_file_id(
                    type_tree_object.serialized_file_id,
                ) == Some(*u),
                None => self@.unity_fs_by_serialized_file_id(type_tree_object.serialized_file_id)
                    is None,
            },
    {
        self.get_unity_fs_by_serialized_file_id(type_tree_object.serialized_file_id)
    }

    /// The name that the manifest of table `serialized_file_id` gives to its
    /// object `path_id`.
    fn get_container_name(&self, serialized_file_id: i64, path_id: i64) -> (name: Option<&String>)
        ensures
            match name {
                Some(n) => self@.container_name(serialized_file_id, path_id) == Some(n@),
                None => self@.container_name(serialized_file_id, path_id) is None,
            },
    {
        if let Some(name_map) = self.container_name_maps.get(&serialized_file_id) {
            return name_map.get(&path_id);
        }
        None
    }

    /// The container path of object `path_id` of the table that `cab_name`
    /// stands for.
    pub fn get_container_name_by_path_id(&self, cab_name: &String, path_id: i64) -> (name: Option<
        &String,
    >)
        ensures
            match name {
                Some(n) => self@.container_name_by_path_id(cab_name@, path_id) == Some(n@),
                None => self@.container_name_by_path_id(cab_name@, path_id) is None,
            },
    {
        if let Some(serialized_file_id) = self.cab_maps.get(cab_name.as_str()) {
            return self.get_container_name(*serialized_file_id, path_id);
        }
        None
    }

    /// The container path of the object that a pointer refers to in its own
    /// table.
    pub fn get_container_name_by_pptr(&self, pptr: &TypedPointer) -> (name: Option<&String>)
        ensures
            match name {
                Some(n) => self@.container_name_by_pptr(*pptr) == Some(n@),
                None => self@.container_name_by_pptr(*pptr) is None,
            },
    {
        if let Some(path_id) = pptr.get_path_id() {
            return self.get_container_name(pptr.get_serialized_file_id(), path_id);
        }
        None
    }

    /// The candidate that stands for a container path.
    fn get_first_candidate(&self, container_name: &String) -> (candidate: Option<Candidate>)
        ensures
            candidate == self@.first_candidate(container_name@),
    {
        if let Some(candidates) = self.container_maps.get(container_name.as_str()) {
            if candidates.len() > 0 {
                return Some(candidates[0]);
            }
        }
        None
    }

    /// The object that a container path stands for: what its first candidate
    /// resolves to against the table that registered it, with this index to
    /// find other tables by. `Ok(None)` where the path is unknown or the
    /// target cannot be found; an error where the target does not decode.
    pub fn get_type_tree_object_by_container_name<'a>(
        &'a self,
        container_name: &String,
    ) -> (object: Result<Option<TypeTreeObject<'a>>, DecodeError>)
        ensures
            object == self@.type_tree_object_by_container_name(container_name@),
    {
        if let Some((serialized_file_id, pptr)) = self.get_first_candidate(container_name) {
            if let Some(serialized_file) = self.serialized_file_map.get(&serialized_file_id) {
                return pptr.get_type_tree_object(serialized_file, Some(self));
            }
        }
        Ok(None)
    }

    /// The table whose manifest first registered a container path.
    pub fn get_serialized_file_by_container_name(
        &self,
        container_name: &String,
    ) -> (serialized_file: Option<&SerializedFile>)
        ensures
            match serialized_file {
                Some(s) => self@.serialized_file_by_container_name(container_name@) == Some(*s),
                None => self@.serialized_file_by_container_name(container_name@) is None,
            },
    {
        if let Some((serialized_file_id, _pptr)) = self.get_first_candidate(container_name) {
            return self.serialized_file_map.get(&serialized_file_id);
        }
        None
    }
}

} // verus!
