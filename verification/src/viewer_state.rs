//! The state of an index as mathematical maps, and what each operation does
//! to it.
use crate::classes::p_ptr::TypedPointer;
use crate::first_match::first_match;
use crate::serialized_file::CabFile;
use crate::serialized_file::DecodeError;
use crate::serialized_file::NamedPointerView;
use crate::serialized_file::SerializedFile;
use crate::type_tree::TypeTreeObject;
use crate::untityfs::UnityFS;
use vstd::prelude::*;

verus! {

/// A candidate for a container path: the table whose manifest named it, and
/// the pointer found there.
pub type Candidate = (i64, TypedPointer);

/// The candidates that `containers` holds under `name`; none for a name that
/// it does not hold.
pub open spec fn candidates_before(
    containers: Map<Seq<char>, Seq<Candidate>>,
    name: Seq<char>,
) -> Seq<Candidate> {
    if containers.contains_key(name) {
        containers[name]
    } else {
        Seq::empty()
    }
}

/// Whether a named pointer has the name `name`.
pub open spec fn is_named(name: Seq<char>) -> spec_fn(NamedPointerView) -> bool {
    |p: NamedPointerView| p.0 == name
}

/// Whether a named pointer has the target `path_id`.
pub open spec fn has_target(path_id: i64) -> spec_fn(NamedPointerView) -> bool {
    |p: NamedPointerView| p.1.target() == Some(path_id)
}

/// A named pointer as a candidate of table `serialized_file_id`.
pub open spec fn as_candidate(serialized_file_id: i64) -> spec_fn(
    NamedPointerView,
) -> Candidate {
    |p: NamedPointerView| (serialized_file_id, p.1)
}

/// The candidates that the manifest of table `serialized_file_id` gives to
/// `name`, in the manifest's order.
pub open spec fn candidates_of(
    manifest: Seq<NamedPointerView>,
    serialized_file_id: i64,
    name: Seq<char>,
) -> Seq<Candidate> {
    manifest.filter(is_named(name)).map_values(as_candidate(serialized_file_id))
}

/// Whether `manifest` names `name`.
pub open spec fn names(manifest: Seq<NamedPointerView>, name: Seq<char>) -> bool {
    exists|i: int| 0 <= i < manifest.len() && (#[trigger] manifest[i]).0 == name
}

/// `containers` after the manifest of table `serialized_file_id` has been
/// folded in: each name of the manifest keeps the candidates it had and gains
/// the manifest's, behind them.
pub open spec fn add_candidates(
    containers: Map<Seq<char>, Seq<Candidate>>,
    serialized_file_id: i64,
    manifest: Seq<NamedPointerView>,
) -> Map<Seq<char>, Seq<Candidate>> {
    Map::new(
        |name: Seq<char>| containers.contains_key(name) || names(manifest, name),
        |name: Seq<char>|
            candidates_before(containers, name) + candidates_of(
                manifest,
                serialized_file_id,
                name,
            ),
    )
}

/// `containers` with one more candidate behind those of `name`.
pub open spec fn add_candidate(
    containers: Map<Seq<char>, Seq<Candidate>>,
    name: Seq<char>,
    candidate: Candidate,
) -> Map<Seq<char>, Seq<Candidate>> {
    containers.insert(name, candidates_before(containers, name).push(candidate))
}

/// The position in `manifest` of the first pointer with target `path_id`.
pub open spec fn first_with_target(
    manifest: Seq<NamedPointerView>,
    path_id: i64,
) -> Option<int> {
    first_match(manifest, has_target(path_id))
}

/// The names that a manifest gives to objects: each target that occurs in
/// the manifest, under the name of the first pointer that has it.
pub open spec fn names_by_target(manifest: Seq<NamedPointerView>) -> Map<
    i64,
    Seq<char>,
> {
    Map::new(
        |path_id: i64| first_with_target(manifest, path_id) is Some,
        |path_id: i64| manifest[first_with_target(manifest, path_id)->0].0,
    )
}

/// The state of an index.
#[verifier::ext_equal]
pub struct ViewerState {
    /// The table that each virtual-file name stands for.
    pub cab_maps: Map<Seq<char>, i64>,
    /// The tables, by identifier.
    pub serialized_file_map: Map<i64, SerializedFile>,
    /// The next table identifier.
    pub serialized_file_count: int,
    /// The archives, by identifier.
    pub unity_fs_map: Map<i64, UnityFS>,
    /// The next archive identifier.
    pub unity_fs_count: int,
    /// The archive that each table came from.
    pub serialized_file_to_unity_fs_map: Map<i64, i64>,
    /// The candidates of each container path, oldest first.
    pub container_maps: Map<Seq<char>, Seq<Candidate>>,
    /// For each table with a manifest, the names of its objects.
    pub container_name_maps: Map<i64, Map<i64, Seq<char>>>,
}

impl ViewerState {
    /// The state of an index that has taken in nothing.
    pub open spec fn empty() -> ViewerState {
        ViewerState {
            cab_maps: Map::empty(),
            serialized_file_map: Map::empty(),
            serialized_file_count: 0,
            unity_fs_map: Map::empty(),
            unity_fs_count: 0,
            serialized_file_to_unity_fs_map: Map::empty(),
            container_maps: Map::empty(),
            container_name_maps: Map::empty(),
        }
    }

    /// The candidates that the manifest of table `serialized_file_id` gives
    /// to `name`; none where the table is unknown or has no manifest.
    pub open spec fn candidates_from(self, serialized_file_id: i64, name: Seq<char>) -> Seq<
        Candidate,
    > {
        if self.serialized_file_map.contains_key(serialized_file_id) {
            match self.serialized_file_map[serialized_file_id].manifest() {
                Some(manifest) => candidates_of(manifest, serialized_file_id, name),
                None => Seq::empty(),
            }
        } else {
            Seq::empty()
        }
    }

    /// The candidates that the tables with identifiers below `end` give to
    /// `name`, in the order of the identifiers.
    pub open spec fn candidates_below(self, end: int, name: Seq<char>) -> Seq<Candidate>
        decreases end,
    {
        if end <= 0 {
            Seq::empty()
        } else {
            self.candidates_below(end - 1, name) + self.candidates_from((end - 1) as i64, name)
        }
    }

    /// What holds of every state that an index can reach.
    ///
    /// Identifiers in use lie below the counters, and each table knows its
    /// own. Every table belongs to one archive identifier. Every virtual-file
    /// name stands for a table that is there. The candidates of a container
    /// path are those that the manifests of the tables give it, in the order
    /// of the table identifiers and, within a table, of its manifest; a path
    /// that is known has a candidate. The tables with a manifest are the ones
    /// with names for their objects, and those names are the manifest's.
    pub open spec fn wf(self) -> bool {
        &&& 0 <= self.serialized_file_count <= i64::MAX
        &&& 0 <= self.unity_fs_count <= i64::MAX
        &&& forall|id: i64| #[trigger]
            self.serialized_file_map.contains_key(id) ==> {
                &&& 0 <= id < self.serialized_file_count
                &&& self.serialized_file_map[id].serialized_file_id == id
            }
        &&& forall|id: i64| #[trigger]
            self.unity_fs_map.contains_key(id) ==> 0 <= id < self.unity_fs_count
        &&& forall|id: i64| #[trigger]
            self.serialized_file_to_unity_fs_map.contains_key(id)
                <==> self.serialized_file_map.contains_key(id)
        &&& forall|id: i64| #[trigger]
            self.serialized_file_to_unity_fs_map.contains_key(id) ==> 0
                <= self.serialized_file_to_unity_fs_map[id] < self.unity_fs_count
        &&& forall|path: Seq<char>| #[trigger]
            self.cab_maps.contains_key(path) ==> self.serialized_file_map.contains_key(
                self.cab_maps[path],
            )
        &&& forall|name: Seq<char>| #[trigger]
            candidates_before(self.container_maps, name) == self.candidates_below(
                self.serialized_file_count,
                name,
            )
        &&& forall|name: Seq<char>| #[trigger]
            self.container_maps.contains_key(name) ==> self.container_maps[name].len() > 0
        &&& forall|id: i64| #[trigger]
            self.container_name_maps.contains_key(id) <==> {
                &&& self.serialized_file_map.contains_key(id)
                &&& self.serialized_file_map[id].manifest() is Some
            }
        &&& forall|id: i64| #[trigger]
            self.container_name_maps.contains_key(id) ==> self.container_name_maps[id]
                == names_by_target(self.serialized_file_map[id].manifest()->0)
    }

    /// Whether the identifiers left are enough for one more archive with
    /// `cab_files` virtual files.
    pub open spec fn has_room_for(self, cab_files: int) -> bool {
        &&& self.unity_fs_count < i64::MAX
        &&& 0 <= self.serialized_file_count
        &&& self.serialized_file_count + cab_files <= i64::MAX
    }

    /// The table that a virtual-file name stands for.
    pub open spec fn serialized_file_by_path(self, path: Seq<char>) -> Option<SerializedFile> {
        if self.cab_maps.contains_key(path) {
            self.serialized_file_map.get(self.cab_maps[path])
        } else {
            None
        }
    }

    /// The archive that table `serialized_file_id` came from.
    pub open spec fn unity_fs_by_serialized_file_id(self, serialized_file_id: i64) -> Option<
        UnityFS,
    > {
        if self.serialized_file_to_unity_fs_map.contains_key(serialized_file_id) {
            self.unity_fs_map.get(self.serialized_file_to_unity_fs_map[serialized_file_id])
        } else {
            None
        }
    }

    /// The archive that holds the virtual file named `path`.
    pub open spec fn unity_fs_by_cab_path(self, path: Seq<char>) -> Option<UnityFS> {
        if self.cab_maps.contains_key(path) {
            self.unity_fs_by_serialized_file_id(self.cab_maps[path])
        } else {
            None
        }
    }

    /// The name that the manifest of table `serialized_file_id` gives to its
    /// object `path_id`.
    pub open spec fn container_name(self, serialized_file_id: i64, path_id: i64) -> Option<
        Seq<char>,
    > {
        if self.container_name_maps.contains_key(serialized_file_id) {
            self.container_name_maps[serialized_file_id].get(path_id)
        } else {
            None
        }
    }

    /// The name of object `path_id` of the table that `cab_name` stands for.
    pub open spec fn container_name_by_path_id(self, cab_name: Seq<char>, path_id: i64) -> Option<
        Seq<char>,
    > {
        if self.cab_maps.contains_key(cab_name) {
            self.container_name(self.cab_maps[cab_name], path_id)
        } else {
            None
        }
    }

    /// The name of the object that `pointer` refers to in its own table.
    pub open spec fn container_name_by_pptr(self, pointer: TypedPointer) -> Option<Seq<char>> {
        match pointer.target() {
            Some(path_id) => self.container_name(pointer.serialized_file_id, path_id),
            None => None,
        }
    }

    /// The candidate that stands for a container path: the first one
    /// registered under it.
    pub open spec fn first_candidate(self, container_name: Seq<char>) -> Option<Candidate> {
        if self.container_maps.contains_key(container_name)
            && self.container_maps[container_name].len() > 0 {
            Some(self.container_maps[container_name][0])
        } else {
            None
        }
    }

    /// The table whose manifest first registered a container path.
    pub open spec fn serialized_file_by_container_name(self, container_name: Seq<char>) -> Option<
        SerializedFile,
    > {
        match self.first_candidate(container_name) {
            Some(candidate) => self.serialized_file_map.get(candidate.0),
            None => None,
        }
    }

    /// The table that the `file_id`-th external of `owner` stands for.
    pub open spec fn external(self, owner: &SerializedFile, file_id: i64) -> Option<
        SerializedFile,
    > {
        if 0 < file_id <= owner.externals@.len() {
            self.serialized_file_by_path(owner.externals@[file_id - 1]@)
        } else {
            None
        }
    }

    /// The object that a container path stands for: what its first candidate
    /// resolves to against the table that registered it, with this state to
    /// find other tables by.
    pub open spec fn type_tree_object_by_container_name<'a>(
        &'a self,
        container_name: Seq<char>,
    ) -> Result<Option<TypeTreeObject<'a>>, DecodeError> {
        match self.first_candidate(container_name) {
            Some(candidate) => match self.serialized_file_map.get(candidate.0) {
                Some(serialized_file) => resolve(candidate.1, &serialized_file, Some(*self)),
                None => Ok(None),
            },
            None => Ok(None),
        }
    }

    /// The state after one parsed virtual file of archive `unity_fs_id` has
    /// been taken in: it gets the next table identifier, its name stands for
    /// it from now on, and its manifest, where it has one, is folded in.
    pub open spec fn add_serialized_file(self, unity_fs_id: i64, cab_file: CabFile) -> ViewerState {
        let serialized_file_id = self.serialized_file_count as i64;
        let serialized_file = cab_file.table(serialized_file_id);
        ViewerState {
            cab_maps: self.cab_maps.insert(cab_file.path@, serialized_file_id),
            serialized_file_map: self.serialized_file_map.insert(
                serialized_file_id,
                serialized_file,
            ),
            serialized_file_count: self.serialized_file_count + 1,
            unity_fs_map: self.unity_fs_map,
            unity_fs_count: self.unity_fs_count,
            serialized_file_to_unity_fs_map: self.serialized_file_to_unity_fs_map.insert(
                serialized_file_id,
                unity_fs_id,
            ),
            container_maps: match serialized_file.manifest() {
                Some(manifest) => add_candidates(self.container_maps, serialized_file_id, manifest),
                None => self.container_maps,
            },
            container_name_maps: match serialized_file.manifest() {
                Some(manifest) => self.container_name_maps.insert(
                    serialized_file_id,
                    names_by_target(manifest),
                ),
                None => self.container_name_maps,
            },
        }
    }

    /// The state after the parsed virtual files of archive `unity_fs_id` have
    /// been taken in, one after the other.
    pub open spec fn add_serialized_files(
        self,
        unity_fs_id: i64,
        cab_files: Seq<CabFile>,
    ) -> ViewerState
        decreases cab_files.len(),
    {
        if cab_files.len() == 0 {
            self
        } else {
            self.add_serialized_files(unity_fs_id, cab_files.drop_last()).add_serialized_file(
                unity_fs_id,
                cab_files.last(),
            )
        }
    }

    /// The state after an archive's parsed virtual files have been taken in
    /// without the archive itself: the next archive identifier is used up and
    /// the tables belong to it.
    pub open spec fn add_cab_files(self, cab_files: Seq<CabFile>) -> ViewerState {
        ViewerState { unity_fs_count: self.unity_fs_count + 1, ..self }.add_serialized_files(
            self.unity_fs_count as i64,
            cab_files,
        )
    }

    /// The state after an archive and its parsed virtual files have been
    /// taken in.
    pub open spec fn add_unity_fs(self, unity_fs: UnityFS, cab_files: Seq<CabFile>) -> ViewerState {
        let added = self.add_cab_files(cab_files);
        ViewerState {
            unity_fs_map: added.unity_fs_map.insert(self.unity_fs_count as i64, unity_fs),
            ..added
        }
    }
}

/// One archive as it is handed to an index: its parsed virtual files, and the
/// archive itself unless its scan was cut short.
pub struct Ingestion {
    pub unity_fs: Option<UnityFS>,
    pub cab_files: Seq<CabFile>,
}

/// The number of virtual files in a sequence of archives.
pub open spec fn cab_file_count(archives: Seq<Ingestion>) -> int
    decreases archives.len(),
{
    if archives.len() == 0 {
        0
    } else {
        cab_file_count(archives.drop_last()) + archives.last().cab_files.len()
    }
}

impl ViewerState {
    /// The state after one archive has been taken in.
    pub open spec fn ingest(self, archive: Ingestion) -> ViewerState {
        match archive.unity_fs {
            Some(unity_fs) => self.add_unity_fs(unity_fs, archive.cab_files),
            None => self.add_cab_files(archive.cab_files),
        }
    }

    /// The state after a sequence of archives has been taken in, one after
    /// the other.
    pub open spec fn ingest_all(self, archives: Seq<Ingestion>) -> ViewerState
        decreases archives.len(),
    {
        if archives.len() == 0 {
            self
        } else {
            self.ingest_all(archives.drop_last()).ingest(archives.last())
        }
    }

    /// Whether `later` still holds all that this state holds: the counters
    /// have not gone back, every table, archive and set of object names is
    /// there unchanged under its identifier, every virtual-file name still
    /// stands for some table, and every container path has the candidates it
    /// had, in their order, before any new ones.
    pub open spec fn is_kept_by(self, later: ViewerState) -> bool {
        &&& self.serialized_file_count <= later.serialized_file_count
        &&& self.unity_fs_count <= later.unity_fs_count
        &&& forall|id: i64| #[trigger]
            self.serialized_file_map.contains_key(id) ==> {
                &&& later.serialized_file_map.contains_key(id)
                &&& later.serialized_file_map[id] == self.serialized_file_map[id]
            }
        &&& forall|id: i64| #[trigger]
            self.serialized_file_to_unity_fs_map.contains_key(id) ==> {
                &&& later.serialized_file_to_unity_fs_map.contains_key(id)
                &&& later.serialized_file_to_unity_fs_map[id]
                    == self.serialized_file_to_unity_fs_map[id]
            }
        &&& forall|id: i64| #[trigger]
            self.unity_fs_map.contains_key(id) ==> {
                &&& later.unity_fs_map.contains_key(id)
                &&& later.unity_fs_map[id] == self.unity_fs_map[id]
            }
        &&& forall|id: i64| #[trigger]
            self.container_name_maps.contains_key(id) ==> {
                &&& later.container_name_maps.contains_key(id)
                &&& later.container_name_maps[id] == self.container_name_maps[id]
            }
        &&& forall|path: Seq<char>| #[trigger]
            self.cab_maps.contains_key(path) ==> later.cab_maps.contains_key(path)
        &&& forall|name: Seq<char>| #[trigger]
            self.container_maps.contains_key(name) ==> {
                &&& later.container_maps.contains_key(name)
                &&& self.container_maps[name].is_prefix_of(later.container_maps[name])
            }
    }
}

/// What `pointer` resolves to against the table `owner` that it was decoded
/// from. A pointer without a target or without a file index resolves to
/// nothing. File index `0` is `owner` itself. File index `n > 0` is the table
/// that the name of `owner`'s `n`-th external stands for in `viewer`; without
/// a `viewer`, or where that name stands for no table, the pointer resolves
/// to nothing.
pub open spec fn resolve<'a>(
    pointer: TypedPointer,
    owner: &'a SerializedFile,
    viewer: Option<ViewerState>,
) -> Result<Option<TypeTreeObject<'a>>, DecodeError> {
    match (pointer.file_id, pointer.target()) {
        (Some(file_id), Some(path_id)) => {
            if file_id == 0 {
                owner.object(path_id)
            } else {
                match viewer {
                    Some(viewer) => match viewer.external(owner, file_id) {
                        Some(serialized_file) => serialized_file.object(path_id),
                        None => Ok(None),
                    },
                    None => Ok(None),
                }
            }
        },
        _ => Ok(None),
    }
}

} // verus!
