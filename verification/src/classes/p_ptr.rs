//! Typed pointers: references from one object to another.
use crate::serialized_file::DecodeError;
use crate::serialized_file::SerializedFile;
use crate::type_tree::TypeTreeObject;
use crate::unity_asset_view::UnityAssetViewer;
use crate::viewer_state::ViewerState;
use crate::viewer_state::resolve;
use vstd::prelude::*;

verus! {

/// The schema path at which a pointer-shaped object holds its file index.
pub open spec fn file_id_path() -> Seq<char> {
    "/Base/m_FileID"@
}

/// The schema path at which a pointer-shaped object holds its target.
pub open spec fn path_id_path() -> Seq<char> {
    "/Base/m_PathID"@
}

/// A typed pointer.
///
/// `serialized_file_id` is the table that the pointer was decoded from.
/// `file_id` says which table the target lives in: `0` is the owning table
/// itself, `n > 0` is the owning table's `n`-th external. `path_id` is the
/// target's number in that table. A pointer whose `path_id` is missing or
/// zero refers to nothing.
#[derive(Clone, Copy, Debug, PartialEq, Eq)]
pub struct TypedPointer {
    pub serialized_file_id: i64,
    pub file_id: Option<i64>,
    pub path_id: Option<i64>,
}

impl TypedPointer {
    /// The pointer that a pointer-shaped object stands for.
    pub open spec fn of(inner: TypeTreeObject) -> TypedPointer {
        TypedPointer {
            serialized_file_id: inner.serialized_file_id,
            file_id: inner.int_field(file_id_path()),
            path_id: inner.int_field(path_id_path()),
        }
    }

    /// The number of the object that the pointer refers to, or `None` for a
    /// pointer that refers to nothing.
    pub open spec fn target(self) -> Option<i64> {
        match self.path_id {
            Some(path_id) => if path_id != 0 {
                Some(path_id)
            } else {
                None
            },
            None => None,
        }
    }

    /// Reads a pointer out of a pointer-shaped object.
    pub fn new(inner: TypeTreeObject) -> (pointer: TypedPointer)
        ensures
            pointer == TypedPointer::of(inner),
    {
        let file_id = inner.get_int_by_path(&"/Base/m_FileID".to_owned());
        let path_id = inner.get_int_by_path(&"/Base/m_PathID".to_owned());
        TypedPointer { serialized_file_id: inner.serialized_file_id, file_id, path_id }
    }

    /// The table that the pointer was decoded from.
    pub fn get_serialized_file_id(&self) -> (id: i64)
        ensures
            id == self.serialized_file_id,
    {
        self.serialized_file_id
    }

    /// The index of the table that the target lives in.
    pub fn get_file_id(&self) -> (id: Option<i64>)
        ensures
            id == self.file_id,
    {
        self.file_id
    }

    /// The target's number, or `None` for a pointer that refers to nothing.
    pub fn get_path_id(&self) -> (id: Option<i64>)
        ensures
            id == self.target(),
    {
        match self.path_id {
            Some(path_id) => if path_id != 0 {
                Some(path_id)
            } else {
                None
            },
            None => None,
        }
    }

    /// Follows the pointer from the table it was decoded from. A pointer
    /// into another table is followed only with a `viewer` to find that table
    /// by. `Ok(None)` where the pointer refers to nothing or its target
    /// cannot be found; an error where the target is there but does not
    /// decode.
    pub fn get_type_tree_object<'a>(
        &self,
        self_serialized_file: &'a SerializedFile,
        viewer: Option<&'a UnityAssetViewer>,
    ) -> (object: Result<Option<TypeTreeObject<'a>>, DecodeError>)
        ensures
            object == resolve(*self, self_serialized_file, viewer_state(viewer)),
            self.target() is None ==> object == Ok::<Option<TypeTreeObject<'a>>, DecodeError>(
                None,
            ),
    {
        let (file_id, path_id) = match (self.file_id, self.get_path_id()) {
            (Some(file_id), Some(path_id)) => (file_id, path_id),
            _ => { return Ok(None); },
        };
        if file_id == 0 {
            return self_serialized_file.get_tt_object_by_path_id(path_id);
        }
        let viewer = match viewer {
            Some(viewer) => viewer,
            None => { return Ok(None); },
        };
        if file_id < 0 || (file_id - 1) as u64 >= self_serialized_file.externals.len() as u64 {
            return Ok(None);
        }
        let external = &self_serialized_file.externals[(file_id - 1) as usize];
        match viewer.get_serialized_file_by_path(external) {
            Some(serialized_file) => serialized_file.get_tt_object_by_path_id(path_id),
            None => Ok(None),
        }
    }
}

/// The state of the index that a pointer is followed with, if any.
pub open spec fn viewer_state(viewer: Option<&UnityAssetViewer>) -> Option<ViewerState> {
    match viewer {
        Some(viewer) => Some(viewer@),
        None => None,
    }
}

} // verus!
