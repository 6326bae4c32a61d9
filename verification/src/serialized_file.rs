//! Object tables.
//!
//! A table holds the objects of one virtual file, each under its number, and
//! the names of the virtual files that its pointers may reach into. By
//! convention object 1 is the manifest: it lists named assets, each with a
//! pointer to the object that the name stands for.
use crate::classes::p_ptr::TypedPointer;
use crate::first_match::first_match;
use crate::first_match::is_first_match;
use crate::first_match::lemma_first_match_is;
use crate::first_match::lemma_first_match_none;
use crate::type_tree::Field;
use crate::type_tree::TypeTreeObject;
use vstd::prelude::*;

verus! {

/// The number of the object that holds a table's manifest.
pub const MANIFEST_PATH_ID: i64 = 1;

/// The schema path of the manifest's list of named assets.
pub open spec fn container_path() -> Seq<char> {
    "/Base/m_Container/Array"@
}

/// The schema path at which an entry of that list holds its pointer.
pub open spec fn asset_path() -> Seq<char> {
    "/Base/asset"@
}

/// One object of a table: its number, and its fields where the object
/// decodes. `fields` is `None` for an object that is there but does not
/// decode.
#[derive(Debug, PartialEq, Eq)]
pub struct ObjectRecord {
    pub path_id: i64,
    pub fields: Option<Vec<Field>>,
}

/// An object is in its table but does not decode.
#[derive(Clone, Copy, Debug, PartialEq, Eq)]
pub struct DecodeError {
    pub serialized_file_id: i64,
    pub path_id: i64,
}

/// A parsed virtual file that has no table identifier yet: its name in the
/// archive, the virtual files it refers to, and its objects.
#[derive(Debug, PartialEq, Eq)]
pub struct CabFile {
    pub path: String,
    pub externals: Vec<String>,
    pub objects: Vec<ObjectRecord>,
}

/// An object table under its identifier.
#[derive(Debug, PartialEq, Eq)]
pub struct SerializedFile {
    pub serialized_file_id: i64,
    pub externals: Vec<String>,
    pub objects: Vec<ObjectRecord>,
}

/// A named asset with the pointer registered for it.
pub type NamedPointer = (String, TypedPointer);

/// A named asset, its name as a sequence of characters, with the pointer
/// registered for it.
pub type NamedPointerView = (Seq<char>, TypedPointer);

/// The names of a list of named pointers as sequences of characters.
pub open spec fn named_pointers_view(pointers: Seq<NamedPointer>) -> Seq<NamedPointerView> {
    pointers.map_values(|p: NamedPointer| (p.0@, p.1))
}

/// What one entry of the manifest's list registers: its name and its pointer,
/// where the entry holds a pointer and the pointer has a target.
pub open spec fn named_pointer(manifest: TypeTreeObject, entry: (String, Vec<Field>)) -> Option<
    NamedPointerView,
> {
    match manifest.nested(&entry.1).object_field(asset_path()) {
        Some(inner) => {
            let pointer = TypedPointer::of(inner);
            if pointer.target() is Some {
                Some((entry.0@, pointer))
            } else {
                None
            }
        },
        None => None,
    }
}

/// What each entry of the list of `manifest` registers.
pub open spec fn registers<'a>(manifest: TypeTreeObject<'a>) -> spec_fn(
    (String, Vec<Field>),
) -> Option<NamedPointerView> {
    |entry: (String, Vec<Field>)| named_pointer(manifest, entry)
}

/// Whether an object record has the number `path_id`.
pub open spec fn has_path_id(path_id: i64) -> spec_fn(ObjectRecord) -> bool {
    |record: ObjectRecord| record.path_id == path_id
}

impl CabFile {
    /// The table that this virtual file becomes under an identifier.
    pub open spec fn table(self, serialized_file_id: i64) -> SerializedFile {
        SerializedFile { serialized_file_id, externals: self.externals, objects: self.objects }
    }
}

impl SerializedFile {
    /// What a lookup of object `path_id` gives: the first object under that
    /// number, `Ok(None)` where there is none, an error where it does not
    /// decode.
    pub open spec fn object<'a>(&'a self, path_id: i64) -> Result<
        Option<TypeTreeObject<'a>>,
        DecodeError,
    > {
        match first_match(self.objects@, has_path_id(path_id)) {
            None => Ok(None),
            Some(i) => match self.objects@[i].fields {
                Some(fields) => Ok(
                    Some(
                        TypeTreeObject {
                            serialized_file_id: self.serialized_file_id,
                            path_id,
                            fields: &fields,
                        },
                    ),
                ),
                None => Err(
                    DecodeError { serialized_file_id: self.serialized_file_id, path_id },
                ),
            },
        }
    }

    /// The named pointers that the table's manifest registers, in the
    /// manifest's order. `None` where object 1 is missing or does not decode,
    /// or holds no string-keyed list at the manifest's schema path.
    pub open spec fn manifest(&self) -> Option<Seq<NamedPointerView>> {
        match self.object(MANIFEST_PATH_ID) {
            Ok(Some(manifest)) => match manifest.string_key_map_field(container_path()) {
                Some(entries) => Some(entries@.filter_map(registers(manifest))),
                None => None,
            },
            _ => None,
        }
    }

    /// Every pointer of a manifest has a target and belongs to the table.
    pub proof fn lemma_manifest_pointers(&self, i: int)
        requires
            self.manifest() is Some,
            0 <= i < self.manifest()->0.len(),
        ensures
            self.manifest()->0[i].1.target() is Some,
            self.manifest()->0[i].1.serialized_file_id == self.serialized_file_id,
    {
        let manifest = self.object(MANIFEST_PATH_ID)->Ok_0->0;
        let entries = manifest.string_key_map_field(container_path())->0;
        let pointer = self.manifest()->0[i];
        assert(entries@.filter_map(registers(manifest)).contains(pointer));
        entries@.lemma_filter_map_contains(registers(manifest), pointer);
    }

    /// Looks up an object by its number.
    pub fn get_tt_object_by_path_id<'a>(&'a self, path_id: i64) -> (object: Result<
        Option<TypeTreeObject<'a>>,
        DecodeError,
    >)
        ensures
            object == self.object(path_id),
    {
        let ghost matches = has_path_id(path_id);
        let mut i: usize = 0;
        while i < self.objects.len()
            invariant
                i <= self.objects.len(),
                matches == has_path_id(path_id),
                forall|j: int| 0 <= j < i ==> !matches(#[trigger] self.objects@[j]),
            decreases self.objects.len() - i,
        {
            if self.objects[i].path_id == path_id {
                proof {
                    assert(is_first_match(self.objects@, matches, i as int));
                    lemma_first_match_is(self.objects@, matches, i as int);
                }
                return match &self.objects[i].fields {
                    Some(fields) => Ok(
                        Some(TypeTreeObject::new(self.serialized_file_id, path_id, fields)),
                    ),
                    None => Err(
                        DecodeError { serialized_file_id: self.serialized_file_id, path_id },
                    ),
                };
            }
            i += 1;
        }
        proof {
            lemma_first_match_none(self.objects@, matches);
        }
        Ok(None)
    }

    /// Reads the table's manifest: the named pointers that object 1 lists,
    /// each with the pointer found in its entry. Entries without a pointer,
    /// or whose pointer has no target, are left out. A table without a
    /// manifest gives `None`.
    pub fn get_manifest(&self) -> (pointers: Option<Vec<NamedPointer>>)
        ensures
            match pointers {
                Some(p) => self.manifest() == Some(named_pointers_view(p@)),
                None => self.manifest() is None,
            },
    {
        let manifest = match self.get_tt_object_by_path_id(MANIFEST_PATH_ID) {
            Ok(Some(manifest)) => manifest,
            _ => { return None; },
        };
        let entries = match manifest.get_string_key_map_by_path(
            &"/Base/m_Container/Array".to_owned(),
        ) {
            Some(entries) => entries,
            None => { return None; },
        };
        let asset = "/Base/asset".to_owned();
        let mut pointers: Vec<NamedPointer> = Vec::new();
        let mut i: usize = 0;
        while i < entries.len()
            invariant
                i <= entries.len(),
                asset@ == asset_path(),
                named_pointers_view(pointers@) == entries@.take(i as int).filter_map(
                    registers(manifest),
                ),
            decreases entries.len() - i,
        {
            proof {
                entries@.lemma_filter_map_take_succ(registers(manifest), i as int);
            }
            let entry = &entries[i];
            if let Some(inner) = manifest.get_nested(&entry.1).get_object_by_path(&asset) {
                let pointer = TypedPointer::new(inner);
                if pointer.get_path_id().is_some() {
                    let ghost before = pointers@;
                    pointers.push((entry.0.clone(), pointer));
                    assert(named_pointers_view(pointers@) == named_pointers_view(before).push(
                        (entry.0@, pointer),
                    ));
                }
            }
            i += 1;
        }
        assert(entries@.take(entries.len() as int) == entries@);
        Some(pointers)
    }
}

} // verus!
