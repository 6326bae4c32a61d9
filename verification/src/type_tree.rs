//! Decoded objects.
//!
//! A decoded object is a table from schema paths to values. A schema path is
//! a slash-separated string such as `/Base/m_Container/Array`; the value found
//! there is a number, a string, a nested object with schema paths of its own,
//! or a string-keyed list of nested objects.
use crate::first_match::first_match;
use crate::first_match::is_first_match;
use crate::first_match::lemma_first_match_is;
use crate::first_match::lemma_first_match_none;
use vstd::prelude::*;

verus! {

/// What a decoded object holds at one schema path.
#[derive(Debug, PartialEq, Eq)]
pub enum FieldValue {
    /// A number.
    Int(i64),
    /// A string.
    Str(String),
    /// A nested object, as its own fields.
    Object(Vec<Field>),
    /// A string-keyed list of nested objects, in the order in which they were
    /// decoded.
    StringKeyMap(Vec<(String, Vec<Field>)>),
}

/// One schema path of a decoded object and the value found there.
#[derive(Debug, PartialEq, Eq)]
pub struct Field {
    pub path: String,
    pub value: FieldValue,
}

/// Whether a field has the schema path `path`.
pub open spec fn has_path(path: Seq<char>) -> spec_fn(Field) -> bool {
    |field: Field| field.path@ == path
}

/// The value at `path` among `fields`: that of the first field with this
/// path.
pub open spec fn field_at(fields: Seq<Field>, path: Seq<char>) -> Option<FieldValue> {
    match first_match(fields, has_path(path)) {
        Some(i) => Some(fields[i].value),
        None => None,
    }
}

/// A decoded object: the table it was decoded from, its number in that table,
/// and its fields. A nested object carries the numbers of the object that
/// holds it.
#[derive(Clone, Copy, Debug, PartialEq, Eq)]
pub struct TypeTreeObject<'a> {
    pub serialized_file_id: i64,
    pub path_id: i64,
    pub fields: &'a Vec<Field>,
}

impl<'a> TypeTreeObject<'a> {
    /// The value at `path`, if the object has that path.
    pub open spec fn field(self, path: Seq<char>) -> Option<FieldValue> {
        field_at(self.fields@, path)
    }

    /// The number at `path`, if the object holds a number there.
    pub open spec fn int_field(self, path: Seq<char>) -> Option<i64> {
        match self.field(path) {
            Some(FieldValue::Int(n)) => Some(n),
            _ => None,
        }
    }

    /// The nested object at `path`, if the object holds one there.
    pub open spec fn object_field(self, path: Seq<char>) -> Option<TypeTreeObject<'a>> {
        match self.field(path) {
            Some(FieldValue::Object(fields)) => Some(self.nested(&fields)),
            _ => None,
        }
    }

    /// The string-keyed list at `path`, if the object holds one there.
    pub open spec fn string_key_map_field(self, path: Seq<char>) -> Option<
        Vec<(String, Vec<Field>)>,
    > {
        match self.field(path) {
            Some(FieldValue::StringKeyMap(entries)) => Some(entries),
            _ => None,
        }
    }

    /// The object with the given fields that is part of this one.
    pub open spec fn nested(self, fields: &'a Vec<Field>) -> TypeTreeObject<'a> {
        TypeTreeObject {
            serialized_file_id: self.serialized_file_id,
            path_id: self.path_id,
            fields,
        }
    }

    pub fn new(serialized_file_id: i64, path_id: i64, fields: &'a Vec<Field>) -> (object: Self)
        ensures
            object == (TypeTreeObject { serialized_file_id, path_id, fields }),
    {
        TypeTreeObject { serialized_file_id, path_id, fields }
    }

    /// Makes the object with the given fields that is part of this one.
    pub fn get_nested(&self, fields: &'a Vec<Field>) -> (object: TypeTreeObject<'a>)
        ensures
            object == self.nested(fields),
    {
        TypeTreeObject {
            serialized_file_id: self.serialized_file_id,
            path_id: self.path_id,
            fields,
        }
    }

    /// Looks up the value at a schema path. Where several fields have the
    /// path, the first one counts.
    pub fn get_field_by_path(&self, path: &String) -> (value: Option<&'a FieldValue>)
        ensures
            match value {
                Some(v) => self.field(path@) == Some(*v),
                None => self.field(path@) is None,
            },
    {
        let ghost matches = has_path(path@);
        let mut i: usize = 0;
        while i < self.fields.len()
            invariant
                i <= self.fields.len(),
                matches == has_path(path@),
                forall|j: int| 0 <= j < i ==> !matches(#[trigger] self.fields@[j]),
            decreases self.fields.len() - i,
        {
            if self.fields[i].path == *path {
                proof {
                    assert(is_first_match(self.fields@, matches, i as int));
                    lemma_first_match_is(self.fields@, matches, i as int);
                }
                return Some(&self.fields[i].value);
            }
            i += 1;
        }
        proof {
            lemma_first_match_none(self.fields@, matches);
        }
        None
    }

    /// Reads the number at a schema path.
    pub fn get_int_by_path(&self, path: &String) -> (value: Option<i64>)
        ensures
            value == self.int_field(path@),
    {
        match self.get_field_by_path(path) {
            Some(FieldValue::Int(n)) => Some(*n),
            _ => None,
        }
    }

    /// Reads the nested object at a schema path.
    pub fn get_object_by_path(&self, path: &String) -> (value: Option<TypeTreeObject<'a>>)
        ensures
            value == self.object_field(path@),
    {
        match self.get_field_by_path(path) {
            Some(FieldValue::Object(fields)) => Some(self.get_nested(fields)),
            _ => None,
        }
    }

    /// Reads the string-keyed list at a schema path.
    pub fn get_string_key_map_by_path(&self, path: &String) -> (value: Option<
        &'a Vec<(String, Vec<Field>)>,
    >)
        ensures
            match value {
                Some(entries) => self.string_key_map_field(path@) == Some(*entries),
                None => self.string_key_map_field(path@) is None,
            },
    {
        match self.get_field_by_path(path) {
            Some(FieldValue::StringKeyMap(entries)) => Some(entries),
            _ => None,
        }
    }
}

} // verus!
