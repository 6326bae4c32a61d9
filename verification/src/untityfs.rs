//! Archives.
//!
//! An archive is a list of named virtual files, each with its bytes.
use crate::first_match::first_match;
use crate::first_match::is_first_match;
use crate::first_match::lemma_first_match_is;
use crate::first_match::lemma_first_match_none;
use vstd::prelude::*;

verus! {

/// An opened archive: its virtual files, by name, in the archive's order.
#[derive(Debug, PartialEq, Eq)]
pub struct UnityFS {
    pub files: Vec<(String, Vec<u8>)>,
}

/// Whether a virtual file has the name `path`.
pub open spec fn is_file_named(path: Seq<char>) -> spec_fn((String, Vec<u8>)) -> bool {
    |file: (String, Vec<u8>)| file.0@ == path
}

/// The names of a list of strings as sequences of characters.
pub open spec fn paths_view(paths: Seq<String>) -> Seq<Seq<char>> {
    paths.map_values(|path: String| path@)
}

impl UnityFS {
    /// The names of the archive's virtual files, in the archive's order.
    pub open spec fn cab_paths(&self) -> Seq<Seq<char>> {
        self.files@.map_values(|file: (String, Vec<u8>)| file.0@)
    }

    /// The bytes of the first virtual file named `path`, if there is one.
    pub open spec fn file(&self, path: Seq<char>) -> Option<Vec<u8>> {
        match first_match(self.files@, is_file_named(path)) {
            Some(i) => Some(self.files@[i].1),
            None => None,
        }
    }

    /// Lists the names of the archive's virtual files, in the archive's
    /// order.
    pub fn get_cab_path(&self) -> (paths: Vec<String>)
        ensures
            paths_view(paths@) == self.cab_paths(),
    {
        let mut paths: Vec<String> = Vec::new();
        let mut i: usize = 0;
        while i < self.files.len()
            invariant
                i <= self.files.len(),
                paths_view(paths@) == self.cab_paths().take(i as int),
            decreases self.files.len() - i,
        {
            let ghost before = paths@;
            paths.push(self.files[i].0.clone());
            assert(paths_view(paths@) == paths_view(before).push(self.files@[i as int].0@));
            i += 1;
        }
        paths
    }

    /// Extracts a virtual file by name. Where several files have the name,
    /// the first one counts.
    pub fn get_file_by_path(&self, path: &String) -> (bytes: Option<&Vec<u8>>)
        ensures
            match bytes {
                Some(b) => self.file(path@) == Some(*b),
                None => self.file(path@) is None,
            },
    {
        let ghost matches = is_file_named(path@);
        let mut i: usize = 0;
        while i < self.files.len()
            invariant
                i <= self.files.len(),
                matches == is_file_named(path@),
                forall|j: int| 0 <= j < i ==> !matches(#[trigger] self.files@[j]),
            decreases self.files.len() - i,
        {
            if self.files[i].0 == *path {
                proof {
                    assert(is_first_match(self.files@, matches, i as int));
                    lemma_first_match_is(self.files@, matches, i as int);
                }
                return Some(&self.files[i].1);
            }
            i += 1;
        }
        proof {
            lemma_first_match_none(self.files@, matches);
        }
        None
    }
}

} // verus!
